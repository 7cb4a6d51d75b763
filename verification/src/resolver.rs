//! The capability resolver: one symbol-table lookup per analysis session,
//! memoized in a write-once cell owned by the session.  Absence of the
//! capability is a valid, cached answer ("feature disabled"), never a fault.

use crate::host::{HostContext, TraitPath};
use crate::ir::DefId;
use vstd::prelude::*;

verus! {

/// Memoizes the identity of the must-consume capability.  The first call of
/// [`CapabilityResolver::resolve`] performs the path lookup; every later call
/// returns the cached answer without consulting the symbol table again.
pub struct CapabilityResolver {
    cache: Option<Option<DefId>>,
}

impl CapabilityResolver {
    /// The memo cell: `None` before the first lookup, `Some(answer)` after.
    pub closed spec fn cache_spec(self) -> Option<Option<DefId>> {
        self.cache
    }

    /// The answer `resolve` gives against `cx`: the cached one where a lookup
    /// already happened, the symbol table's otherwise.
    pub open spec fn resolved_capability(self, cx: HostContext, path: Seq<u64>) -> Option<DefId> {
        match self.cache_spec() {
            Some(cached) => cached,
            None => cx.trait_def_id_spec(path),
        }
    }

    /// A fresh session: nothing looked up yet.
    pub fn new() -> (resolver: Self)
        ensures
            resolver.cache_spec() is None,
    {
        CapabilityResolver { cache: None }
    }

    /// Resolve the capability identified by `path`, performing the lookup on
    /// the first call and an O(1) cache read on every later one.  Once cached,
    /// the answer is pinned for the session, whatever `cx` says thereafter.
    pub fn resolve(&mut self, cx: &HostContext, path: &TraitPath) -> (capability: Option<DefId>)
        ensures
            capability == old(self).resolved_capability(*cx, path@),
            final(self).cache_spec() == Some(capability),
    {
        match self.cache {
            Some(cached) => cached,
            None => {
                let looked_up = cx.get_trait_def_id(path);
                self.cache = Some(looked_up);
                looked_up
            },
        }
    }
}

} // verus!
