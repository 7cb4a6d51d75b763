//! A model of the two queries the scan asks of the host compiler: resolving a
//! fully-qualified trait path to its definition, and the "type implements
//! trait" satisfaction test.  Both are read-only and deterministic for the
//! lifetime of one analysis session.

use crate::ir::{DefId, TyId};
use vstd::prelude::*;

verus! {

/// A fully-qualified path, one interned symbol per segment.
#[derive(PartialEq, Eq, Debug)]
pub struct TraitPath {
    pub segments: Vec<u64>,
}

impl View for TraitPath {
    type V = Seq<u64>;

    open spec fn view(&self) -> Seq<u64> {
        self.segments@
    }
}

/// One trait definition known to the host: its path and its identifier.
#[derive(PartialEq, Eq, Debug)]
pub struct TraitDef {
    pub path: TraitPath,
    pub id: DefId,
}

/// One "this type implements that trait" fact known to the host, with the
/// trait queried in its base form (no generic arguments supplied).
#[derive(Clone, Copy, PartialEq, Eq, Structural, Debug)]
pub struct TraitImpl {
    pub ty: TyId,
    pub trait_id: DefId,
}

/// The host's symbol table and trait-satisfaction oracle, as the scan sees
/// them.
pub struct HostContext {
    pub traits: Vec<TraitDef>,
    pub impls: Vec<TraitImpl>,
}

/// The identifier of the first trait definition whose path matches, if any.
pub open spec fn find_trait(traits: Seq<TraitDef>, path: Seq<u64>) -> Option<DefId>
    decreases traits.len(),
{
    if traits.len() == 0 {
        None
    } else if traits[0].path@ == path {
        Some(traits[0].id)
    } else {
        find_trait(traits.drop_first(), path)
    }
}

impl HostContext {
    /// What `get_trait_def_id` returns.
    pub open spec fn trait_def_id_spec(self, path: Seq<u64>) -> Option<DefId> {
        find_trait(self.traits@, path)
    }

    /// What `implements_trait` returns.
    pub open spec fn implements_spec(self, ty: TyId, trait_id: DefId) -> bool {
        exists|i: int|
            0 <= i < self.impls@.len() && (#[trigger] self.impls@[i]) == (TraitImpl {
                ty,
                trait_id,
            })
    }

    /// Look a trait definition up by its fully-qualified path.  Absence is an
    /// ordinary answer, not a fault: the defining library may not be linked.
    pub fn get_trait_def_id(&self, path: &TraitPath) -> (found: Option<DefId>)
        ensures
            found == self.trait_def_id_spec(path@),
    {
        let n = self.traits.len();
        let mut i: usize = 0;
        proof {
            assert(self.traits@.skip(0) =~= self.traits@);
        }
        while i < n
            invariant
                i <= n == self.traits@.len(),
                find_trait(self.traits@.skip(i as int), path@) == self.trait_def_id_spec(path@),
            decreases n - i,
        {
            if path_eq(&self.traits[i].path, path) {
                return Some(self.traits[i].id);
            }
            proof {
                assert(self.traits@.skip(i as int).drop_first() =~= self.traits@.skip(
                    i as int + 1,
                ));
            }
            i += 1;
        }
        proof {
            assert(self.traits@.skip(n as int) =~= Seq::<TraitDef>::empty());
        }
        None
    }

    /// Ask whether `ty` satisfies the trait `trait_id`, queried in its base
    /// form.  A pure, deterministic membership test over the host's facts.
    pub fn implements_trait(&self, ty: TyId, trait_id: DefId) -> (satisfied: bool)
        ensures
            satisfied == self.implements_spec(ty, trait_id),
    {
        let n = self.impls.len();
        let mut i: usize = 0;
        while i < n
            invariant
                i <= n == self.impls@.len(),
                forall|j: int|
                    0 <= j < i ==> (#[trigger] self.impls@[j]) != (TraitImpl { ty, trait_id }),
            decreases n - i,
        {
            let fact = self.impls[i];
            if fact.ty == ty && fact.trait_id == trait_id {
                return true;
            }
            i += 1;
        }
        false
    }
}

/// Segment-for-segment equality of two paths.
pub fn path_eq(a: &TraitPath, b: &TraitPath) -> (equal: bool)
    ensures
        equal == (a@ == b@),
{
    let n = a.segments.len();
    if n != b.segments.len() {
        return false;
    }
    let mut i: usize = 0;
    while i < n
        invariant
            i <= n == a.segments@.len(),
            n == b.segments@.len(),
            forall|k: int| 0 <= k < i ==> a.segments@[k] == b.segments@[k],
        decreases n - i,
    {
        if a.segments[i] != b.segments[i] {
            return false;
        }
        i += 1;
    }
    proof {
        assert(a@ =~= b@);
    }
    true
}

} // verus!
