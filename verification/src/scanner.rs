//! The body scanner.  Once per function body it walks every basic block of
//! the optimized control-flow graph, skips cleanup (unwind) blocks, matches
//! the implicit-destroy terminator, asks the host whether the destroyed
//! place's type satisfies the must-consume capability, and shapes one
//! diagnostic per qualifying destroy: anchored at the originating declaration
//! when that can be recovered, at the destroy site itself otherwise.

use crate::host::{HostContext, TraitPath};
use crate::ir::{BasicBlock, Body, DefId, LocalDecl, Span, Terminator};
use crate::resolver::CapabilityResolver;
use vstd::prelude::*;

verus! {

/// One advisory report.  The host owns rendering and severity; the scanner
/// only decides whether and where to report.
#[derive(Clone, Copy, PartialEq, Eq, Structural, Debug)]
pub enum Diagnostic {
    /// The destroyed value's declaration was recovered: the report is anchored
    /// there, with a secondary note at the destroy site.
    AtDecl { decl_span: Span, drop_span: Span },
    /// The declaration could not be recovered (an unnamed temporary, or a slot
    /// synthesized with no surface binding): a degraded report anchored at the
    /// destroy site itself.  Best effort, never silent.
    AtDropSite { drop_span: Span },
}

impl Diagnostic {
    /// Where the report is anchored.
    pub open spec fn primary_span_spec(self) -> Span {
        match self {
            Diagnostic::AtDecl { decl_span, .. } => decl_span,
            Diagnostic::AtDropSite { drop_span } => drop_span,
        }
    }

    /// What the primary message says.
    pub open spec fn primary_message_spec(self) -> Seq<char> {
        match self {
            Diagnostic::AtDecl { .. } => "dropping an item that should be used"@,
            Diagnostic::AtDropSite { .. } => "dropping a type that should be used"@,
        }
    }

    pub fn primary_span(&self) -> (span: Span)
        ensures
            span == self.primary_span_spec(),
    {
        match self {
            Diagnostic::AtDecl { decl_span, .. } => *decl_span,
            Diagnostic::AtDropSite { drop_span } => *drop_span,
        }
    }

    /// The span of the secondary "dropped here" note, present exactly when the
    /// declaration was recovered (the degraded report already points there).
    pub fn note_span(&self) -> (span: Option<Span>)
        ensures
            match *self {
                Diagnostic::AtDecl { drop_span, .. } => span == Some(drop_span),
                Diagnostic::AtDropSite { .. } => span is None,
            },
    {
        match self {
            Diagnostic::AtDecl { drop_span, .. } => Some(*drop_span),
            Diagnostic::AtDropSite { .. } => None,
        }
    }

    pub fn primary_message(&self) -> (msg: &'static str)
        ensures
            msg@ == self.primary_message_spec(),
    {
        match self {
            Diagnostic::AtDecl { .. } => "dropping an item that should be used",
            Diagnostic::AtDropSite { .. } => "dropping a type that should be used",
        }
    }

    /// The closing advice attached to the report.  The full report tells the
    /// user to consume the value explicitly; the degraded one states the
    /// resolution limitation and invites a report of the gap.
    pub fn help_message(&self) -> (msg: &'static str)
        ensures
            self is AtDecl ==> msg@
                == "this item should always be consumed before going out of scope. You may have forgotten to call a function that consumes this value."@,
            self is AtDropSite ==> msg@
                == "One of the types in this scope was supposed to be used but was dropped. This lint *should* show you which variable was dropped, but was unable to do so because of a bug in the linter. Please report this error."@,
    {
        match self {
            Diagnostic::AtDecl { .. } => "this item should always be consumed before going out of scope. You may have forgotten to call a function that consumes this value.",
            Diagnostic::AtDropSite { .. } => "One of the types in this scope was supposed to be used but was dropped. This lint *should* show you which variable was dropped, but was unable to do so because of a bug in the linter. Please report this error.",
        }
    }
}

/// Whether a block holds an implicit destroy the scan must report: the block
/// is not a cleanup block, it ends in a destroy terminator, the capability is
/// resolved, and the destroyed place's direct static type satisfies it.
pub open spec fn qualifies(block: BasicBlock, capability: Option<DefId>, cx: HostContext) -> bool {
    &&& !block.is_cleanup
    &&& match block.terminator {
        Some(Terminator::Drop { place, .. }) => match capability {
            Some(trait_id) => cx.implements_spec(place.ty, trait_id),
            None => false,
        },
        _ => false,
    }
}

/// The diagnostic shaped for a block that ends in an implicit destroy: the
/// full form when the place maps back to a declaration, the degraded form
/// when it does not.
pub open spec fn diag_of(block: BasicBlock, decls: Seq<LocalDecl>) -> Diagnostic
    recommends
        block.terminator matches Some(Terminator::Drop { .. }),
{
    match block.terminator {
        Some(Terminator::Drop { place, span }) => match place.local {
            Some(local) => if local < decls.len() {
                Diagnostic::AtDecl { decl_span: decls[local as int].span, drop_span: span }
            } else {
                Diagnostic::AtDropSite { drop_span: span }
            },
            None => Diagnostic::AtDropSite { drop_span: span },
        },
        _ => Diagnostic::AtDropSite { drop_span: Span { lo: 0, hi: 0 } },
    }
}

/// Every diagnostic one scan of `blocks` emits, in block order.
pub open spec fn scan_spec(
    blocks: Seq<BasicBlock>,
    decls: Seq<LocalDecl>,
    capability: Option<DefId>,
    cx: HostContext,
) -> Seq<Diagnostic>
    decreases blocks.len(),
{
    if blocks.len() == 0 {
        Seq::empty()
    } else {
        let prefix = scan_spec(blocks.drop_last(), decls, capability, cx);
        if qualifies(blocks.last(), capability, cx) {
            prefix.push(diag_of(blocks.last(), decls))
        } else {
            prefix
        }
    }
}

/// The blocks of a body that hold a reportable implicit destroy.
pub open spec fn qualifying_blocks(
    blocks: Seq<BasicBlock>,
    capability: Option<DefId>,
    cx: HostContext,
) -> Seq<BasicBlock> {
    blocks.filter(|b: BasicBlock| qualifies(b, capability, cx))
}

/// The diagnostics shaped for `blocks`, one each, in order.
pub open spec fn diags_of_blocks(blocks: Seq<BasicBlock>, decls: Seq<LocalDecl>) -> Seq<
    Diagnostic,
> {
    blocks.map_values(|b: BasicBlock| diag_of(b, decls))
}

/// The lint pass: the capability's fully-qualified path, fixed at
/// construction, and the session's memoized resolution of it.
pub struct DropLinearType {
    capability_path: TraitPath,
    resolver: CapabilityResolver,
}

impl DropLinearType {
    /// The path of the capability this pass looks for.
    pub closed spec fn capability_path_spec(self) -> Seq<u64> {
        self.capability_path@
    }

    /// The session's memo cell, as [`CapabilityResolver`] keeps it.
    pub closed spec fn cache_spec(self) -> Option<Option<DefId>> {
        self.resolver.cache_spec()
    }

    /// The capability in effect for the next body checked against `cx`: the
    /// cached resolution where one exists, the symbol table's otherwise.
    pub open spec fn session_capability(self, cx: HostContext) -> Option<DefId> {
        match self.cache_spec() {
            Some(cached) => cached,
            None => cx.trait_def_id_spec(self.capability_path_spec()),
        }
    }

    /// A fresh analysis session for the capability at `capability_path`.
    pub fn new(capability_path: TraitPath) -> (pass: Self)
        ensures
            pass.capability_path_spec() == capability_path@,
            pass.cache_spec() is None,
    {
        DropLinearType { capability_path, resolver: CapabilityResolver::new() }
    }

    /// Scan one function body and report every implicit destroy, in a
    /// non-cleanup block, of a value whose type satisfies the must-consume
    /// capability: exactly one diagnostic per such destroy terminator,
    /// anchored at the declaration when it can be recovered.  With the
    /// capability unresolved the scan is inert.  The body is read, never
    /// changed; nothing but the capability cache outlives the call.
    pub fn check_body(&mut self, cx: &HostContext, body: &Body) -> (diags: Vec<Diagnostic>)
        ensures
            diags@ == scan_spec(
                body.blocks@,
                body.local_decls@,
                old(self).session_capability(*cx),
                *cx,
            ),
            final(self).cache_spec() == Some(old(self).session_capability(*cx)),
            final(self).capability_path_spec() == old(self).capability_path_spec(),
            old(self).session_capability(*cx) is None ==> diags@ === Seq::<Diagnostic>::empty(),
    {
        let capability = self.resolver.resolve(cx, &self.capability_path);
        let mut diags: Vec<Diagnostic> = Vec::new();
        let n = body.blocks.len();
        let mut i: usize = 0;
        while i < n
            invariant
                i <= n == body.blocks@.len(),
                diags@ == scan_spec(
                    body.blocks@.take(i as int),
                    body.local_decls@,
                    capability,
                    *cx,
                ),
            decreases n - i,
        {
            proof {
                assert(body.blocks@.take(i as int + 1).drop_last() =~= body.blocks@.take(i as int));
                assert(body.blocks@.take(i as int + 1).last() == body.blocks@[i as int]);
            }
            let block = &body.blocks[i];
            if !block.is_cleanup {
                if let Some(terminator) = &block.terminator {
                    if let Terminator::Drop { place, span } = terminator {
                        if let Some(trait_id) = capability {
                            if cx.implements_trait(place.ty, trait_id) {
                                let diagnostic = match place.local {
                                    Some(local) => if local < body.local_decls.len() {
                                        Diagnostic::AtDecl {
                                            decl_span: body.local_decls[local].span,
                                            drop_span: *span,
                                        }
                                    } else {
                                        Diagnostic::AtDropSite { drop_span: *span }
                                    },
                                    None => Diagnostic::AtDropSite { drop_span: *span },
                                };
                                diags.push(diagnostic);
                            }
                        }
                    }
                }
            }
            i += 1;
        }
        proof {
            assert(body.blocks@.take(n as int) =~= body.blocks@);
            if capability is None {
                lemma_scan_inert_without_capability(body.blocks@, body.local_decls@, *cx);
            }
        }
        diags
    }
}

/// Law: one scan reports exactly the qualifying implicit destroys, in block
/// order, one diagnostic each, and each diagnostic is the one shaped from its
/// own block: anchored at the declaration where the place resolves to one,
/// at the destroy site otherwise.
pub proof fn lemma_scan_one_diagnostic_per_qualifying_drop(
    blocks: Seq<BasicBlock>,
    decls: Seq<LocalDecl>,
    capability: Option<DefId>,
    cx: HostContext,
)
    ensures
        scan_spec(blocks, decls, capability, cx) == diags_of_blocks(
            qualifying_blocks(blocks, capability, cx),
            decls,
        ),
    decreases blocks.len(),
{
    reveal(Seq::filter);
    if blocks.len() == 0 {
        assert(scan_spec(blocks, decls, capability, cx) =~= diags_of_blocks(
            qualifying_blocks(blocks, capability, cx),
            decls,
        ));
    } else {
        lemma_scan_one_diagnostic_per_qualifying_drop(blocks.drop_last(), decls, capability, cx);
        let sub = qualifying_blocks(blocks.drop_last(), capability, cx);
        if qualifies(blocks.last(), capability, cx) {
            assert(qualifying_blocks(blocks, capability, cx) == sub.push(blocks.last()));
            assert(diags_of_blocks(sub.push(blocks.last()), decls) =~= diags_of_blocks(
                sub,
                decls,
            ).push(diag_of(blocks.last(), decls)));
        } else {
            assert(qualifying_blocks(blocks, capability, cx) == sub);
        }
    }
}

/// Law: a body in which no block holds a qualifying implicit destroy — in
/// particular one where every must-consume value was explicitly consumed, so
/// that no destroy terminator for it remains — yields no diagnostics.
pub proof fn lemma_scan_consumed_body_is_silent(
    blocks: Seq<BasicBlock>,
    decls: Seq<LocalDecl>,
    capability: Option<DefId>,
    cx: HostContext,
)
    requires
        forall|i: int| 0 <= i < blocks.len() ==> !qualifies(#[trigger] blocks[i], capability, cx),
    ensures
        scan_spec(blocks, decls, capability, cx) === Seq::empty(),
    decreases blocks.len(),
{
    if blocks.len() > 0 {
        assert(forall|i: int|
            0 <= i < blocks.drop_last().len() ==> !qualifies(
                #[trigger] blocks.drop_last()[i],
                capability,
                cx,
            ));
        lemma_scan_consumed_body_is_silent(blocks.drop_last(), decls, capability, cx);
        assert(!qualifies(blocks.last(), capability, cx));
    }
}

/// Law: cleanup (unwind) blocks never contribute a diagnostic: scanning a
/// body gives the very diagnostics that scanning only its non-cleanup blocks
/// gives, whatever the cleanup blocks hold.
pub proof fn lemma_scan_ignores_cleanup_blocks(
    blocks: Seq<BasicBlock>,
    decls: Seq<LocalDecl>,
    capability: Option<DefId>,
    cx: HostContext,
)
    ensures
        scan_spec(blocks, decls, capability, cx) == scan_spec(
            blocks.filter(|b: BasicBlock| !b.is_cleanup),
            decls,
            capability,
            cx,
        ),
    decreases blocks.len(),
{
    reveal(Seq::filter);
    if blocks.len() > 0 {
        lemma_scan_ignores_cleanup_blocks(blocks.drop_last(), decls, capability, cx);
        let sub = blocks.drop_last().filter(|b: BasicBlock| !b.is_cleanup);
        if blocks.last().is_cleanup {
            assert(!qualifies(blocks.last(), capability, cx));
            assert(blocks.filter(|b: BasicBlock| !b.is_cleanup) == sub);
        } else {
            assert(blocks.filter(|b: BasicBlock| !b.is_cleanup) == sub.push(blocks.last()));
            assert(sub.push(blocks.last()).drop_last() =~= sub);
            assert(sub.push(blocks.last()).last() == blocks.last());
        }
    }
}

/// Law: with the capability unresolved (its defining library absent), the
/// scan emits no diagnostics whatever the body holds.
pub proof fn lemma_scan_inert_without_capability(
    blocks: Seq<BasicBlock>,
    decls: Seq<LocalDecl>,
    cx: HostContext,
)
    ensures
        scan_spec(blocks, decls, Option::<DefId>::None, cx) === Seq::empty(),
    decreases blocks.len(),
{
    if blocks.len() > 0 {
        lemma_scan_inert_without_capability(blocks.drop_last(), decls, cx);
        assert(!qualifies(blocks.last(), Option::<DefId>::None, cx));
    }
}

} // verus!
