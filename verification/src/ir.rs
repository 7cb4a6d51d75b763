//! A model of the host compiler's optimized intermediate representation, as
//! far as the scan reads it: a body is a control-flow graph of basic blocks,
//! each block ends in one terminator, and only the implicit-destroy terminator
//! carries a place that the scan inspects.  The scan never mutates a body.

use vstd::prelude::*;

verus! {

/// Identifies a concrete type in the host's type universe.
pub type TyId = u64;

/// Identifies a definition (here: a trait) in the host's symbol table.
pub type DefId = u64;

/// A region of source text, as the host hands it out and renders it back.
#[derive(Clone, Copy, PartialEq, Eq, Structural, Debug)]
pub struct Span {
    pub lo: u64,
    pub hi: u64,
}

/// A typed storage location referenced by a terminator.  `local` is the index
/// of the declaration that introduced the slot, where one exists: unnamed
/// temporaries synthesized by earlier compilation stages carry `None`.
#[derive(Clone, Copy, PartialEq, Eq, Structural, Debug)]
pub struct Place {
    pub ty: TyId,
    pub local: Option<usize>,
}

/// The final control-transfer operation of a basic block.  The scan matches
/// only the implicit-destroy variant; every other kind of terminator (branch,
/// call, return, ...) is ignored alike.
#[derive(Clone, Copy, PartialEq, Eq, Structural, Debug)]
pub enum Terminator {
    /// Implicit destruction of the value held in `place`.
    Drop { place: Place, span: Span },
    /// Any terminator this analysis does not inspect.
    Other { span: Span },
}

/// One node of the control-flow graph.  Cleanup blocks are reachable only
/// through unwind propagation and are excluded from the scan.
#[derive(Clone, Copy, PartialEq, Eq, Structural, Debug)]
pub struct BasicBlock {
    pub is_cleanup: bool,
    pub terminator: Option<Terminator>,
}

/// The declaration that introduced a storage slot, with its source span.
#[derive(Clone, Copy, PartialEq, Eq, Structural, Debug)]
pub struct LocalDecl {
    pub span: Span,
}

/// One function body in its fully elaborated form.
pub struct Body {
    pub blocks: Vec<BasicBlock>,
    pub local_decls: Vec<LocalDecl>,
}

} // verus!
