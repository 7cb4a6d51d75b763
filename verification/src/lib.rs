//! Emulation of linear ("must consume") values, in two halves.
//!
//! The [`guard`] module holds the runtime primitive: a zero-overhead wrapper
//! whose automatic destructor is deliberately inert, together with the
//! [`guard::NearlyLinear`] capability that exposes the explicit consume
//! operation.  Dropping such a wrapper without consuming it is memory safe but
//! logically wrong, and that is exactly the event the static half detects.
//!
//! The static half is a per-body scan over a model of the host compiler's
//! intermediate representation: [`ir`] describes bodies, basic blocks,
//! terminators and places; [`host`] models the host's symbol table and its
//! trait-satisfaction oracle; [`resolver`] memoizes the one capability lookup
//! per analysis session; and [`scanner`] walks every non-cleanup block of a
//! body and reports each implicit destroy of a must-consume value.

pub mod guard;
pub mod host;
pub mod ir;
pub mod resolver;
pub mod scanner;
