//! A small, chainable error model: a closed set of named error variants,
//! each owning a human-readable message and at most one underlying cause,
//! behind a uniform capability interface (message, optional cause, optional
//! call-stack snapshot). Heterogeneous causes are carried type-erased in a
//! closed union; a context-attachment step lifts a leaf failure into a named
//! chain variant, and a reporter walks the finite cause chain, outermost
//! link first, emitting one line per link and the captured snapshot last.

mod chain;
mod dep;
mod trace;
mod util;

pub use chain::{
    attach_context, chain_msgs, chain_rank, lemma_chain_acyclic, lemma_rest_len,
    lemma_specific_message_stability, occurs_in, report_error, rest_msgs, NonSnafuError, TestError,
};
pub use dep::{call_dep, call_dep_io, dep_io_path, DependencyError};
pub use util::{
    lemma_optional_cause_round_trip, BoxErrExt, BoxedError, CauseLink, ErrorCapability,
    IntoBoxedError, IoFailure, NeverError, OptBoxErrExt, OptionalBoxedError, OptionalMessage,
    ReticulateError, StringError,
};
