//! Linking a precompiled external module into an interactive evaluator.
//!
//! A long-lived host process can expose one native value to code compiled
//! interactively inside an embedded evaluator. Three concerns make that safe
//! and deterministic, and each has a module here:
//!
//! - [`artifact`] locates and stages the precompiled binary artifact of the
//!   external module, so the interactive compiler can link against it under a
//!   canonical name.
//! - [`linking`] holds the immutable configuration of one binding (module
//!   name, staged artifact, optional data-type descriptor) and renders the
//!   parameter and argument text spliced into each compiled snippet.
//! - [`bridge`] is the evaluation state machine: it serialises evaluations
//!   and accounts for the lock that guards the shared value while a compiled
//!   snippet runs, on the normal and on the aborted path.
//!
//! All filesystem reads and copies, the real lock, and the failure boundary
//! around a snippet invocation live with the caller; the functions here take
//! directory listings, file contents and outcomes as plain values and decide
//! everything else.

pub mod artifact;
pub mod bridge;
pub mod linking;
