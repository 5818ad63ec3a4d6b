//! Override/notification subsystem of a command-line argument parser.
//!
//! When the parser detects a notable condition — an unknown command, a
//! missing required value, a request for help or version text — it builds
//! a typed payload ([`EventConfig`]) and hands it to a dispatcher
//! ([`EventEmitter`]). Embedding applications register listeners per
//! condition kind ([`Event`]) with integer priorities; dispatch resolves
//! the listeners for the raised kind, orders them stably by ascending
//! priority, and reports the ordered invocation plan together with the
//! termination directive (the payload's exit code). The caller performs
//! the invocations and the process exit, which keeps the registry itself
//! fully verified.

mod command;
mod config;
mod emitter;
mod event;
mod ordering;

pub use command::Command;
pub use config::EventConfig;
pub use config::EventConfigView;
pub use emitter::DispatchOutcome;
pub use emitter::EventEmitter;
pub use emitter::bulk_kinds;
pub use emitter::error_kinds;
pub use emitter::extended;
pub use emitter::lemma_bulk_kinds_membership;
pub use emitter::lemma_error_kinds_membership;
pub use emitter::lemma_extended_per_kind;
pub use emitter::registered;
pub use event::Event;
pub use ordering::first_at;
pub use ordering::first_exceeding;
pub use ordering::has_priority;
pub use ordering::insert_by_priority;
pub use ordering::lemma_first_at_props;
pub use ordering::lemma_first_exceeding_props;
pub use ordering::lemma_sort_by_priority_permutes;
pub use ordering::lemma_sort_by_priority_sorted;
pub use ordering::lemma_sort_by_priority_stable;
pub use ordering::lemma_without_first_at_removes_one;
pub use ordering::sort_by_priority;
pub use ordering::sorted_by_priority;
pub use ordering::without_first_at;
