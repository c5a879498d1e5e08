//! Emulation of a standardized GPU-API diagnostics extension (debug message
//! callbacks, message filtering rules, and a one-slot message log) on top of
//! an underlying API implementation that lacks it.
//!
//! The crate holds the emulation engine itself: validity predicates over the
//! recognized enumerants, the message-control rule set and its matching
//! algorithm, the message-insertion pipeline (validation, filtering, dispatch
//! or storage), the single-slot message log with its retrieval contract, and
//! the translation of native errors into debug messages after every
//! intercepted call. The surrounding binding layer is expected to route each
//! logical function either to the native symbol or to the entry points here,
//! to invoke [`state::EmulationState::on_fn_called`] after every wrapped call,
//! and to perform the [`state::Delivery`] values that the entry points hand
//! back by invoking the registered callback.

pub mod enums;
pub mod errors;
pub mod message;
pub mod rules;
pub mod state;
