//! Core engine of a menu-bar usage monitor.
//!
//! The library holds the verified logic of the application: cost aggregation
//! with a single-slot TTL cache, usage-bucket normalization, a rolling history
//! store with label migration and retention pruning, the panel
//! visibility/attachment state machine with its click-vs-blur debounce, the
//! aggregation orchestrator's merge rules, and the one-shot notification
//! policy. Platform glue (window management, process spawning, file and
//! network I/O) lives outside the library and hands plain values in and out.

pub mod costs;
pub mod dates;
pub mod errors;
pub mod history;
pub mod keychain;
pub mod notify;
pub mod orchestrate;
pub mod panel;
pub mod text;
pub mod toolpath;
pub mod urls;
pub mod usage;

pub use errors::CcusageError;
pub use errors::KeychainError;
pub use errors::UsageError;
