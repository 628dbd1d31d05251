//! Host side of a hot-reloadable sandboxed game module.
//!
//! The host keeps exactly one guest instance alive, feeds it one frame at a
//! time, and swaps it for a freshly loaded one whenever the guest artifact
//! changes on disk, carrying the guest's serialized state across where the
//! guest allows it.
//!
//! - `watcher` tells when the artifact has changed.
//! - `orchestrator` decides which guest call comes next; `trace` holds what
//!   is proved of those decisions over whole runs.
//! - `environment` brings up one generation of the guest in the runtime and
//!   makes the guest calls; `binding` declares what is used of the runtime.
//! - `host` puts the two together: it owns the active generation and carries
//!   out what the orchestrator decides.
//! - `ui` names the text sizes a screen can draw.

pub mod binding;
pub mod environment;
pub mod error;
pub mod host;
pub mod orchestrator;
pub mod trace;
pub mod ui;
pub mod watcher;
