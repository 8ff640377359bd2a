//! Start-up bootstrap of a desktop application's companion backend: after a
//! warm-up delay it locates the backend start script next to the running
//! executable (primary location first, then the update-staging location),
//! and launches it detached, optionally with its output appended to a log.
//!
//! The decisions are a verified state machine ([`Bootstrap`]); the
//! operating-system work (sleeping, probing files, spawning) is performed by
//! the host, which feeds each result back as an [`Event`]. The module `laws`
//! states and proves what whole bootstrap sessions do.

pub mod bootstrap;
pub mod config;
pub mod laws;
pub mod logs;
pub mod path;

pub use bootstrap::{Action, Bootstrap, Event, Outcome, SpawnRequest, Stage};
pub use config::{LaunchConfig, Shell, DEFAULT_DELAY_SECS};
pub use logs::{app_logs_dir, get_app_data_dir};
pub use path::AppPath;
