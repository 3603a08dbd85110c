//! Verified core of Better Sonar: the decisions that switch SteelSeries Sonar
//! outputs, check what Sonar reports back, and drive the tray, shortcut and
//! settings flows. Network, file and window work is left to the host program,
//! which performs the requests these modules ask for.

pub mod clock;
pub mod models;
pub mod text;
pub mod percent;
pub mod sonar;
pub mod gg;
pub mod runtime;
pub mod shortcuts;
pub mod repeat;
pub mod keys;
pub mod tray;
pub mod discovery;
pub mod updates;
pub mod launch;
pub mod settings_flow;
pub mod probe;
