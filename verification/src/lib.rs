//! Headless Jetson Orin (Tegra234) flashing pipeline: configuration,
//! workspace layout, recovery detection and the stage plans, verified.
pub mod config;
pub mod error;
pub mod logging;
pub mod paths;
pub mod pipeline;
pub mod plan;
pub mod stages;
pub mod text;

pub use config::Config;
pub use error::{Error, RecoveryError};
pub use paths::Paths;
pub use pipeline::Step;
