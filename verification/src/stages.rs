//! The pipeline's stages, each as a plan built from the configuration and
//! the workspace layout.
pub mod check;
pub mod deps;
pub mod dispatch;
pub mod fetch;
pub mod flash;
pub mod preconfig;
pub mod stage;
