//! Program lifecycle core of a bridge that runs desktop packages inside
//! containers: which host capabilities a program may use, how a program's
//! container is built and started, and the registry of installed programs.
//!
//! Nothing here touches the disk, the network or the container runtime. An
//! operation that needs them is cut into steps: a step says what is to be
//! done, and the next one takes what came of it.

pub mod text;
pub mod feature;
pub mod error;
pub mod host;
pub mod config;
pub mod storage;
pub mod catalog;
pub mod container;
pub mod desktop;
pub mod app;
pub mod laws;

pub use app::App;
pub use catalog::FeaturesList;
pub use config::{Config, Icon, Program};
pub use error::{AppError, GatewayError};
pub use feature::Feature;
