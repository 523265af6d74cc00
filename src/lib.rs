//! Lifecycle, configuration and administration logic for a dedicated
//! Bedrock game server that runs as a detached process.
//!
//! The library decides and formats; the host program performs the
//! operating-system work each decision names and reports back its outcome.
pub mod admin;
pub mod config;
pub mod download;
pub mod listing;
pub mod platform;
pub mod properties;
pub mod server;
pub mod text;

pub use admin::{CommandPlan, Delivery, ServerAdmin};
pub use config::{AllowlistEntry, ConfigField, ConfigFile, ConfigManager, InitialConfigs, Permission};
pub use download::Config;
pub use platform::Platform;
pub use properties::{parse_server_properties, ServerProperties};
pub use server::{QueryError, Server, StartError, StartStep, StopError, StopStep};
