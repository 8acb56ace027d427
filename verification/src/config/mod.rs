//! The application's configuration and its validation.
pub mod types;

pub use types::{AppConfig, ConfigError, ProviderSection};
