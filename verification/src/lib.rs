//! A collectd plugin library: a verified decoder that turns the weakly typed
//! configuration tree collectd hands a plugin into strongly typed values, and
//! the capability flags a plugin advertises to the daemon.

pub mod config;
pub mod de;
pub mod laws;
pub mod plugins;

pub use config::{ConfigItem, ConfigValue};
pub use de::{DeError, Deserializer, Error};
pub use plugins::PluginCapabilities;
