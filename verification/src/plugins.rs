//! Capability flags a plugin advertises to the collectd daemon, one bit per
//! callback the plugin wants registered.

use vstd::prelude::*;

verus! {

/// The bit that marks a plugin as configurable.
pub const CONFIG_BIT: u32 = 0b0000_0001;

/// The bit that marks a plugin as a reporter of values.
pub const READ_BIT: u32 = 0b0000_0010;

/// The bit that marks a plugin as wanting an initialization call.
pub const INIT_BIT: u32 = 0b0000_0100;

/// The bit that marks a plugin as a log handler.
pub const LOG_BIT: u32 = 0b0000_1000;

/// The bit that marks a plugin as a receiver of reported values.
pub const WRITE_BIT: u32 = 0b0001_0000;

/// The bit that marks a plugin as a flush handler.
pub const FLUSH_BIT: u32 = 0b0010_0000;

/// A set of capability bits. By default a plugin advertises nothing.
#[derive(Debug, Clone, Copy, PartialEq, Eq, Structural)]
pub struct PluginCapabilities {
    pub bits: u32,
}

impl Default for PluginCapabilities {
    /// No capabilities at all.
    fn default() -> (r: Self)
        ensures
            r.bits == 0,
    {
        PluginCapabilities { bits: 0 }
    }
}

impl PluginCapabilities {
    /// The configuration capability alone.
    pub fn config() -> (r: Self)
        ensures
            r.bits == CONFIG_BIT,
    {
        PluginCapabilities { bits: CONFIG_BIT }
    }

    /// The read capability alone.
    pub fn read() -> (r: Self)
        ensures
            r.bits == READ_BIT,
    {
        PluginCapabilities { bits: READ_BIT }
    }

    /// The initialization capability alone.
    pub fn init() -> (r: Self)
        ensures
            r.bits == INIT_BIT,
    {
        PluginCapabilities { bits: INIT_BIT }
    }

    /// The logging capability alone.
    pub fn log() -> (r: Self)
        ensures
            r.bits == LOG_BIT,
    {
        PluginCapabilities { bits: LOG_BIT }
    }

    /// The write capability alone.
    pub fn write() -> (r: Self)
        ensures
            r.bits == WRITE_BIT,
    {
        PluginCapabilities { bits: WRITE_BIT }
    }

    /// The flush capability alone.
    pub fn flush() -> (r: Self)
        ensures
            r.bits == FLUSH_BIT,
    {
        PluginCapabilities { bits: FLUSH_BIT }
    }

    /// Both sets of bits together.
    pub fn union(self, other: Self) -> (r: Self)
        ensures
            r.bits == self.bits | other.bits,
    {
        PluginCapabilities { bits: self.bits | other.bits }
    }

    /// Whether the two sets share a bit.
    pub fn intersects(&self, other: Self) -> (r: bool)
        ensures
            r == (self.bits & other.bits != 0),
    {
        self.bits & other.bits != 0
    }

    /// Whether the read capability is advertised.
    pub fn has_read(&self) -> (r: bool)
        ensures
            r == (self.bits & READ_BIT != 0),
    {
        self.intersects(Self::read())
    }

    /// Whether the configuration capability is advertised.
    pub fn has_config(&self) -> (r: bool)
        ensures
            r == (self.bits & CONFIG_BIT != 0),
    {
        self.intersects(Self::config())
    }

    /// Whether the initialization capability is advertised.
    pub fn has_init(&self) -> (r: bool)
        ensures
            r == (self.bits & INIT_BIT != 0),
    {
        self.intersects(Self::init())
    }

    /// Whether the logging capability is advertised.
    pub fn has_log(&self) -> (r: bool)
        ensures
            r == (self.bits & LOG_BIT != 0),
    {
        self.intersects(Self::log())
    }

    /// Whether the write capability is advertised.
    pub fn has_write(&self) -> (r: bool)
        ensures
            r == (self.bits & WRITE_BIT != 0),
    {
        self.intersects(Self::write())
    }

    /// Whether the flush capability is advertised.
    pub fn has_flush(&self) -> (r: bool)
        ensures
            r == (self.bits & FLUSH_BIT != 0),
    {
        self.intersects(Self::flush())
    }
}

} // verus!
