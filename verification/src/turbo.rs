//! Turbo mode: a toggle with a compression level.

use vstd::prelude::*;

verus! {

/// The turbo-mode switch of a session.
pub struct TurboMode {
    enabled: bool,
    compression_level: u8,
}

impl TurboMode {
    /// Is turbo mode on?
    pub closed spec fn enabled_spec(&self) -> bool {
        self.enabled
    }

    /// The configured compression level.
    pub closed spec fn level_spec(&self) -> u8 {
        self.compression_level
    }

    /// Creates the switch, off, at compression level 0.
    pub fn new() -> (r: TurboMode)
        ensures
            !r.enabled_spec(),
            r.level_spec() == 0,
    {
        TurboMode { enabled: false, compression_level: 0 }
    }

    /// Switches turbo mode on.
    pub fn enable(&mut self)
        ensures
            final(self).enabled_spec(),
            final(self).level_spec() == old(self).level_spec(),
    {
        self.enabled = true;
    }

    /// Switches turbo mode off.
    pub fn disable(&mut self)
        ensures
            !final(self).enabled_spec(),
            final(self).level_spec() == old(self).level_spec(),
    {
        self.enabled = false;
    }

    /// Is turbo mode on?
    pub fn is_enabled(&self) -> (r: bool)
        ensures
            r == self.enabled_spec(),
    {
        self.enabled
    }

    /// Sets the compression level.
    pub fn set_compression_level(&mut self, level: u8)
        ensures
            final(self).level_spec() == level,
            final(self).enabled_spec() == old(self).enabled_spec(),
    {
        self.compression_level = level;
    }

    /// The configured compression level.
    pub fn compression_level(&self) -> (r: u8)
        ensures
            r == self.level_spec(),
    {
        self.compression_level
    }
}

} // verus!
