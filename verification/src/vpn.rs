//! VPN connection state of a session. The tunnel itself is the shell's
//! business; the core tracks whether one is up.

use vstd::prelude::*;

verus! {

/// The VPN switch of a session.
pub struct VpnManager {
    connected: bool,
}

impl VpnManager {
    /// Is the VPN up?
    pub closed spec fn connected_spec(&self) -> bool {
        self.connected
    }

    /// Creates the manager, disconnected.
    pub fn new() -> (r: VpnManager)
        ensures
            !r.connected_spec(),
    {
        VpnManager { connected: false }
    }

    /// Marks the VPN connected.
    pub fn connect(&mut self)
        ensures
            final(self).connected_spec(),
    {
        self.connected = true;
    }

    /// Marks the VPN disconnected.
    pub fn disconnect(&mut self)
        ensures
            !final(self).connected_spec(),
    {
        self.connected = false;
    }

    /// Is the VPN up?
    pub fn is_connected(&self) -> (r: bool)
        ensures
            r == self.connected_spec(),
    {
        self.connected
    }
}

} // verus!
