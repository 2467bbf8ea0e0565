//! The interface that is open.

use vstd::prelude::*;

use crate::bus::CanCapabilities;
use crate::frame::MAX_DLEN;

verus! {

/// A SocketCAN interface.
#[derive(Debug)]
pub struct SocketCanBus {
    iface: String,
}

impl View for SocketCanBus {
    type V = Seq<char>;

    /// The name of the interface.
    closed spec fn view(&self) -> Seq<char> {
        self.iface@
    }
}

impl SocketCanBus {
    /// The interface of the given name (e.g. `"can0"`, `"vcan0"`).
    pub fn on(iface: String) -> (bus: Self)
        ensures
            bus@ == iface@,
    {
        SocketCanBus { iface }
    }

    pub fn interface(&self) -> (iface: &str)
        ensures
            iface@ == self@,
    {
        self.iface.as_str()
    }

    /// What SocketCAN supports, whatever the interface is set up for.
    pub fn capabilities(&self) -> (r: CanCapabilities)
        ensures
            r == (CanCapabilities { fd: true, max_dlen: 64 }),
    {
        CanCapabilities { fd: true, max_dlen: MAX_DLEN }
    }
}

} // verus!
