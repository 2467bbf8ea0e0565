//! What the kernel says of an interface over netlink, and what is reported of
//! it.

use vstd::prelude::*;

use crate::bus::{CanBitTiming, CanBusState, CanControllerState, CanLinkConfig};

verus! {

/// The bit timing of an interface, as netlink has it.
#[derive(Debug, Clone, Copy, PartialEq, Eq, Structural)]
pub struct NetlinkBitTiming {
    /// Bits per second; 0 if unknown.
    pub bitrate: u32,
    /// Sample point in per-mille; 0 if unknown.
    pub sample_point: u32,
}

/// The frame size that an interface is set up for.
#[derive(Debug, Clone, Copy, PartialEq, Eq, Structural)]
pub enum NetlinkMtu {
    /// Classic frames.
    Standard,
    /// CAN-FD frames.
    Fd,
}

/// The details of an interface, as far as netlink exposes them.
#[derive(Debug, Clone, Copy)]
pub struct NetlinkDetails {
    /// Whether the control mode has CAN-FD on.
    pub fd_mode: Option<bool>,
    pub mtu: Option<NetlinkMtu>,
    pub bit_timing: Option<NetlinkBitTiming>,
    pub data_bit_timing: Option<NetlinkBitTiming>,
}

/// The error counters of an interface.
#[derive(Debug, Clone, Copy, PartialEq, Eq, Structural)]
pub struct NetlinkErrorCounters {
    pub txerr: u16,
    pub rxerr: u16,
}

/// The bit timing that is reported: a field is left out where netlink has no
/// sensible value for it.
pub open spec fn bit_timing(timing: NetlinkBitTiming) -> CanBitTiming {
    CanBitTiming {
        bitrate: if timing.bitrate != 0 {
            Some(timing.bitrate)
        } else {
            None
        },
        sample_point_per_mille: if 1 <= timing.sample_point <= 1000 {
            Some(timing.sample_point as u16)
        } else {
            None
        },
    }
}

/// The bit timing, if there is one, as it is reported.
pub open spec fn reported(timing: Option<NetlinkBitTiming>) -> Option<CanBitTiming> {
    match timing {
        Some(timing) => Some(bit_timing(timing)),
        None => None,
    }
}

pub fn netlink_bit_timing(timing: NetlinkBitTiming) -> (r: CanBitTiming)
    ensures
        r == bit_timing(timing),
        r.bitrate is Some <==> timing.bitrate > 0,
        r.bitrate matches Some(bitrate) ==> bitrate == timing.bitrate,
        r.sample_point_per_mille is Some <==> 0 < timing.sample_point < 1001,
        r.sample_point_per_mille matches Some(point) ==> point == timing.sample_point,
{
    CanBitTiming {
        bitrate: if timing.bitrate != 0 {
            Some(timing.bitrate)
        } else {
            None
        },
        sample_point_per_mille: if 1 <= timing.sample_point && timing.sample_point <= 1000 {
            Some(timing.sample_point as u16)
        } else {
            None
        },
    }
}

/// The link configuration that is reported. Whether CAN-FD is enabled is taken
/// from the control mode; vcan and some drivers expose no control mode, but the
/// MTU, which is the next-best observation.
pub fn link_config(details: &NetlinkDetails) -> (r: CanLinkConfig)
    ensures
        r.fd_enabled == match (details.fd_mode, details.mtu) {
            (Some(on), _) => Some(on),
            (None, Some(mtu)) => Some(mtu is Fd),
            (None, None) => None,
        },
        r.nominal == reported(details.bit_timing),
        r.data == reported(details.data_bit_timing),
        r.nominal is Some <==> details.bit_timing is Some,
        r.data is Some <==> details.data_bit_timing is Some,
{
    let fd_enabled = match details.fd_mode {
        Some(on) => Some(on),
        None => match details.mtu {
            Some(mtu) => Some(matches!(mtu, NetlinkMtu::Fd)),
            None => None,
        },
    };
    let nominal = match details.bit_timing {
        Some(timing) => Some(netlink_bit_timing(timing)),
        None => None,
    };
    let data = match details.data_bit_timing {
        Some(timing) => Some(netlink_bit_timing(timing)),
        None => None,
    };
    CanLinkConfig { fd_enabled, nominal, data }
}

/// The controller state that is reported. What netlink does not expose (vcan,
/// a non-CAN interface) is unknown.
pub fn bus_state(
    state: Option<CanControllerState>,
    counters: Option<NetlinkErrorCounters>,
) -> (r: CanBusState)
    ensures
        r.state == state,
        r.tx_errors == match counters {
            Some(c) => Some(c.txerr),
            None => None,
        },
        r.rx_errors == match counters {
            Some(c) => Some(c.rxerr),
            None => None,
        },
{
    match counters {
        Some(c) => CanBusState { state, tx_errors: Some(c.txerr), rx_errors: Some(c.rxerr) },
        None => CanBusState { state, tx_errors: None, rx_errors: None },
    }
}

/// A sample point that is reported is one: more than nothing, and no later than
/// the end of the bit. A bitrate that is reported is not 0.
pub proof fn law_reported_timing_is_sensible(timing: NetlinkBitTiming)
    ensures
        bit_timing(timing).bitrate matches Some(bitrate) ==> bitrate > 0,
        bit_timing(timing).sample_point_per_mille matches Some(point) ==> 1 <= point <= 1000
            && point == timing.sample_point,
{
}

/// Every value that makes sense is reported, as it is, and each field on its own:
/// a bitrate unless it is 0, a sample point from 1 to 1000.
pub proof fn law_sensible_timing_is_reported(timing: NetlinkBitTiming, other: NetlinkBitTiming)
    ensures
        timing.bitrate == 0 <==> bit_timing(timing).bitrate is None,
        timing.bitrate > 0 ==> bit_timing(timing).bitrate == Some(timing.bitrate),
        (timing.sample_point == 0 || timing.sample_point > 1000) <==> bit_timing(
            timing,
        ).sample_point_per_mille is None,
        1 <= timing.sample_point <= 1000 ==> bit_timing(timing).sample_point_per_mille == Some(
            timing.sample_point as u16,
        ),
        timing.bitrate == other.bitrate ==> bit_timing(timing).bitrate == bit_timing(other).bitrate,
        reported(Some(timing)) == Some(bit_timing(timing)),
        reported(None) is None,
{
}

} // verus!
