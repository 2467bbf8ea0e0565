//! What a bus reports of itself: capabilities, link configuration, health.

use vstd::prelude::*;

verus! {

/// Static capabilities reported by a backend.
#[derive(Debug, Clone, Copy, PartialEq, Eq, Structural)]
pub struct CanCapabilities {
    /// Backend can transmit and receive CAN-FD frames.
    pub fd: bool,
    /// Maximum payload bytes per frame the backend will accept.
    pub max_dlen: usize,
}

/// Runtime bit-timing information reported by a CAN interface.
///
/// Both fields are optional because some backends can recover the sample
/// point from the applied time segments without knowing the controller clock,
/// while others may only expose a bitrate. The sample point uses the same
/// per-mille representation as Linux CAN netlink (`800` means `0.800`).
#[derive(Debug, Clone, Copy, PartialEq, Eq)]
pub struct CanBitTiming {
    /// Applied bitrate in bits per second.
    pub bitrate: Option<u32>,
    /// Applied sample point in per-mille (`800` = `0.800`).
    pub sample_point_per_mille: Option<u16>,
}

impl Default for CanBitTiming {
    fn default() -> (r: Self)
        ensures
            r == (CanBitTiming { bitrate: None, sample_point_per_mille: None }),
    {
        CanBitTiming { bitrate: None, sample_point_per_mille: None }
    }
}

/// Best-effort snapshot of the configuration currently applied to a link.
///
/// This deliberately describes runtime state rather than backend capability:
/// a SocketCAN backend can support CAN-FD while the selected interface is
/// currently configured for Classic CAN. Optional fields mean "not exposed
/// by this backend/interface", never that a particular policy was accepted.
#[derive(Debug, Clone, Copy, PartialEq, Eq)]
pub struct CanLinkConfig {
    /// Whether CAN-FD is enabled on the link.
    pub fd_enabled: Option<bool>,
    /// Arbitration/nominal-phase timing, when observable.
    pub nominal: Option<CanBitTiming>,
    /// CAN-FD data-phase timing, when configured and observable.
    pub data: Option<CanBitTiming>,
}

impl Default for CanLinkConfig {
    fn default() -> (r: Self)
        ensures
            r == (CanLinkConfig { fd_enabled: None, nominal: None, data: None }),
    {
        CanLinkConfig { fd_enabled: None, nominal: None, data: None }
    }
}

/// CAN controller fault-confinement state (ISO 11898-1). Ordered from healthy
/// to dead; the numeric thresholds are the classic REC/TEC boundaries.
#[derive(Debug, Clone, Copy, PartialEq, Eq, Structural)]
pub enum CanControllerState {
    /// Error counters < 96 — normal operation.
    ErrorActive,
    /// A counter reached 96 — still transmitting, worth investigating.
    ErrorWarning,
    /// A counter reached 128 — only recessive error flags, ACKs still work.
    ErrorPassive,
    /// TEC reached 256 — the controller left the bus.
    BusOff,
    /// Controller stopped / not started.
    Stopped,
    /// Controller in a sleep state.
    Sleeping,
}

/// Best-effort snapshot of controller health. Every field is optional:
/// backends report what they can and leave the rest `None` (e.g. a driver may
/// expose the state but not the raw error counters, or vice versa).
#[derive(Debug, Clone, Copy, PartialEq, Eq)]
pub struct CanBusState {
    /// Fault-confinement state of the controller.
    pub state: Option<CanControllerState>,
    /// Transmit error counter (TEC).
    pub tx_errors: Option<u16>,
    /// Receive error counter (REC).
    pub rx_errors: Option<u16>,
}

impl Default for CanBusState {
    fn default() -> (r: Self)
        ensures
            r == (CanBusState { state: None, tx_errors: None, rx_errors: None }),
    {
        CanBusState { state: None, tx_errors: None, rx_errors: None }
    }
}

} // verus!
