//! The running channel: what is sent, what is asked, what is reported.

use vstd::prelude::*;

use crate::bus::{CanBusState, CanCapabilities, CanControllerState};
use crate::error::CanIoError;
use crate::frame::{CanFrame, MAX_DLEN};
use crate::gs_usb::host_frame;
use crate::wire;

verus! {

/// Vendor request: read the controller state.
pub const BREQ_GET_STATE: u8 = 14;

/// Device feature bit: hardware timestamps.
pub const FEATURE_HW_TIMESTAMP: u32 = 0x10;

/// Device feature bit: the controller state can be read.
pub const FEATURE_GET_STATE: u32 = 0x2000;

/// GET_STATE reply: `{ state: u32, rxerr: u32, txerr: u32 }`.
pub const GET_STATE_LEN: u16 = 12;

/// A vendor control request that reads from interface 0.
#[derive(Debug, Clone, Copy, PartialEq, Eq, Structural)]
pub struct ControlIn {
    pub request: u8,
    pub value: u16,
    pub length: u16,
}

/// What is fixed of a running channel.
pub struct LinkView {
    pub fd: bool,
    pub channel: u16,
    /// Device feature word (0 if the probe failed).
    pub features: u32,
    /// Hardware timestamps were requested and the device supports them.
    pub hw_ts: bool,
    /// How many frames were handed out to be sent, modulo 2^32.
    pub sent: u32,
}

impl LinkView {
    /// The echo id of the next frame that is sent.
    pub open spec fn next_echo(self) -> u32 {
        self.sent & 0x7FFF_FFFF
    }
}

/// A gs_usb channel that is up.
#[derive(Debug)]
pub struct GsUsbBus {
    fd: bool,
    channel: u16,
    features: u32,
    hw_ts: bool,
    echo: u32,
}

impl View for GsUsbBus {
    type V = LinkView;

    closed spec fn view(&self) -> LinkView {
        LinkView {
            fd: self.fd,
            channel: self.channel,
            features: self.features,
            hw_ts: self.hw_ts,
            sent: self.echo,
        }
    }
}

impl GsUsbBus {
    /// A channel that has just been started.
    pub(crate) fn started(fd: bool, channel: u16, features: u32, hw_ts: bool) -> (bus: Self)
        ensures
            bus@ == (LinkView { fd, channel, features, hw_ts, sent: 0 }),
    {
        GsUsbBus { fd, channel, features, hw_ts, echo: 0 }
    }

    /// `true` when the device is stamping received frames with its hardware
    /// clock (requested by the configuration and supported by the firmware).
    pub fn hw_timestamps_active(&self) -> (active: bool)
        ensures
            active == self@.hw_ts,
    {
        self.hw_ts
    }

    /// Raw device feature word.
    pub fn device_features(&self) -> (features: u32)
        ensures
            features == self@.features,
    {
        self.features
    }

    pub fn channel(&self) -> (channel: u16)
        ensures
            channel == self@.channel,
    {
        self.channel
    }

    pub fn capabilities(&self) -> (r: CanCapabilities)
        ensures
            r.fd == self@.fd,
            r.max_dlen == host_frame::arm_len(self@.fd),
            self@.fd ==> r.max_dlen == 64,
            !self@.fd ==> r.max_dlen == 8,
    {
        CanCapabilities { fd: self.fd, max_dlen: if self.fd { MAX_DLEN } else { 8 } }
    }

    /// The bytes to write to the bulk-OUT endpoint for `frame`. The echo id
    /// counts the frames, and never marks a received one. A payload above
    /// `max_dlen` is refused, and there is nothing to write.
    pub fn send(&mut self, frame: &CanFrame) -> (r: Result<Vec<u8>, CanIoError>)
        ensures
            frame@.payload.len() <= host_frame::arm_len(old(self)@.fd) ==> {
                &&& r is Ok
                &&& r->Ok_0@ == host_frame::encoded(
                    frame@,
                    old(self)@.next_echo(),
                    old(self)@.fd,
                    old(self)@.channel,
                )
            },
            frame@.payload.len() > host_frame::arm_len(old(self)@.fd) ==> r == Err::<
                Vec<u8>,
                CanIoError,
            >(
                CanIoError::DataTooLong {
                    got: frame@.payload.len() as usize,
                    max: host_frame::arm_len(old(self)@.fd) as usize,
                },
            ),
            final(self)@ == (LinkView {
                sent: if old(self)@.sent == u32::MAX {
                    0
                } else {
                    (old(self)@.sent + 1) as u32
                },
                ..old(self)@
            }),
    {
        let echo = self.echo & 0x7FFF_FFFF;
        self.echo = self.echo.wrapping_add(1);
        host_frame::encode_host_frame(frame, echo, self.fd, self.channel)
    }

    /// The request that reads the controller state; `None` if the firmware
    /// cannot report it, and health is simply unknown.
    pub fn state_request(&self) -> (r: Option<ControlIn>)
        ensures
            self@.features & FEATURE_GET_STATE == 0 ==> r is None,
            r is Some <==> self@.features & 0x2000 != 0,
            r matches Some(request) ==> request == (ControlIn {
                request: 14,
                value: self@.channel,
                length: 12,
            }),
            self@.features & FEATURE_GET_STATE != 0 ==> r == Some(
                ControlIn { request: BREQ_GET_STATE, value: self@.channel, length: GET_STATE_LEN },
            ),
    {
        if self.features & FEATURE_GET_STATE == 0 {
            return None;
        }
        Some(
            ControlIn { request: BREQ_GET_STATE, value: self.channel, length: GET_STATE_LEN },
        )
    }
}

/// The controller state that a state word stands for.
pub open spec fn controller_state(word: u32) -> Option<CanControllerState> {
    match word {
        0 => Some(CanControllerState::ErrorActive),
        1 => Some(CanControllerState::ErrorWarning),
        2 => Some(CanControllerState::ErrorPassive),
        3 => Some(CanControllerState::BusOff),
        4 => Some(CanControllerState::Stopped),
        5 => Some(CanControllerState::Sleeping),
        _ => None,
    }
}

/// A counter word, held to 16 bits.
pub open spec fn saturated(word: u32) -> u16 {
    if word <= 0xFFFF {
        word as u16
    } else {
        0xFFFF
    }
}

fn saturate(word: u32) -> (counter: u16)
    ensures
        counter == saturated(word),
{
    if word <= 0xFFFF {
        word as u16
    } else {
        0xFFFF
    }
}

/// Reads the reply to a state request.
pub fn bus_state(reply: &[u8]) -> (r: Result<CanBusState, CanIoError>)
    ensures
        reply@.len() >= 12 ==> r == Ok::<CanBusState, CanIoError>(
            CanBusState {
                state: controller_state(wire::le32(reply@, 0)),
                tx_errors: Some(saturated(wire::le32(reply@, 8))),
                rx_errors: Some(saturated(wire::le32(reply@, 4))),
            },
        ),
        reply@.len() < 12 ==> (r matches Err(CanIoError::Backend(message)) && message@
            == "short GET_STATE reply from device"@),
        r matches Ok(state) ==> {
            &&& state.rx_errors == Some(
                if reply@[6] == 0 && reply@[7] == 0 {
                    (reply@[4] + 0x100 * reply@[5]) as u16
                } else {
                    0xFFFF
                },
            )
            &&& state.tx_errors == Some(
                if reply@[10] == 0 && reply@[11] == 0 {
                    (reply@[8] + 0x100 * reply@[9]) as u16
                } else {
                    0xFFFF
                },
            )
            &&& state.state is Some <==> reply@[0] <= 5 && reply@[1] == 0 && reply@[2] == 0
                && reply@[3] == 0
            &&& state.state is Some ==> state.state == seq![
                Some(CanControllerState::ErrorActive),
                Some(CanControllerState::ErrorWarning),
                Some(CanControllerState::ErrorPassive),
                Some(CanControllerState::BusOff),
                Some(CanControllerState::Stopped),
                Some(CanControllerState::Sleeping),
            ][reply@[0] as int]
        },
{
    if reply.len() < GET_STATE_LEN as usize {
        return Err(CanIoError::backend("short GET_STATE reply from device".to_owned()));
    }
    let state = match wire::read_le32(reply, 0) {
        0 => Some(CanControllerState::ErrorActive),
        1 => Some(CanControllerState::ErrorWarning),
        2 => Some(CanControllerState::ErrorPassive),
        3 => Some(CanControllerState::BusOff),
        4 => Some(CanControllerState::Stopped),
        5 => Some(CanControllerState::Sleeping),
        _ => None,
    };
    let rx = saturate(wire::read_le32(reply, 4));
    let tx = saturate(wire::read_le32(reply, 8));
    Ok(CanBusState { state, tx_errors: Some(tx), rx_errors: Some(rx) })
}

/// No two frames less than 2^31 apart are sent with the same echo id.
pub proof fn law_echo_ids_do_not_repeat_soon(link: LinkView, later: LinkView, apart: int)
    requires
        0 < apart < 0x8000_0000,
        later.sent == (link.sent + apart) % 0x1_0000_0000,
    ensures
        link.next_echo() != later.next_echo(),
{
    let a = link.sent;
    let b = later.sent;
    assert(a & 0x7FFF_FFFF == a % 0x8000_0000) by (bit_vector);
    assert(b & 0x7FFF_FFFF == b % 0x8000_0000) by (bit_vector);
}

/// What a channel sends is never taken for a received frame, by a listener on
/// any channel, however many frames were sent before.
pub proof fn law_sent_frame_is_never_received(
    link: LinkView,
    frame: crate::frame::FrameView,
    listener: u8,
)
    requires
        frame.payload.len() <= host_frame::arm_len(link.fd),
    ensures
        host_frame::host_frame(
            host_frame::encoded(frame, link.next_echo(), link.fd, link.channel),
            listener,
        ) is None,
{
    let sent = link.sent;
    assert(sent & 0x7FFF_FFFF != 0xFFFF_FFFF) by (bit_vector);
    host_frame::law_own_echo_is_skipped(
        frame,
        link.next_echo(),
        link.fd,
        link.channel,
        listener,
    );
}

/// The echo id counts the frames modulo 2^31: it goes up by one from frame to
/// frame, and starts again at 0.
pub proof fn law_echo_id_counts_up(link: LinkView, next: LinkView)
    requires
        next.sent == (link.sent + 1) % 0x1_0000_0000,
    ensures
        link.next_echo() == link.sent % 0x8000_0000,
        next.next_echo() == (link.next_echo() + 1) % 0x8000_0000,
{
    let (a, b) = (link.sent, next.sent);
    assert(a & 0x7FFF_FFFF == a % 0x8000_0000 && b & 0x7FFF_FFFF == b % 0x8000_0000)
        by (bit_vector);
}

/// A counter is reported as it is if 16 bits hold it, and as their largest number
/// otherwise: it never shrinks to a small one.
pub proof fn law_counters_saturate(a: u32, b: u32)
    ensures
        saturated(a) <= a,
        a <= 0xFFFF ==> saturated(a) == a,
        a >= 0xFFFF ==> saturated(a) == 0xFFFF,
        a <= b ==> saturated(a) <= saturated(b),
{
}

/// The state words count from 0 in the order of the states, and no other word is
/// a state; different words are different states.
pub proof fn law_state_words(a: u32, b: u32)
    ensures
        controller_state(a) is Some <==> a < 6,
        a < 6 ==> controller_state(a) == seq![
            Some(CanControllerState::ErrorActive),
            Some(CanControllerState::ErrorWarning),
            Some(CanControllerState::ErrorPassive),
            Some(CanControllerState::BusOff),
            Some(CanControllerState::Stopped),
            Some(CanControllerState::Sleeping),
        ][a as int],
        a < 6 && controller_state(a) == controller_state(b) ==> a == b,
{
}

} // verus!
