//! The `gs_host_frame` layout: what travels on the bulk endpoints.
//!
//! A frame is a 12-byte header (`echo_id`, `can_id`, `can_dlc`, `channel`,
//! `flags`, one reserved byte), then a data arm of 64 bytes for FD frames and
//! of 8 for others, then, when the device stamps frames, a 32-bit counter.

use vstd::prelude::*;
use vstd::slice::slice_subrange;

use crate::error::CanIoError;
use crate::fd;
use crate::frame::{CanFrame, CanId, FrameKind, MAX_DLEN};
#[allow(unused_imports)]
use crate::frame::FrameView;
use crate::wire;

verus! {

/// Per-frame flag: CAN-FD.
pub const FLAG_FD: u8 = 2;

/// Per-frame flag: bit-rate switch.
pub const FLAG_BRS: u8 = 4;

/// Bit of `can_id` that marks an extended identifier.
pub const CAN_EFF_FLAG: u32 = 0x8000_0000;

/// Bit of `can_id` that marks a remote transmission request.
pub const CAN_RTR_FLAG: u32 = 0x4000_0000;

/// Bit of `can_id` that marks an error frame.
pub const CAN_ERR_FLAG: u32 = 0x2000_0000;

/// The bits of a standard identifier.
pub const CAN_SFF_MASK: u32 = 0x0000_07FF;

/// The bits of an extended identifier.
pub const CAN_EFF_MASK: u32 = 0x1FFF_FFFF;

/// `echo_id` value the device uses to mark a genuinely received frame.
/// Anything else is the echo of one of our own transmissions.
pub const ECHO_ID_RX: u32 = 0xFFFF_FFFF;

/// Header size: echo_id, can_id, can_dlc, channel, flags, reserved.
pub const HDR_LEN: usize = 12;

/// The size of the data arm.
pub open spec fn arm_len(fd: bool) -> nat {
    if fd {
        64
    } else {
        8
    }
}

/// The identifier that a `can_id` word holds.
pub open spec fn word_id(word: u32) -> CanId {
    if word & CAN_EFF_FLAG != 0 {
        CanId::Extended(word & CAN_EFF_MASK)
    } else {
        CanId::Standard((word & CAN_SFF_MASK) as u16)
    }
}

/// `bytes` is a whole header of a frame that was received on `channel`: not
/// the echo of a transmission, and no error frame.
pub open spec fn is_received(bytes: Seq<u8>, channel: u8) -> bool {
    &&& bytes.len() >= 12
    &&& wire::le32(bytes, 0) == ECHO_ID_RX
    &&& bytes[9] == channel
    &&& wire::le32(bytes, 4) & CAN_ERR_FLAG == 0
}

/// The kind that the header announces.
pub open spec fn host_kind(bytes: Seq<u8>) -> FrameKind {
    if wire::le32(bytes, 4) & CAN_RTR_FLAG != 0 {
        FrameKind::Remote
    } else if bytes[10] & FLAG_FD != 0 {
        FrameKind::Fd { brs: bytes[10] & FLAG_BRS != 0 }
    } else {
        FrameKind::Data
    }
}

/// The data length that the header announces.
pub open spec fn host_dlc(bytes: Seq<u8>) -> nat {
    if host_kind(bytes) is Fd {
        fd::fd_len(bytes[8] as int % 16)
    } else if bytes[8] <= 8 {
        bytes[8] as nat
    } else {
        8
    }
}

/// The frame that `bytes` holds for a listener on `channel`.
pub open spec fn host_frame(bytes: Seq<u8>, channel: u8) -> Option<FrameView> {
    let kind = host_kind(bytes);
    let dlc = host_dlc(bytes);
    let carried: int = if kind is Remote { 0 } else { dlc as int };
    if is_received(bytes, channel) && bytes.len() >= 12 + carried {
        Some(
            FrameView {
                id: word_id(wire::le32(bytes, 4)),
                kind,
                dlc,
                payload: bytes.subrange(12, 12 + carried),
                timestamp_us: None,
            },
        )
    } else {
        None
    }
}

/// The device counter that follows the data arm, if it is all there.
pub open spec fn host_timestamp(bytes: Seq<u8>) -> Option<u32> {
    let at = 12 + arm_len(host_kind(bytes) is Fd);
    if bytes.len() >= at + 4 {
        Some(wire::le32(bytes, at as int))
    } else {
        None
    }
}

/// Parse one `gs_host_frame` off the bulk-IN endpoint. Returns `None` for our
/// own transmit echoes, frames on a different channel, CAN error frames, and
/// runts. When `hw_ts` is set, also extracts the device timestamp.
pub fn parse_host_frame(buf: &[u8], expected_channel: u8, hw_ts: bool) -> (r: Option<
    (CanFrame, Option<u32>),
>)
    ensures
        r is Some <==> host_frame(buf@, expected_channel) is Some,
        r matches Some((frame, ts)) ==> {
            &&& Some(frame@) == host_frame(buf@, expected_channel)
            &&& ts == if hw_ts { host_timestamp(buf@) } else { None }
        },
{
    if buf.len() < HDR_LEN {
        return None;
    }
    let echo_id = wire::read_le32(buf, 0);
    if echo_id != ECHO_ID_RX {
        return None;
    }
    if buf[9] != expected_channel {
        return None;
    }
    let raw_id = wire::read_le32(buf, 4);
    let dlc = buf[8];
    let flags = buf[10];
    if raw_id & CAN_ERR_FLAG != 0 {
        return None;
    }
    let extended = raw_id & CAN_EFF_FLAG != 0;
    let id = if extended {
        CanId::Extended(raw_id & CAN_EFF_MASK)
    } else {
        CanId::Standard((raw_id & CAN_SFF_MASK) as u16)
    };
    let is_fd = flags & FLAG_FD != 0;
    let remote = raw_id & CAN_RTR_FLAG != 0;
    // The device timestamp sits after the frame's data arm.
    let ts = if hw_ts {
        let arm: usize = if is_fd && !remote { MAX_DLEN } else { 8 };
        let off: usize = HDR_LEN + arm;
        if buf.len() >= off + 4 {
            Some(wire::read_le32(buf, off))
        } else {
            None
        }
    } else {
        None
    };
    let short_dlc: u8 = if dlc < 8 { dlc } else { 8 };
    if remote {
        return match CanFrame::new_remote(id, short_dlc) {
            Ok(frame) => Some((frame, ts)),
            Err(_) => None,
        };
    }
    let len: usize = if is_fd { fd::fd_dlc2len(dlc) } else { short_dlc as usize };
    if buf.len() < HDR_LEN + len {
        return None;
    }
    let payload = slice_subrange(buf, HDR_LEN, HDR_LEN + len);
    let parsed = if is_fd {
        CanFrame::new_fd(id, payload, flags & FLAG_BRS != 0)
    } else {
        CanFrame::new_data(id, payload)
    };
    match parsed {
        Ok(frame) => Some((frame, ts)),
        Err(_) => None,
    }
}

/// The `can_id` word of a frame.
pub open spec fn id_word(frame: FrameView) -> u32 {
    let extended: u32 = if frame.id is Extended { CAN_EFF_FLAG } else { 0 };
    let remote: u32 = if frame.kind is Remote { CAN_RTR_FLAG } else { 0 };
    frame.id.number() | extended | remote
}

/// The length code that is sent with a frame.
pub open spec fn wire_dlc(frame: FrameView) -> u8 {
    if frame.kind is Fd {
        fd::fd_dlc(frame.dlc)
    } else {
        frame.dlc as u8
    }
}

/// The flags that are sent with a frame.
pub open spec fn wire_flags(kind: FrameKind) -> u8 {
    match kind {
        FrameKind::Fd { brs: true } => 6,
        FrameKind::Fd { brs: false } => 2,
        _ => 0,
    }
}

/// The bytes that are sent for a frame: the header, then the payload, filled
/// up with zeroes to the size of the arm.
pub open spec fn encoded(frame: FrameView, echo_id: u32, fd_mode: bool, channel: u16) -> Seq<u8> {
    wire::le32_bytes(echo_id) + wire::le32_bytes(id_word(frame)) + seq![
        wire_dlc(frame),
        (channel % 0x100) as u8,
        wire_flags(frame.kind),
        0u8,
    ] + frame.payload + Seq::new(
        (arm_len(fd_mode) - frame.payload.len()) as nat,
        |i: int| 0u8,
    )
}

/// Serialize a [`CanFrame`] into a `gs_host_frame`. In FD mode the frame is the
/// 64-byte-data variant (header + 64), even for classic frames. A payload that
/// is longer than the data arm is refused.
pub fn encode_host_frame(frame: &CanFrame, echo_id: u32, fd_mode: bool, channel: u16) -> (r: Result<
    Vec<u8>,
    CanIoError,
>)
    ensures
        frame@.payload.len() <= arm_len(fd_mode) ==> {
            &&& r is Ok
            &&& r->Ok_0@ == encoded(frame@, echo_id, fd_mode, channel)
        },
        frame@.payload.len() > arm_len(fd_mode) ==> r == Err::<Vec<u8>, CanIoError>(
            CanIoError::DataTooLong {
                got: frame@.payload.len() as usize,
                max: arm_len(fd_mode) as usize,
            },
        ),
{
    let payload = frame.data();
    let data_field: usize = if fd_mode { MAX_DLEN } else { 8 };
    if payload.len() > data_field {
        return Err(CanIoError::DataTooLong { got: payload.len(), max: data_field });
    }
    let mut raw_id = frame.id().raw();
    let extended: u32 = if frame.id().is_extended() { CAN_EFF_FLAG } else { 0 };
    raw_id = raw_id | extended;
    let (dlc, flags): (u8, u8) = match frame.kind() {
        FrameKind::Remote => (frame.dlc() as u8, 0),
        FrameKind::Data => (payload.len() as u8, 0),
        FrameKind::Fd { brs } => {
            let switch: u8 = if brs { FLAG_BRS } else { 0 };
            assert(2u8 | 4 == 6 && 2u8 | 0 == 2) by (bit_vector);
            (fd::fd_len2dlc(payload.len()), FLAG_FD | switch)
        },
    };
    let remote: u32 = if frame.is_remote() { CAN_RTR_FLAG } else { 0 };
    raw_id = raw_id | remote;
    let mut buf: Vec<u8> = Vec::with_capacity(HDR_LEN + data_field);
    wire::push_le32(&mut buf, echo_id);
    wire::push_le32(&mut buf, raw_id);
    buf.push(dlc);
    buf.push((channel % 0x100) as u8);
    buf.push(flags);
    buf.push(0);
    let ghost header = buf@;
    buf.extend_from_slice(payload);
    assert(buf@ =~= header + payload@);
    buf.resize(HDR_LEN + data_field, 0);
    assert(header =~= wire::le32_bytes(echo_id) + wire::le32_bytes(id_word(frame@)) + seq![
        wire_dlc(frame@),
        (channel % 0x100) as u8,
        wire_flags(frame@.kind),
        0u8,
    ]);
    Ok(buf)
}

/// The parts of an encoded frame.
proof fn lemma_encoded_parts(frame: FrameView, echo_id: u32, fd_mode: bool, channel: u16)
    requires
        frame.payload.len() <= arm_len(fd_mode),
    ensures
        ({
            let bytes = encoded(frame, echo_id, fd_mode, channel);
            &&& bytes.len() == 12 + arm_len(fd_mode)
            &&& wire::le32(bytes, 0) == echo_id
            &&& wire::le32(bytes, 4) == id_word(frame)
            &&& bytes[8] == wire_dlc(frame)
            &&& bytes[9] == (channel % 0x100) as u8
            &&& bytes[10] == wire_flags(frame.kind)
            &&& bytes[11] == 0
            &&& forall|i: int|
                12 <= i < bytes.len() ==> bytes[i] == if i - 12 < frame.payload.len() {
                    frame.payload[i - 12]
                } else {
                    0
                }
        }),
{
    let bytes = encoded(frame, echo_id, fd_mode, channel);
    assert(bytes.subrange(0, 4) =~= wire::le32_bytes(echo_id));
    assert(bytes.subrange(4, 8) =~= wire::le32_bytes(id_word(frame)));
    wire::law_word_round_trip(echo_id, bytes, 0);
    wire::law_word_round_trip(id_word(frame), bytes, 4);
}

/// The `can_id` word gives back the identifier and the kind, and marks no
/// error frame.
proof fn lemma_id_word_parts(frame: FrameView)
    requires
        frame.id.in_range(),
    ensures
        id_word(frame) & CAN_ERR_FLAG == 0,
        (id_word(frame) & CAN_RTR_FLAG != 0) == (frame.kind is Remote),
        word_id(id_word(frame)) == frame.id,
{
    let n = frame.id.number();
    let eff: u32 = if frame.id is Extended { CAN_EFF_FLAG } else { 0 };
    let rtr: u32 = if frame.kind is Remote { CAN_RTR_FLAG } else { 0 };
    assert(n <= 0x1FFF_FFFF && (eff == 0 || eff == 0x8000_0000u32) && (rtr == 0 || rtr
        == 0x4000_0000u32) ==> {
        let word = n | eff | rtr;
        &&& word & 0x2000_0000u32 == 0
        &&& (word & 0x4000_0000u32 != 0) == (rtr != 0)
        &&& (word & 0x8000_0000u32 != 0) == (eff != 0)
        &&& word & 0x1FFF_FFFFu32 == n
        &&& (n <= 0x7FF ==> word & 0x7FFu32 == n)
    }) by (bit_vector);
}

/// What is sent is what is received: the bytes of a frame, marked as received,
/// parse back to the frame, as the other end sees it.
pub proof fn law_encoded_frame_parses_back(frame: FrameView, fd_mode: bool, channel: u16)
    requires
        frame.valid(),
        frame.id.in_range(),
        frame.payload.len() <= arm_len(fd_mode),
    ensures
        host_frame(encoded(frame, ECHO_ID_RX, fd_mode, channel), (channel % 0x100) as u8) == Some(
            fd::as_received(frame),
        ),
{
    lemma_encoded_parts(frame, ECHO_ID_RX, fd_mode, channel);
    lemma_id_word_parts(frame);
    assert(6u8 & 2 != 0 && 6u8 & 4 != 0 && 2u8 & 2 != 0 && 2u8 & 4 == 0 && 0u8 & 2 == 0)
        by (bit_vector);
}

/// A frame as a stamping device sends it, its arm by its own kind and the
/// counter after it, parses back with the counter.
pub proof fn law_stamped_frame_parses_back(frame: FrameView, channel: u16, counter: u32)
    requires
        frame.valid(),
        frame.id.in_range(),
    ensures
        ({
            let bytes = encoded(frame, ECHO_ID_RX, frame.kind is Fd, channel) + wire::le32_bytes(
                counter,
            );
            &&& host_frame(bytes, (channel % 0x100) as u8) == Some(fd::as_received(frame))
            &&& host_timestamp(bytes) == Some(counter)
        }),
{
    let fd_mode = frame.kind is Fd;
    let sent = encoded(frame, ECHO_ID_RX, fd_mode, channel);
    let bytes = sent + wire::le32_bytes(counter);
    law_encoded_frame_parses_back(frame, fd_mode, channel);
    lemma_encoded_parts(frame, ECHO_ID_RX, fd_mode, channel);
    lemma_id_word_parts(frame);
    let at = sent.len() as int;
    assert(bytes.subrange(at, at + 4) =~= wire::le32_bytes(counter));
    wire::law_word_round_trip(counter, bytes, at);
}

/// The echo of a transmission is no received frame, on any channel.
pub proof fn law_own_echo_is_skipped(
    frame: FrameView,
    echo_id: u32,
    fd_mode: bool,
    channel: u16,
    listener: u8,
)
    requires
        frame.payload.len() <= arm_len(fd_mode),
        echo_id != ECHO_ID_RX,
    ensures
        host_frame(encoded(frame, echo_id, fd_mode, channel), listener) is None,
{
    lemma_encoded_parts(frame, echo_id, fd_mode, channel);
}

/// The traffic of one channel is not seen by a listener on another.
pub proof fn law_other_channel_is_skipped(bytes: Seq<u8>, a: u8, b: u8)
    requires
        host_frame(bytes, a) is Some,
        a != b,
    ensures
        host_frame(bytes, b) is None,
{
}

/// Whatever bytes come in, a frame that is taken from them is valid and its
/// identifier is in range.
pub proof fn law_received_frame_is_valid(bytes: Seq<u8>, channel: u8)
    requires
        host_frame(bytes, channel) is Some,
    ensures
        host_frame(bytes, channel)->0.valid(),
        host_frame(bytes, channel)->0.id.in_range(),
{
    let word = wire::le32(bytes, 4);
    assert(word & 0x7FF <= 0x7FF && word & 0x1FFF_FFFF <= 0x1FFF_FFFF) by (bit_vector);
}

/// Which bytes are a received frame: a whole header, `0xFFFF_FFFF` first, the
/// listener's channel at 9, the error bit (0x20 of byte 7) clear, and as much
/// payload as the length code says: none for a remote frame (0x40 of byte 7), the
/// CAN-FD length for one with the FD flag (2 of byte 10), at most 8 otherwise.
pub proof fn law_bytes_that_are_received(bytes: Seq<u8>, channel: u8)
    ensures
        ({
            let lengths = seq![0int, 1, 2, 3, 4, 5, 6, 7, 8, 12, 16, 20, 24, 32, 48, 64];
            let carried = if bytes[7] & 0x40 != 0 {
                0
            } else if bytes[10] & 2 != 0 {
                lengths[bytes[8] as int % 16]
            } else if bytes[8] < 8 {
                bytes[8] as int
            } else {
                8
            };
            host_frame(bytes, channel) is Some <==> {
                &&& bytes.len() >= 12 + carried
                &&& bytes[0] == 0xFF && bytes[1] == 0xFF && bytes[2] == 0xFF && bytes[3] == 0xFF
                &&& bytes[9] == channel
                &&& bytes[7] & 0x20 == 0
            }
        }),
{
    lemma_word_bits(bytes, 4);
    if bytes[10] & 2 != 0 {
        fd::law_lengths_of_can_fd(bytes[8] as int % 16);
    }
}

/// What a received frame says, byte by byte: the identifier in bytes 4 to 7, low
/// byte first and extended if 0x80 of byte 7 is set, the kind by 0x40 of byte 7
/// and by 2 of byte 10, the bit-rate switch by 4 of byte 10 and nothing else, the
/// payload from byte 12 on.
pub proof fn law_received_frame_by_its_bytes(bytes: Seq<u8>, channel: u8)
    requires
        host_frame(bytes, channel) is Some,
    ensures
        ({
            let frame = host_frame(bytes, channel)->0;
            let low = bytes[4] + 0x100 * bytes[5] + 0x1_0000 * bytes[6];
            let lengths = seq![0nat, 1, 2, 3, 4, 5, 6, 7, 8, 12, 16, 20, 24, 32, 48, 64];
            &&& bytes[7] & 0x80 != 0 ==> frame.id == CanId::Extended(
                (low + 0x100_0000 * (bytes[7] & 0x1F)) as u32,
            )
            &&& bytes[7] & 0x80 == 0 ==> frame.id == CanId::Standard(
                (bytes[4] + 0x100 * (bytes[5] & 7)) as u16,
            )
            &&& frame.kind is Remote <==> bytes[7] & 0x40 != 0
            &&& frame.kind is Fd <==> bytes[7] & 0x40 == 0 && bytes[10] & 2 != 0
            &&& frame.kind is Fd ==> (frame.kind == (FrameKind::Fd { brs: true }) <==> bytes[10] & 4
                != 0)
            &&& frame.kind is Fd ==> frame.dlc == lengths[bytes[8] as int % 16]
            &&& frame.kind !is Fd ==> frame.dlc == if bytes[8] < 8 {
                bytes[8] as nat
            } else {
                8
            }
            &&& frame.kind is Remote ==> frame.payload.len() == 0
            &&& frame.kind !is Remote ==> frame.payload.len() == frame.dlc
            &&& forall|i: int|
                0 <= i < frame.payload.len() ==> #[trigger] frame.payload[i] == bytes[12 + i]
            &&& frame.timestamp_us is None
        }),
{
    lemma_word_bits(bytes, 4);
    fd::law_lengths_of_can_fd(bytes[8] as int % 16);
}

/// Where the device counter stands: low byte first, at 76 in an FD frame and at
/// 20 in any other, and only if all four bytes are there.
pub proof fn law_counter_by_its_bytes(bytes: Seq<u8>)
    ensures
        ({
            let at: int = if bytes[7] & 0x40 == 0 && bytes[10] & 2 != 0 {
                76
            } else {
                20
            };
            &&& host_timestamp(bytes) is Some <==> bytes.len() >= at + 4
            &&& host_timestamp(bytes) matches Some(counter) ==> counter == bytes[at] + 0x100
                * bytes[at + 1] + 0x1_0000 * bytes[at + 2] + 0x100_0000 * bytes[at + 3]
        }),
{
    lemma_word_bits(bytes, 4);
}

/// What is sent for a frame, byte by byte: the echo id, then the identifier word,
/// low byte first, with 0x80 of byte 7 for an extended and 0x40 for a remote one,
/// then length code, channel and flags, a zero, and the payload with zeroes after
/// it. The flags of an FD frame are 2, and 4 exactly with the bit-rate switch; any
/// other frame has none.
pub proof fn law_sent_frame_by_its_bytes(
    frame: FrameView,
    echo_id: u32,
    fd_mode: bool,
    channel: u16,
)
    requires
        frame.valid(),
        frame.payload.len() <= if fd_mode {
            64nat
        } else {
            8
        },
    ensures
        ({
            let bytes = encoded(frame, echo_id, fd_mode, channel);
            let number: u32 = match frame.id {
                CanId::Standard(id) => id as u32,
                CanId::Extended(id) => id,
            };
            let extended: u32 = if frame.id is Extended { 0x80 } else { 0 };
            let remote: u32 = if frame.kind is Remote { 0x40 } else { 0 };
            let lengths = seq![0nat, 1, 2, 3, 4, 5, 6, 7, 8, 12, 16, 20, 24, 32, 48, 64];
            &&& bytes.len() == if fd_mode { 76nat } else { 20 }
            &&& bytes[0] == echo_id & 0xFF
            &&& bytes[1] == (echo_id >> 8) & 0xFF
            &&& bytes[2] == (echo_id >> 16) & 0xFF
            &&& bytes[3] == echo_id >> 24
            &&& bytes[4] == number & 0xFF
            &&& bytes[5] == (number >> 8) & 0xFF
            &&& bytes[6] == (number >> 16) & 0xFF
            &&& bytes[7] as u32 == (number >> 24) | extended | remote
            &&& frame.kind !is Fd ==> bytes[8] == frame.dlc
            &&& frame.kind is Fd ==> {
                &&& bytes[8] < 16
                &&& lengths[bytes[8] as int] >= frame.dlc
                &&& forall|code: int| 0 <= code < bytes[8] ==> #[trigger] lengths[code] < frame.dlc
            }
            &&& bytes[9] == channel & 0xFF
            &&& (bytes[10] & 2 != 0) == (frame.kind is Fd)
            &&& (bytes[10] & 4 != 0) == (frame.kind == (FrameKind::Fd { brs: true }))
            &&& bytes[10] & 0xF9 == 0
            &&& bytes[11] == 0
            &&& forall|i: int|
                0 <= i < frame.payload.len() ==> #[trigger] bytes[12 + i] == frame.payload[i]
            &&& forall|i: int|
                12 + frame.payload.len() <= i < bytes.len() ==> #[trigger] bytes[i] == 0
        }),
{
    let bytes = encoded(frame, echo_id, fd_mode, channel);
    lemma_encoded_parts(frame, echo_id, fd_mode, channel);
    wire::law_read_least_significant_first(bytes, 0);
    wire::law_read_least_significant_first(bytes, 4);
    let n = frame.id.number();
    let eff: u32 = if frame.id is Extended { 0x8000_0000 } else { 0 };
    let rtr: u32 = if frame.kind is Remote { 0x4000_0000 } else { 0 };
    assert((eff == 0 || eff == 0x8000_0000u32) && (rtr == 0 || rtr == 0x4000_0000u32) ==> {
        let word = n | eff | rtr;
        &&& word & 0xFF == n & 0xFF
        &&& (word >> 8) & 0xFF == (n >> 8) & 0xFF
        &&& (word >> 16) & 0xFF == (n >> 16) & 0xFF
        &&& word >> 24 == (n >> 24) | (eff >> 24) | (rtr >> 24)
    }) by (bit_vector);
    assert(0x8000_0000u32 >> 24 == 0x80 && 0x4000_0000u32 >> 24 == 0x40 && 0u32 >> 24 == 0 && 6u8
        & 2 != 0 && 6u8 & 4 != 0 && 6u8 & 0xF9 == 0 && 2u8 & 2 != 0 && 2u8 & 4 == 0 && 2u8 & 0xF9
        == 0 && 0u8 & 2 == 0 && 0u8 & 4 == 0 && 0u8 & 0xF9 == 0 && channel & 0xFF == channel
        % 0x100) by (bit_vector);
    fd::law_smallest_dlc_that_fits(frame.dlc);
    assert forall|code: int| 0 <= code < 16 implies #[trigger] fd::fd_len(code) == seq![
        0nat,
        1,
        2,
        3,
        4,
        5,
        6,
        7,
        8,
        12,
        16,
        20,
        24,
        32,
        48,
        64,
    ][code] by {
        fd::law_lengths_of_can_fd(code);
    }
}

/// The bits of a word, by the bytes that they stand in.
proof fn lemma_word_bits(bytes: Seq<u8>, at: int)
    ensures
        ({
            let word = wire::le32(bytes, at);
            let top = bytes[at + 3];
            &&& (word & 0x8000_0000 != 0) == (top & 0x80 != 0)
            &&& (word & 0x4000_0000 != 0) == (top & 0x40 != 0)
            &&& (word & 0x2000_0000 != 0) == (top & 0x20 != 0)
            &&& word & 0x7FF == bytes[at] + 0x100 * (bytes[at + 1] & 7)
            &&& word & 0x1FFF_FFFF == bytes[at] + 0x100 * bytes[at + 1] + 0x1_0000 * bytes[at + 2]
                + 0x100_0000 * (top & 0x1F)
        }),
{
    let word = wire::le32(bytes, at);
    let (a, b, c, d) = (bytes[at], bytes[at + 1], bytes[at + 2], bytes[at + 3]);
    assert((word & 0x8000_0000 != 0) == (d & 0x80 != 0) && (word & 0x4000_0000 != 0) == (d & 0x40
        != 0) && (word & 0x2000_0000 != 0) == (d & 0x20 != 0) && word & 0x7FF == a + 0x100 * (b & 7)
        && word & 0x1FFF_FFFF == a + 0x100 * b + 0x1_0000 * c + 0x100_0000 * (d & 0x1F))
        by (bit_vector)
        requires
            word == a + 0x100 * b + 0x1_0000 * c + 0x100_0000 * d,
    ;
}

} // verus!
