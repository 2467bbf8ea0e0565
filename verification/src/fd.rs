//! CAN-FD lengths: a payload has one of sixteen lengths on the wire.

use vstd::prelude::*;

#[allow(unused_imports)]
use crate::frame::FrameView;

verus! {

/// Payload length of a CAN-FD data length code.
pub open spec fn fd_len(dlc: int) -> nat {
    if 0 <= dlc <= 8 {
        dlc as nat
    } else if dlc == 9 {
        12
    } else if dlc == 10 {
        16
    } else if dlc == 11 {
        20
    } else if dlc == 12 {
        24
    } else if dlc == 13 {
        32
    } else if dlc == 14 {
        48
    } else {
        64
    }
}

/// The data length code that is sent for a payload of `len` bytes.
pub open spec fn fd_dlc(len: nat) -> u8 {
    if len <= 8 {
        len as u8
    } else if len <= 12 {
        9
    } else if len <= 16 {
        10
    } else if len <= 20 {
        11
    } else if len <= 24 {
        12
    } else if len <= 32 {
        13
    } else if len <= 48 {
        14
    } else {
        15
    }
}

/// The payload lengths of the sixteen data length codes.
fn fd_lengths() -> (table: [usize; 16])
    ensures
        forall|dlc: int| 0 <= dlc < 16 ==> #[trigger] table@[dlc] == fd_len(dlc),
{
    [0, 1, 2, 3, 4, 5, 6, 7, 8, 12, 16, 20, 24, 32, 48, 64]
}

/// CAN-FD DLC -> payload length. Only the low four bits of `dlc` count.
pub fn fd_dlc2len(dlc: u8) -> (len: usize)
    ensures
        len == fd_len(dlc as int % 16),
        len == seq![0nat, 1, 2, 3, 4, 5, 6, 7, 8, 12, 16, 20, 24, 32, 48, 64][dlc as int % 16],
{
    assert(dlc & 0x0F == dlc % 16) by (bit_vector);
    let table = fd_lengths();
    table[(dlc & 0x0F) as usize]
}

/// Payload length -> smallest CAN-FD DLC that fits it.
pub fn fd_len2dlc(len: usize) -> (dlc: u8)
    ensures
        dlc == fd_dlc(len as nat),
        len <= 8 ==> dlc == len,
        8 < len <= 24 ==> 4 * (dlc - 7) <= len + 3 && len <= 4 * (dlc - 6),
        24 < len <= 32 ==> dlc == 13,
        32 < len <= 48 ==> dlc == 14,
        48 < len ==> dlc == 15,
{
    let table = fd_lengths();
    let mut dlc: usize = 0;
    while dlc < 16
        invariant
            forall|d: int| 0 <= d < 16 ==> #[trigger] table@[d] == fd_len(d),
            forall|d: int| 0 <= d < dlc && d < 16 ==> fd_len(d) < len,
        decreases 16 - dlc,
    {
        if table[dlc] >= len {
            assert(dlc > 0 ==> fd_len(dlc - 1) < len);
            return dlc as u8;
        }
        dlc += 1;
    }
    assert(fd_len(15) < len);
    15
}

/// The code that is sent is the smallest whose length holds the payload; the
/// largest one, if none does.
pub proof fn law_smallest_dlc_that_fits(len: nat)
    ensures
        fd_dlc(len) < 16,
        len <= 64 ==> len <= fd_len(fd_dlc(len) as int),
        len > 64 ==> fd_dlc(len) == 15,
        forall|d: int| 0 <= d < fd_dlc(len) ==> fd_len(d) < len,
{
}

/// A code comes back from the length it stands for, and a length that some
/// code stands for comes back from its code.
pub proof fn law_dlc_round_trip(dlc: int)
    requires
        0 <= dlc < 16,
    ensures
        fd_dlc(fd_len(dlc)) == dlc,
        fd_len(fd_dlc(fd_len(dlc)) as int) == fd_len(dlc),
{
}

/// A frame as the other end sees it: an FD payload is filled up with zeroes to
/// the next length that has a code, and no timestamp travels.
pub open spec fn as_received(frame: FrameView) -> FrameView {
    if frame.kind is Fd {
        let len = fd_len(fd_dlc(frame.dlc) as int);
        FrameView {
            dlc: len,
            payload: frame.payload + Seq::new((len - frame.dlc) as nat, |i: int| 0u8),
            timestamp_us: None,
            ..frame
        }
    } else {
        FrameView { timestamp_us: None, ..frame }
    }
}

/// The lengths are those of CAN-FD: up to 8 every one, up to 24 every fourth, and
/// then 32, 48 and 64.
pub proof fn law_lengths_of_can_fd(dlc: int)
    requires
        0 <= dlc < 16,
    ensures
        fd_len(dlc) == seq![0nat, 1, 2, 3, 4, 5, 6, 7, 8, 12, 16, 20, 24, 32, 48, 64][dlc],
{
}

/// The other end sees the frame that was sent, and nothing else: identifier and
/// kind are the same, the payload begins with what was sent and goes on with
/// zeroes, and it is the shortest such that CAN-FD has a length for. A classic or
/// remote frame is as long as it was.
pub proof fn law_other_end_sees_the_payload(frame: FrameView, longer: int)
    requires
        frame.valid(),
    ensures
        ({
            let seen = as_received(frame);
            let lengths = seq![0nat, 1, 2, 3, 4, 5, 6, 7, 8, 12, 16, 20, 24, 32, 48, 64];
            &&& seen.id == frame.id
            &&& seen.kind == frame.kind
            &&& seen.timestamp_us is None
            &&& seen.payload.len() >= frame.payload.len()
            &&& seen.payload.take(frame.payload.len() as int) == frame.payload
            &&& forall|i: int|
                frame.payload.len() <= i < seen.payload.len() ==> #[trigger] seen.payload[i] == 0
            &&& frame.kind is Fd ==> seen.dlc == seen.payload.len() && seen.dlc >= frame.dlc
            &&& frame.kind is Fd && 0 <= longer < 16 && lengths[longer] >= frame.dlc
                ==> lengths[longer] >= seen.dlc
            &&& frame.kind is Fd ==> lengths.contains(seen.dlc)
            &&& frame.kind !is Fd ==> seen.dlc == frame.dlc && seen.payload == frame.payload
        }),
{
    let seen = as_received(frame);
    let lengths = seq![0nat, 1, 2, 3, 4, 5, 6, 7, 8, 12, 16, 20, 24, 32, 48, 64];
    assert(seen.payload.take(frame.payload.len() as int) =~= frame.payload);
    if frame.kind is Fd {
        assert(lengths[fd_dlc(frame.dlc) as int] == seen.dlc);
    }
}

} // verus!
