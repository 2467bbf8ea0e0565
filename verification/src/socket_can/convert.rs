//! Between the frames of this library and those of the `socketcan` crate.

use socketcan::{CanAnyFrame, Id};
use vstd::prelude::*;

use crate::error::CanIoError;
#[allow(unused_imports)]
use crate::fd;
use crate::frame::{CanFrame, CanId, FrameKind, MAX_DLEN};
#[allow(unused_imports)]
use crate::frame::FrameView;
use crate::socket_can::frames;
#[allow(unused_imports)]
use crate::socket_can::frames::Content;
use crate::socket_can::frames::Sorted;

verus! {

/// The length fields of a frame are within its buffer.
pub open spec fn readable(frame: Sorted) -> bool {
    match frame {
        Sorted::Normal(f) => frames::data_held(f).len <= 8,
        Sorted::Fd(f) => frames::fd_held(f).len <= 64,
        Sorted::Remote(_) | Sorted::Error(_) => true,
    }
}

/// The frame that is received when the interface hands over `frame`: none for
/// an error frame, nor for a remote frame that asks for more than 8 bytes.
pub open spec fn received(frame: Sorted) -> Option<FrameView> {
    match frame {
        Sorted::Normal(f) => Some(view_of(frames::data_held(f), FrameKind::Data)),
        Sorted::Fd(f) => {
            let held = frames::fd_held(f);
            Some(view_of(held, FrameKind::Fd { brs: held.brs }))
        },
        Sorted::Remote(f) => {
            let held = frames::remote_held(f);
            if held.len <= 8 {
                Some(
                    FrameView { payload: Seq::empty(), ..view_of(held, FrameKind::Remote) },
                )
            } else {
                None
            }
        },
        Sorted::Error(_) => None,
    }
}

/// What the interface is handed to transmit `frame`.
pub open spec fn carries(link: Sorted, frame: FrameView) -> bool {
    let len = fd::as_received(frame).dlc;
    let held = Content {
        id: frame.id,
        len,
        bytes: fd::as_received(frame).payload,
        brs: frame.kind == (FrameKind::Fd { brs: true }),
    };
    match frame.kind {
        FrameKind::Data => link matches Sorted::Normal(f) && frames::data_held(f) == held,
        FrameKind::Fd { .. } => link matches Sorted::Fd(f) && frames::fd_held(f) == held,
        FrameKind::Remote => link matches Sorted::Remote(f) && frames::remote_held(f) == held,
    }
}

/// A frame of the given kind, with the content of a `socketcan` frame.
pub open spec fn view_of(held: Content, kind: FrameKind) -> FrameView {
    FrameView { id: held.id, kind, dlc: held.len, payload: held.bytes, timestamp_us: None }
}

/// Whether the length field of a frame is within its buffer.
fn is_readable(frame: &CanAnyFrame) -> (yes: bool)
    ensures
        yes == readable(frames::sorted(*frame)),
{
    match frames::sort(frame) {
        Sorted::Normal(f) => frames::data_frame_len(&f) <= 8,
        Sorted::Fd(f) => frames::fd_frame_len(&f) <= MAX_DLEN,
        Sorted::Remote(_) | Sorted::Error(_) => true,
    }
}

/// What a `socketcan` frame says, as far as it matters here.
#[derive(Debug, Clone, Copy)]
pub enum LinkFrame<'a> {
    Normal { id: CanId, data: &'a [u8] },
    Remote { id: CanId, dlc: u8 },
    Error,
    Fd { id: CanId, data: &'a [u8], brs: bool },
}

impl LinkFrame<'_> {
    /// The frame that is received; none for an error frame, nor for one that is
    /// longer than a frame of its kind can be.
    pub open spec fn taken(self) -> Option<FrameView> {
        let frame = match self {
            LinkFrame::Normal { id, data } => Some(link_view(id, FrameKind::Data, data@)),
            LinkFrame::Fd { id, data, brs } => Some(link_view(id, FrameKind::Fd { brs }, data@)),
            LinkFrame::Remote { id, dlc } => Some(
                FrameView {
                    dlc: dlc as nat,
                    ..link_view(id, FrameKind::Remote, Seq::empty())
                },
            ),
            LinkFrame::Error => None,
        };
        match frame {
            Some(frame) if frame.valid() => Some(frame),
            _ => None,
        }
    }
}

/// A frame with the given payload.
pub open spec fn link_view(id: CanId, kind: FrameKind, payload: Seq<u8>) -> FrameView {
    FrameView { id, kind, dlc: payload.len(), payload, timestamp_us: None }
}

/// The frame to deliver for what a `socketcan` frame says.
pub fn take(frame: LinkFrame<'_>) -> (r: Option<CanFrame>)
    ensures
        match frame.taken() {
            Some(view) => r is Some && r->Some_0@ == view,
            None => r is None,
        },
        r is Some <==> match frame {
            LinkFrame::Normal { id, data } => data@.len() <= 8,
            LinkFrame::Fd { id, data, brs } => data@.len() <= 64,
            LinkFrame::Remote { id, dlc } => dlc <= 8,
            LinkFrame::Error => false,
        },
{
    match frame {
        LinkFrame::Normal { id, data } => CanFrame::new_data(id, data).ok(),
        LinkFrame::Fd { id, data, brs } => CanFrame::new_fd(id, data, brs).ok(),
        LinkFrame::Remote { id, dlc } => CanFrame::new_remote(id, dlc).ok(),
        LinkFrame::Error => None,
    }
}

/// The frame that was received, if what the interface handed over is one.
pub fn sc_to_canframe(frame: &CanAnyFrame) -> (r: Option<CanFrame>)
    requires
        readable(frames::sorted(*frame)),
    ensures
        match received(frames::sorted(*frame)) {
            Some(view) => r is Some && r->Some_0@ == view,
            None => r is None,
        },
{
    let id = frames::id_value(frames::frame_id(frame));
    let sorted = frames::sort(frame);
    let said = match &sorted {
        Sorted::Normal(f) => LinkFrame::Normal { id, data: frames::data_frame_bytes(f) },
        Sorted::Fd(f) => LinkFrame::Fd {
            id,
            data: frames::fd_frame_bytes(f),
            brs: frames::is_brs(f),
        },
        Sorted::Remote(f) => LinkFrame::Remote { id, dlc: frames::remote_frame_dlc(f) as u8 },
        Sorted::Error(_) => LinkFrame::Error,
    };
    take(said)
}

/// What the interface handed over.
#[derive(Debug)]
pub enum Reading {
    /// A frame, to be delivered.
    Frame(CanFrame),
    /// Nothing to deliver: an error frame, or a remote frame that asks for too
    /// much.
    Ignored,
    /// The length field is not within the buffer: no kernel hands such a frame
    /// over, and nothing can be read of it.
    Unreadable,
}

/// Takes what the interface handed over, whatever it is.
pub fn read(frame: &CanAnyFrame) -> (r: Reading)
    ensures
        ({
            let link = frames::sorted(*frame);
            &&& r is Unreadable <==> !readable(link)
            &&& r is Ignored <==> readable(link) && received(link) is None
            &&& r matches Reading::Frame(f) ==> received(link) == Some(f@)
        }),
{
    if !is_readable(frame) {
        return Reading::Unreadable;
    }
    match sc_to_canframe(frame) {
        Some(frame) => Reading::Frame(frame),
        None => Reading::Ignored,
    }
}

/// The identifier as the `socketcan` crate has it, or `InvalidId` if it does
/// not fit its width.
fn link_id(id: CanId) -> (r: Result<Id, CanIoError>)
    ensures
        r is Ok == id.in_range(),
        r matches Ok(link) ==> frames::id_held(link) == id,
        r matches Err(error) ==> error is InvalidId,
{
    let link = match id {
        CanId::Standard(raw) => frames::standard_id(raw),
        CanId::Extended(raw) => frames::extended_id(raw),
    };
    match link {
        Some(link) => Ok(link),
        None => Err(CanIoError::InvalidId),
    }
}

/// What to hand to the interface to transmit `frame`, or `InvalidId` if its
/// identifier does not fit its width. It is never an error frame.
pub fn canframe_to_sc(frame: &CanFrame) -> (r: Result<CanAnyFrame, CanIoError>)
    ensures
        r is Ok == frame@.id.in_range(),
        r matches Ok(any) ==> carries(frames::sorted(any), frame@),
        r matches Err(error) ==> error is InvalidId,
{
    let id = match link_id(frame.id()) {
        Ok(id) => id,
        Err(error) => return Err(error),
    };
    let data = frame.data();
    let dlc: usize = frame.dlc();
    match frame.kind() {
        FrameKind::Data => match frames::new_data_frame(id, data) {
            Some(f) => Ok(frames::any_frame(Sorted::Normal(f))),
            None => Err(CanIoError::DataTooLong { got: data.len(), max: 8 }),
        },
        FrameKind::Fd { brs } => match frames::new_fd_frame(id, data) {
            Some(f) => {
                let mut f = f;
                frames::set_brs(&mut f, brs);
                Ok(frames::any_frame(Sorted::Fd(f)))
            },
            None => Err(CanIoError::DataTooLong { got: data.len(), max: MAX_DLEN }),
        },
        FrameKind::Remote => match frames::new_remote_frame(id, dlc) {
            Some(f) => {
                assert(data@ =~= Seq::<u8>::empty());
                Ok(frames::any_frame(Sorted::Remote(f)))
            },
            None => Err(CanIoError::DataTooLong { got: dlc, max: 8 }),
        },
    }
}

/// What one node transmits, another receives, an FD payload filled up with
/// zeroes to the next length that has a code.
pub proof fn law_transmitted_frame_is_received(link: Sorted, frame: FrameView)
    requires
        frame.valid(),
        carries(link, frame),
    ensures
        readable(link),
        received(link) == Some(fd::as_received(frame)),
{
}

/// A data frame of at most 8 bytes, an FD frame of at most 64 and a remote frame
/// that asks for at most 8 are taken with all that they say, each as a frame of
/// its own kind; what is longer is not taken, and an error frame never.
pub proof fn law_frame_is_taken_whole(id: CanId, data: &[u8], brs: bool, dlc: u8)
    ensures
        data@.len() <= 8 ==> (LinkFrame::Normal { id, data }).taken() == Some(
            FrameView {
                id,
                kind: FrameKind::Data,
                dlc: data@.len(),
                payload: data@,
                timestamp_us: None,
            },
        ),
        data@.len() > 8 ==> (LinkFrame::Normal { id, data }).taken() is None,
        data@.len() <= 64 ==> (LinkFrame::Fd { id, data, brs }).taken() == Some(
            FrameView {
                id,
                kind: FrameKind::Fd { brs },
                dlc: data@.len(),
                payload: data@,
                timestamp_us: None,
            },
        ),
        data@.len() > 64 ==> (LinkFrame::Fd { id, data, brs }).taken() is None,
        dlc <= 8 ==> (LinkFrame::Remote { id, dlc }).taken() == Some(
            FrameView {
                id,
                kind: FrameKind::Remote,
                dlc: dlc as nat,
                payload: Seq::empty(),
                timestamp_us: None,
            },
        ),
        dlc > 8 ==> (LinkFrame::Remote { id, dlc }).taken() is None,
        LinkFrame::Error.taken() is None,
{
}

/// What is received off the interface is what the frame there holds, each kind as
/// its own: identifier, length, bytes and, of an FD frame, the bit-rate switch.
pub proof fn law_received_frame_is_what_is_held(link: Sorted)
    ensures
        link matches Sorted::Normal(f) ==> {
            let held = frames::data_held(f);
            &&& readable(link) <==> held.len <= 8
            &&& received(link) == Some(
                FrameView {
                    id: held.id,
                    kind: FrameKind::Data,
                    dlc: held.len,
                    payload: held.bytes,
                    timestamp_us: None,
                },
            )
        },
        link matches Sorted::Fd(f) ==> {
            let held = frames::fd_held(f);
            &&& readable(link) <==> held.len <= 64
            &&& received(link) == Some(
                FrameView {
                    id: held.id,
                    kind: FrameKind::Fd { brs: held.brs },
                    dlc: held.len,
                    payload: held.bytes,
                    timestamp_us: None,
                },
            )
        },
        link matches Sorted::Remote(f) ==> {
            let held = frames::remote_held(f);
            &&& readable(link)
            &&& held.len > 8 ==> received(link) is None
            &&& held.len <= 8 ==> received(link) == Some(
                FrameView {
                    id: held.id,
                    kind: FrameKind::Remote,
                    dlc: held.len,
                    payload: Seq::empty(),
                    timestamp_us: None,
                },
            )
        },
        link is Error ==> readable(link) && received(link) is None,
{
}

/// What is handed to the interface holds the frame: its identifier, its kind, its
/// payload with nothing but zeroes after it, up to the first length that CAN-FD
/// has, and, of an FD frame, its bit-rate switch; a classic frame goes out as long
/// as it is, a remote one with the length that it asks for and no payload.
pub proof fn law_transmitted_frame_is_held(link: Sorted, frame: FrameView, longer: int)
    requires
        frame.valid(),
        carries(link, frame),
    ensures
        link is Normal <==> frame.kind is Data,
        link is Fd <==> frame.kind is Fd,
        link is Remote <==> frame.kind is Remote,
        ({
            let held = match link {
                Sorted::Normal(f) => frames::data_held(f),
                Sorted::Fd(f) => frames::fd_held(f),
                Sorted::Remote(f) => frames::remote_held(f),
                Sorted::Error(_) => arbitrary(),
            };
            &&& held.id == frame.id
            &&& held.brs <==> frame.kind == (FrameKind::Fd { brs: true })
            &&& frame.kind !is Fd ==> held.len == frame.dlc && held.bytes == frame.payload
            &&& frame.kind is Fd ==> held.len == held.bytes.len() && frame.dlc <= held.len <= 64
            &&& frame.kind is Fd && 0 <= longer < 16 ==> {
                let lengths = seq![0nat, 1, 2, 3, 4, 5, 6, 7, 8, 12, 16, 20, 24, 32, 48, 64];
                &&& lengths[longer] >= frame.dlc ==> lengths[longer] >= held.len
                &&& lengths.contains(held.len)
            }
            &&& held.bytes.len() >= frame.payload.len()
            &&& held.bytes.take(frame.payload.len() as int) == frame.payload
            &&& forall|i: int|
                frame.payload.len() <= i < held.bytes.len() ==> #[trigger] held.bytes[i] == 0
        }),
{
    fd::law_other_end_sees_the_payload(frame, longer);
    fd::law_smallest_dlc_that_fits(frame.dlc);
    assert(frame.payload.take(frame.payload.len() as int) =~= frame.payload);
}

} // verus!
