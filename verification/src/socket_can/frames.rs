//! The frames of the `socketcan` crate, as far as this library uses them.
//!
//! Every wrapper here makes one call into that crate (or into `embedded-can`,
//! which it re-exports). What the frames hold is named by [`id_held`],
//! [`data_held`], [`remote_held`], [`fd_held`] and [`sorted`].

use socketcan::{
    CanAnyFrame, CanDataFrame, CanErrorFrame, CanFdFrame, CanRemoteFrame, EmbeddedFrame,
    ExtendedId, Frame, Id, StandardId,
};
use vstd::prelude::*;

#[allow(unused_imports)]
use crate::fd;
use crate::frame::CanId;

verus! {

/// `embedded-can`'s `Id`.
#[verifier::external_type_specification]
#[verifier::external_body]
pub struct ExId(Id);

/// `socketcan`'s `CanAnyFrame`.
#[verifier::external_type_specification]
#[verifier::external_body]
pub struct ExCanAnyFrame(CanAnyFrame);

/// `socketcan`'s `CanDataFrame`.
#[verifier::external_type_specification]
#[verifier::external_body]
pub struct ExCanDataFrame(CanDataFrame);

/// `socketcan`'s `CanRemoteFrame`.
#[verifier::external_type_specification]
#[verifier::external_body]
pub struct ExCanRemoteFrame(CanRemoteFrame);

/// `socketcan`'s `CanErrorFrame`.
#[verifier::external_type_specification]
#[verifier::external_body]
pub struct ExCanErrorFrame(CanErrorFrame);

/// `socketcan`'s `CanFdFrame`.
#[verifier::external_type_specification]
#[verifier::external_body]
pub struct ExCanFdFrame(CanFdFrame);

/// What a `socketcan` frame holds.
#[verifier::ext_equal]
pub struct Content {
    pub id: CanId,
    /// The length field; of a remote frame, the requested length.
    pub len: nat,
    /// The payload, as far as the length field is within the buffer.
    pub bytes: Seq<u8>,
    /// The bit-rate switch; off where the frame has none.
    pub brs: bool,
}

/// A `CanAnyFrame`, by its kind.
pub enum Sorted {
    Normal(CanDataFrame),
    Remote(CanRemoteFrame),
    Error(CanErrorFrame),
    Fd(CanFdFrame),
}

/// The identifier that an `Id` stands for.
pub uninterp spec fn id_held(id: Id) -> CanId;

/// What a data frame holds.
pub uninterp spec fn data_held(frame: CanDataFrame) -> Content;

/// What a remote frame holds.
pub uninterp spec fn remote_held(frame: CanRemoteFrame) -> Content;

/// What an FD frame holds.
pub uninterp spec fn fd_held(frame: CanFdFrame) -> Content;

/// The kind of a frame, and the frame itself as one of that kind.
pub uninterp spec fn sorted(frame: CanAnyFrame) -> Sorted;

/// `StandardId::new`, as an `Id`: there is one for every number of 11 bits, and
/// for no other.
#[verifier::external_body]
pub(crate) fn standard_id(raw: u16) -> (r: Option<Id>)
    ensures
        r is Some == (raw <= 0x7FF),
        r matches Some(id) ==> id_held(id) == CanId::Standard(raw),
{
    StandardId::new(raw).map(Id::Standard)
}

/// `ExtendedId::new`, as an `Id`: there is one for every number of 29 bits, and
/// for no other.
#[verifier::external_body]
pub(crate) fn extended_id(raw: u32) -> (r: Option<Id>)
    ensures
        r is Some == (raw <= 0x1FFF_FFFF),
        r matches Some(id) ==> id_held(id) == CanId::Extended(raw),
{
    ExtendedId::new(raw).map(Id::Extended)
}

/// `StandardId::as_raw` and `ExtendedId::as_raw`: the number of an `Id`, with
/// its width.
#[verifier::external_body]
pub(crate) fn id_value(id: Id) -> (r: CanId)
    ensures
        r == id_held(id),
{
    match id {
        Id::Standard(id) => CanId::Standard(id.as_raw()),
        Id::Extended(id) => CanId::Extended(id.as_raw()),
    }
}

/// The variants of `CanAnyFrame`, told apart.
#[verifier::external_body]
pub(crate) fn sort(frame: &CanAnyFrame) -> (r: Sorted)
    ensures
        r == sorted(*frame),
{
    match *frame {
        CanAnyFrame::Normal(frame) => Sorted::Normal(frame),
        CanAnyFrame::Remote(frame) => Sorted::Remote(frame),
        CanAnyFrame::Error(frame) => Sorted::Error(frame),
        CanAnyFrame::Fd(frame) => Sorted::Fd(frame),
    }
}

/// The variants of `CanAnyFrame`, put together.
#[verifier::external_body]
pub(crate) fn any_frame(frame: Sorted) -> (r: CanAnyFrame)
    ensures
        sorted(r) == frame,
{
    match frame {
        Sorted::Normal(frame) => CanAnyFrame::Normal(frame),
        Sorted::Remote(frame) => CanAnyFrame::Remote(frame),
        Sorted::Error(frame) => CanAnyFrame::Error(frame),
        Sorted::Fd(frame) => CanAnyFrame::Fd(frame),
    }
}

/// `CanAnyFrame::id`: the identifier of the frame, whatever its kind. It always
/// fits its width, since the identifier word is masked to it. Nothing more is
/// said of the identifier of an error frame.
#[verifier::external_body]
pub(crate) fn frame_id(frame: &CanAnyFrame) -> (r: Id)
    ensures
        id_held(r).in_range(),
        match sorted(*frame) {
            Sorted::Normal(f) => id_held(r) == data_held(f).id,
            Sorted::Remote(f) => id_held(r) == remote_held(f).id,
            Sorted::Fd(f) => id_held(r) == fd_held(f).id,
            Sorted::Error(_) => id_held(r).in_range(),
        },
{
    frame.id()
}

/// `CanDataFrame::new`: there is a frame for every payload of at most 8 bytes.
/// It holds the identifier and the payload.
#[verifier::external_body]
pub(crate) fn new_data_frame(id: Id, data: &[u8]) -> (r: Option<CanDataFrame>)
    requires
        id_held(id).in_range(),
    ensures
        r is Some == (data@.len() <= 8),
        r matches Some(frame) ==> data_held(frame) == (Content {
            id: id_held(id),
            len: data@.len(),
            bytes: data@,
            brs: false,
        }),
{
    CanDataFrame::new(id, data)
}

/// `CanDataFrame::dlc`: the length field, one byte.
#[verifier::external_body]
pub(crate) fn data_frame_len(frame: &CanDataFrame) -> (len: usize)
    ensures
        len == data_held(*frame).len,
        len <= 255,
{
    frame.dlc()
}

/// `CanDataFrame::data`: the payload, as long as the length field says. The
/// call panics where that is more than the buffer of 8 bytes holds.
#[verifier::external_body]
pub(crate) fn data_frame_bytes(frame: &CanDataFrame) -> (bytes: &[u8])
    requires
        data_held(*frame).len <= 8,
    ensures
        bytes@ == data_held(*frame).bytes,
        bytes@.len() == data_held(*frame).len,
{
    frame.data()
}

/// `CanFdFrame::new`: there is a frame for every payload of at most 64 bytes.
/// It holds the identifier and the payload, filled up with zeroes to the next
/// length that CAN-FD has a code for. The bit-rate switch is off.
#[verifier::external_body]
pub(crate) fn new_fd_frame(id: Id, data: &[u8]) -> (r: Option<CanFdFrame>)
    requires
        id_held(id).in_range(),
    ensures
        r is Some == (data@.len() <= 64),
        r matches Some(frame) ==> ({
            let len = fd::fd_len(fd::fd_dlc(data@.len()) as int);
            fd_held(frame) == (Content {
                id: id_held(id),
                len,
                bytes: data@ + Seq::new((len - data@.len()) as nat, |i: int| 0u8),
                brs: false,
            })
        }),
{
    CanFdFrame::new(id, data)
}

/// `CanFdFrame::set_brs`: sets the bit-rate switch, and nothing else.
#[verifier::external_body]
pub(crate) fn set_brs(frame: &mut CanFdFrame, on: bool)
    ensures
        fd_held(*final(frame)) == (Content { brs: on, ..fd_held(*old(frame)) }),
{
    frame.set_brs(on)
}

/// `CanFdFrame::is_brs`: the bit-rate switch.
#[verifier::external_body]
pub(crate) fn is_brs(frame: &CanFdFrame) -> (on: bool)
    ensures
        on == fd_held(*frame).brs,
{
    frame.is_brs()
}

/// `Frame::len` of a `CanFdFrame`: the length field, one byte.
#[verifier::external_body]
pub(crate) fn fd_frame_len(frame: &CanFdFrame) -> (len: usize)
    ensures
        len == fd_held(*frame).len,
        len <= 255,
{
    frame.len()
}

/// `CanFdFrame::data`: the payload, as long as the length field says. The call
/// panics where that is more than the buffer of 64 bytes holds.
#[verifier::external_body]
pub(crate) fn fd_frame_bytes(frame: &CanFdFrame) -> (bytes: &[u8])
    requires
        fd_held(*frame).len <= 64,
    ensures
        bytes@ == fd_held(*frame).bytes,
        bytes@.len() == fd_held(*frame).len,
{
    frame.data()
}

/// `CanRemoteFrame::new_remote`: there is a frame for every requested length of
/// at most 8. It holds the identifier and that length, and no payload.
#[verifier::external_body]
pub(crate) fn new_remote_frame(id: Id, dlc: usize) -> (r: Option<CanRemoteFrame>)
    requires
        id_held(id).in_range(),
    ensures
        r is Some == (dlc <= 8),
        r matches Some(frame) ==> remote_held(frame) == (Content {
            id: id_held(id),
            len: dlc as nat,
            bytes: Seq::empty(),
            brs: false,
        }),
{
    CanRemoteFrame::new_remote(id, dlc)
}

/// `CanRemoteFrame::dlc`: the requested length, one byte.
#[verifier::external_body]
pub(crate) fn remote_frame_dlc(frame: &CanRemoteFrame) -> (dlc: usize)
    ensures
        dlc == remote_held(*frame).len,
        dlc <= 255,
{
    frame.dlc()
}

} // verus!
