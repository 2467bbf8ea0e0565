//! CAN / CAN-FD frame and identifier types.

use vstd::prelude::*;
use vstd::slice::slice_subrange;

use crate::error::CanIoError;

verus! {

/// Maximum data length for a single CAN-FD frame, in bytes.
pub const MAX_DLEN: usize = 64;

/// 11-bit standard or 29-bit extended CAN identifier.
#[derive(Debug, Clone, Copy, PartialEq, Eq, Hash, Structural)]
pub enum CanId {
    Standard(u16),
    Extended(u32),
}

impl CanId {
    pub const STANDARD_MAX: u16 = 0x7FF;

    pub const EXTENDED_MAX: u32 = 0x1FFF_FFFF;

    /// The identifier as a number, whatever its width.
    pub open spec fn number(self) -> u32 {
        match self {
            CanId::Standard(id) => id as u32,
            CanId::Extended(id) => id,
        }
    }

    /// The identifier fits its width.
    pub open spec fn in_range(self) -> bool {
        match self {
            CanId::Standard(id) => id <= 0x7FF,
            CanId::Extended(id) => id <= 0x1FFF_FFFF,
        }
    }

    pub fn raw(self) -> (number: u32)
        ensures
            number == self.number(),
            self matches CanId::Standard(id) ==> number == id,
            self matches CanId::Extended(id) ==> number == id,
    {
        match self {
            CanId::Standard(id) => id as u32,
            CanId::Extended(id) => id,
        }
    }

    pub fn is_standard(self) -> (yes: bool)
        ensures
            yes == (self is Standard),
    {
        matches!(self, CanId::Standard(_))
    }

    pub fn is_extended(self) -> (yes: bool)
        ensures
            yes == (self is Extended),
    {
        matches!(self, CanId::Extended(_))
    }

    /// A standard identifier, or `InvalidId` if `id` needs more than 11 bits.
    pub fn new_standard(id: u16) -> (r: Result<Self, CanIoError>)
        ensures
            id <= 0x7FF ==> r == Ok::<CanId, CanIoError>(CanId::Standard(id)),
            id > 0x7FF ==> r == Err::<CanId, CanIoError>(CanIoError::InvalidId),
    {
        if id > Self::STANDARD_MAX {
            Err(CanIoError::InvalidId)
        } else {
            Ok(CanId::Standard(id))
        }
    }

    /// An extended identifier, or `InvalidId` if `id` needs more than 29 bits.
    pub fn new_extended(id: u32) -> (r: Result<Self, CanIoError>)
        ensures
            id <= 0x1FFF_FFFF ==> r == Ok::<CanId, CanIoError>(CanId::Extended(id)),
            id > 0x1FFF_FFFF ==> r == Err::<CanId, CanIoError>(CanIoError::InvalidId),
    {
        if id > Self::EXTENDED_MAX {
            Err(CanIoError::InvalidId)
        } else {
            Ok(CanId::Extended(id))
        }
    }
}

impl From<u16> for CanId {
    /// A standard identifier made of the low 11 bits of `id`.
    fn from(id: u16) -> (r: Self) {
        CanId::Standard(id & Self::STANDARD_MAX)
    }
}

impl vstd::std_specs::convert::FromSpecImpl<u16> for CanId {
    open spec fn obeys_from_spec() -> bool {
        true
    }

    open spec fn from_spec(id: u16) -> Self {
        CanId::Standard(id & 0x7FF)
    }
}

/// std's `impl From<T> for T`, documented to return the argument unchanged.
pub assume_specification<V>[ <V as std::convert::From<V>>::from ](v: V) -> (r: V)
    ensures
        r == v,
;

/// Frame classification.
#[derive(Debug, Clone, Copy, PartialEq, Eq, Structural)]
pub enum FrameKind {
    /// Classic CAN data frame (at most 8 bytes).
    Data,
    /// CAN-FD data frame (at most 64 bytes). `brs` toggles the bit-rate switch.
    Fd { brs: bool },
    /// Classic CAN remote transmission request.
    Remote,
}

/// What a frame says: the model that the contracts speak of.
#[verifier::ext_equal]
pub struct FrameView {
    pub id: CanId,
    pub kind: FrameKind,
    /// The data length; of a remote frame, the requested one.
    pub dlc: nat,
    /// The payload bytes; a remote frame has none.
    pub payload: Seq<u8>,
    pub timestamp_us: Option<u64>,
}

impl FrameView {
    /// The longest data length that a frame of this kind has.
    pub open spec fn limit(kind: FrameKind) -> nat {
        match kind {
            FrameKind::Fd { .. } => 64,
            _ => 8,
        }
    }

    pub open spec fn valid(self) -> bool {
        &&& self.dlc <= Self::limit(self.kind)
        &&& self.payload.len() == if self.kind is Remote { 0 } else { self.dlc }
    }

    /// The two frames differ in nothing but the timestamp.
    pub open spec fn same_content(self, other: Self) -> bool {
        &&& self.id == other.id
        &&& self.kind == other.kind
        &&& self.dlc == other.dlc
        &&& self.payload == other.payload
    }
}

/// A CAN / CAN-FD frame.
///
/// Backed by a fixed-size buffer, so the type is `Copy` and allocation-free.
#[derive(Debug, Clone, Copy)]
pub struct CanFrame {
    id: CanId,
    kind: FrameKind,
    len: u8,
    data: [u8; 64],
    timestamp_us: Option<u64>,
}

impl View for CanFrame {
    type V = FrameView;

    closed spec fn view(&self) -> FrameView {
        FrameView {
            id: self.id,
            kind: self.kind,
            dlc: self.len as nat,
            payload: if self.kind is Remote {
                Seq::empty()
            } else {
                self.data@.subrange(0, self.len as int)
            },
            timestamp_us: self.timestamp_us,
        }
    }
}

impl CanFrame {
    /// The data length is within the limit of the frame's kind.
    #[verifier::type_invariant]
    spec fn length_within_limit(self) -> bool {
        self.len <= FrameView::limit(self.kind)
    }

    /// Build a classic CAN data frame (at most 8 bytes).
    pub fn new_data<I: Into<CanId>>(id: I, payload: &[u8]) -> (r: Result<Self, CanIoError>)
        ensures
            payload@.len() <= 8 ==> {
                &&& r is Ok
                &&& call_ensures(I::into, (id,), r->Ok_0@.id)
                &&& r->Ok_0@.kind == FrameKind::Data
                &&& r->Ok_0@.dlc == payload@.len()
                &&& r->Ok_0@.payload == payload@
                &&& r->Ok_0@.timestamp_us is None
            },
            payload@.len() > 8 ==> r == Err::<CanFrame, CanIoError>(
                CanIoError::DataTooLong { got: payload.len(), max: 8 },
            ),
    {
        if payload.len() > 8 {
            return Err(CanIoError::DataTooLong { got: payload.len(), max: 8 });
        }
        Ok(
            Self {
                id: id.into(),
                kind: FrameKind::Data,
                len: payload.len() as u8,
                data: zero_padded(payload),
                timestamp_us: None,
            },
        )
    }

    /// Build a CAN-FD frame (at most 64 bytes).
    pub fn new_fd<I: Into<CanId>>(id: I, payload: &[u8], brs: bool) -> (r: Result<
        Self,
        CanIoError,
    >)
        ensures
            payload@.len() <= 64 ==> {
                &&& r is Ok
                &&& call_ensures(I::into, (id,), r->Ok_0@.id)
                &&& r->Ok_0@.kind == (FrameKind::Fd { brs })
                &&& r->Ok_0@.dlc == payload@.len()
                &&& r->Ok_0@.payload == payload@
                &&& r->Ok_0@.timestamp_us is None
            },
            payload@.len() > 64 ==> r == Err::<CanFrame, CanIoError>(
                CanIoError::DataTooLong { got: payload.len(), max: 64 },
            ),
    {
        if payload.len() > MAX_DLEN {
            return Err(CanIoError::DataTooLong { got: payload.len(), max: MAX_DLEN });
        }
        Ok(
            Self {
                id: id.into(),
                kind: FrameKind::Fd { brs },
                len: payload.len() as u8,
                data: zero_padded(payload),
                timestamp_us: None,
            },
        )
    }

    /// Build a Remote Transmission Request (RTR) frame.
    pub fn new_remote<I: Into<CanId>>(id: I, dlc: u8) -> (r: Result<Self, CanIoError>)
        ensures
            dlc <= 8 ==> {
                &&& r is Ok
                &&& call_ensures(I::into, (id,), r->Ok_0@.id)
                &&& r->Ok_0@.kind == FrameKind::Remote
                &&& r->Ok_0@.dlc == dlc
                &&& r->Ok_0@.payload == Seq::<u8>::empty()
                &&& r->Ok_0@.timestamp_us is None
            },
            dlc > 8 ==> r == Err::<CanFrame, CanIoError>(
                CanIoError::DataTooLong { got: dlc as usize, max: 8 },
            ),
    {
        if dlc > 8 {
            return Err(CanIoError::DataTooLong { got: dlc as usize, max: 8 });
        }
        Ok(
            Self {
                id: id.into(),
                kind: FrameKind::Remote,
                len: dlc,
                data: [0; 64],
                timestamp_us: None,
            },
        )
    }

    pub fn id(&self) -> (id: CanId)
        ensures
            id == self@.id,
    {
        self.id
    }

    pub fn kind(&self) -> (kind: FrameKind)
        ensures
            kind == self@.kind,
    {
        self.kind
    }

    /// Payload bytes (empty for RTR frames).
    pub fn data(&self) -> (data: &[u8])
        ensures
            data@ == self@.payload,
            self@.valid(),
    {
        proof {
            use_type_invariant(self);
        }
        if matches!(self.kind, FrameKind::Remote) {
            slice_subrange(self.data.as_slice(), 0, 0)
        } else {
            slice_subrange(self.data.as_slice(), 0, self.len as usize)
        }
    }

    /// Reported DLC. For RTR this is the requested length.
    pub fn dlc(&self) -> (dlc: usize)
        ensures
            dlc == self@.dlc,
            self@.valid(),
    {
        proof {
            use_type_invariant(self);
        }
        self.len as usize
    }

    pub fn is_fd(&self) -> (yes: bool)
        ensures
            yes == (self@.kind is Fd),
    {
        matches!(self.kind, FrameKind::Fd { .. })
    }

    pub fn is_remote(&self) -> (yes: bool)
        ensures
            yes == (self@.kind is Remote),
    {
        matches!(self.kind, FrameKind::Remote)
    }

    pub fn brs(&self) -> (yes: bool)
        ensures
            yes == (self@.kind == (FrameKind::Fd { brs: true })),
    {
        matches!(self.kind, FrameKind::Fd { brs: true })
    }

    /// Receive timestamp in microseconds, if the backend provided one. The
    /// epoch is the backend's own: only differences are meaningful.
    pub fn timestamp_us(&self) -> (timestamp: Option<u64>)
        ensures
            timestamp == self@.timestamp_us,
    {
        self.timestamp_us
    }

    /// The same frame, received at `timestamp_us`.
    pub fn with_timestamp_us(self, timestamp_us: u64) -> (frame: Self)
        ensures
            frame@ == (FrameView { timestamp_us: Some(timestamp_us), ..self@ }),
    {
        proof {
            use_type_invariant(&self);
        }
        Self {
            id: self.id,
            kind: self.kind,
            len: self.len,
            data: self.data,
            timestamp_us: Some(timestamp_us),
        }
    }
}

/// Frames are equal when their content (id, kind, payload) is: the timestamp
/// is left out, so that a frame equals itself received off the wire.
impl PartialEq for CanFrame {
    fn eq(&self, other: &Self) -> (equal: bool) {
        self.id == other.id && self.kind == other.kind && self.len == other.len && same_bytes(
            self.data(),
            other.data(),
        )
    }
}

impl vstd::std_specs::cmp::PartialEqSpecImpl for CanFrame {
    open spec fn obeys_eq_spec() -> bool {
        true
    }

    open spec fn eq_spec(&self, other: &Self) -> bool {
        self@.same_content(other@)
    }
}

impl Eq for CanFrame {

}

/// The bytes of `payload`, then zeroes.
fn zero_padded(payload: &[u8]) -> (data: [u8; 64])
    requires
        payload@.len() <= 64,
    ensures
        data@.subrange(0, payload@.len() as int) == payload@,
{
    let mut data: [u8; 64] = [0; 64];
    let mut i: usize = 0;
    while i < payload.len()
        invariant
            i <= payload@.len() <= 64,
            data@.subrange(0, i as int) == payload@.subrange(0, i as int),
        decreases payload@.len() - i,
    {
        data[i] = payload[i];
        i += 1;
    }
    data
}

fn same_bytes(a: &[u8], b: &[u8]) -> (same: bool)
    ensures
        same == (a@ == b@),
{
    if a.len() != b.len() {
        return false;
    }
    let mut i: usize = 0;
    while i < a.len()
        invariant
            i <= a@.len() == b@.len(),
            a@.subrange(0, i as int) == b@.subrange(0, i as int),
        decreases a@.len() - i,
    {
        if a[i] != b[i] {
            return false;
        }
        i += 1;
    }
    assert(a@.subrange(0, i as int) =~= a@);
    assert(b@.subrange(0, i as int) =~= b@);
    true
}

/// Stamping a frame changes nothing that equality looks at.
pub proof fn law_timestamp_ignored_by_equality(frame: FrameView, timestamp_us: Option<u64>)
    ensures
        frame.same_content(FrameView { timestamp_us, ..frame }),
{
}

/// Equality of frames is an equivalence.
pub proof fn law_equality_is_an_equivalence(a: FrameView, b: FrameView, c: FrameView)
    ensures
        a.same_content(a),
        a.same_content(b) ==> b.same_content(a),
        a.same_content(b) && b.same_content(c) ==> a.same_content(c),
{
}

/// An identifier fits its width exactly if no bit above the width is set: 11 bits
/// for a standard one, 29 for an extended one.
pub proof fn law_range_is_the_width(standard: u16, extended: u32)
    ensures
        CanId::Standard(standard).in_range() <==> standard >> 11 == 0,
        CanId::Extended(extended).in_range() <==> extended >> 29 == 0,
        CanId::Standard(standard).number() == standard,
        CanId::Extended(extended).number() == extended,
        CanId::STANDARD_MAX == 0x7FF,
        CanId::EXTENDED_MAX == 0x1FFF_FFFF,
{
    assert((standard >> 11 == 0) == (standard <= 0x7FF) && (extended >> 29 == 0) == (extended
        <= 0x1FFF_FFFF)) by (bit_vector);
}

/// A number becomes the standard identifier of its low 11 bits, which is in range,
/// and is the number itself if that is.
pub proof fn law_number_becomes_its_low_bits(id: u16)
    ensures
        <CanId as vstd::std_specs::convert::FromSpec<u16>>::from_spec(id) == CanId::Standard(
            (id % 0x800) as u16,
        ),
        <CanId as vstd::std_specs::convert::FromSpec<u16>>::from_spec(id).in_range(),
{
    assert(id & 0x7FF == id % 0x800) by (bit_vector);
}

/// What makes a frame valid: at most 8 bytes, or 64 in an FD frame; the payload is
/// as long as the length says, and a remote frame has none.
pub proof fn law_valid_lengths(frame: FrameView)
    ensures
        frame.valid() <==> match frame.kind {
            FrameKind::Data => frame.dlc <= 8 && frame.payload.len() == frame.dlc,
            FrameKind::Fd { .. } => frame.dlc <= 64 && frame.payload.len() == frame.dlc,
            FrameKind::Remote => frame.dlc <= 8 && frame.payload.len() == 0,
        },
{
}

/// Two frames are equal exactly if nothing tells them apart once their timestamps
/// are taken away.
pub proof fn law_equality_is_of_all_but_the_timestamp(a: CanFrame, b: CanFrame)
    ensures
        vstd::std_specs::cmp::PartialEqSpec::eq_spec(&a, &b) <==> (FrameView {
            timestamp_us: None,
            ..a@
        }) == (FrameView { timestamp_us: None, ..b@ }),
        a@.same_content(b@) <==> (FrameView { timestamp_us: b@.timestamp_us, ..a@ }) == b@,
{
}

} // verus!
