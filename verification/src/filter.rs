//! Frame filtering used by subscriptions.

use vstd::prelude::*;

use crate::frame::{CanFrame, CanId};

verus! {

/// A bit-mask filter, applied to incoming frames before they are
/// delivered to a subscriber.
///
/// A frame `f` matches the filter iff
/// `(f.id().raw() & mask) == (id & mask)` *and* the frame's id width
/// (standard / extended) matches `extended`.
#[derive(Debug, Clone, Copy, PartialEq, Eq, Structural)]
pub struct CanFilter {
    pub id: u32,
    pub mask: u32,
    pub extended: bool,
}

impl CanFilter {
    /// The frames of identifier `id` pass.
    pub open spec fn accepts(self, id: CanId) -> bool {
        &&& self.extended == (id is Extended)
        &&& id.number() & self.mask == self.id & self.mask
    }

    /// Match a single standard frame id exactly.
    pub fn exact_standard(id: u16) -> (filter: Self)
        ensures
            filter == (CanFilter { id: id as u32, mask: 0x7FF, extended: false }),
    {
        Self { id: id as u32, mask: 0x7FF, extended: false }
    }

    /// Match a single extended frame id exactly.
    pub fn exact_extended(id: u32) -> (filter: Self)
        ensures
            filter == (CanFilter { id, mask: 0x1FFF_FFFF, extended: true }),
    {
        Self { id, mask: 0x1FFF_FFFF, extended: true }
    }

    /// Bit-mask filter on standard frames.
    pub fn standard(id: u16, mask: u16) -> (filter: Self)
        ensures
            filter == (CanFilter { id: id as u32, mask: mask as u32, extended: false }),
    {
        Self { id: id as u32, mask: mask as u32, extended: false }
    }

    /// Bit-mask filter on extended frames.
    pub fn extended(id: u32, mask: u32) -> (filter: Self)
        ensures
            filter == (CanFilter { id, mask, extended: true }),
    {
        Self { id, mask, extended: true }
    }

    /// Pass-all (standard frames only).
    pub fn pass_all_standard() -> (filter: Self)
        ensures
            filter == (CanFilter { id: 0, mask: 0, extended: false }),
    {
        Self { id: 0, mask: 0, extended: false }
    }

    /// Pass-all (extended frames only).
    pub fn pass_all_extended() -> (filter: Self)
        ensures
            filter == (CanFilter { id: 0, mask: 0, extended: true }),
    {
        Self { id: 0, mask: 0, extended: true }
    }

    pub fn matches(&self, frame: &CanFrame) -> (yes: bool)
        ensures
            yes == self.accepts(frame@.id),
            yes == match frame@.id {
                CanId::Standard(id) => !self.extended && id as u32 & self.mask == self.id
                    & self.mask,
                CanId::Extended(id) => self.extended && id & self.mask == self.id & self.mask,
            },
    {
        match (frame.id(), self.extended) {
            (CanId::Standard(id), false) => (id as u32 & self.mask) == (self.id & self.mask),
            (CanId::Extended(id), true) => (id & self.mask) == (self.id & self.mask),
            _ => false,
        }
    }
}

/// A frame passes exactly when no masked bit of its identifier differs from the
/// filter's, and the widths agree.
pub proof fn law_no_masked_bit_differs(filter: CanFilter, standard: u16, extended: u32)
    ensures
        filter.accepts(CanId::Standard(standard)) <==> !filter.extended && (standard as u32
            ^ filter.id) & filter.mask == 0,
        filter.accepts(CanId::Extended(extended)) <==> filter.extended && (extended ^ filter.id)
            & filter.mask == 0,
{
    let (wanted, mask, short) = (filter.id, filter.mask, standard as u32);
    assert(((short ^ wanted) & mask == 0 <==> short & mask == wanted & mask) && ((extended ^ wanted)
        & mask == 0 <==> extended & mask == wanted & mask)) by (bit_vector);
}

/// Two identifiers that a filter passes agree on every masked bit; and one that
/// differs in a single masked bit from one that passes is refused.
pub proof fn law_passed_ids_agree_on_every_masked_bit(
    filter: CanFilter,
    a: u32,
    b: u32,
    bit: u32,
)
    requires
        filter.extended,
        filter.accepts(CanId::Extended(a)),
        bit < 32,
        filter.mask & (1u32 << bit) != 0,
    ensures
        filter.accepts(CanId::Extended(b)) ==> a & (1u32 << bit) == b & (1u32 << bit),
        !filter.accepts(CanId::Extended(a ^ (1u32 << bit))),
{
    let (wanted, mask) = (filter.id, filter.mask);
    assert(bit < 32 && mask & (1u32 << bit) != 0 && a & mask == wanted & mask ==> (a ^ (1u32
        << bit)) & mask != wanted & mask && (b & mask == wanted & mask ==> a & (1u32 << bit) == b
        & (1u32 << bit))) by (bit_vector);
}

/// The filter made by `exact_standard` passes one identifier that is in range,
/// namely the standard one of the low 11 bits asked for.
pub proof fn law_exact_standard_matches_one_id(wanted: u16, id: CanId)
    requires
        id.in_range(),
    ensures
        (CanFilter { id: wanted as u32, mask: 0x7FF, extended: false }).accepts(id) <==> id
            == CanId::Standard(wanted & 0x7FF),
        wanted <= 0x7FF ==> wanted & 0x7FF == wanted,
{
    assert(wanted <= 0x7FF ==> wanted & 0x7FF == wanted) by (bit_vector);
    if let CanId::Standard(n) = id {
        assert(n <= 0x7FF ==> ((n as u32 & 0x7FF == wanted as u32 & 0x7FF) <==> n == wanted
            & 0x7FF)) by (bit_vector);
    }
}

/// The filter made by `exact_extended` passes one identifier that is in range,
/// namely the extended one of the low 29 bits asked for.
pub proof fn law_exact_extended_matches_one_id(wanted: u32, id: CanId)
    requires
        id.in_range(),
    ensures
        (CanFilter { id: wanted, mask: 0x1FFF_FFFF, extended: true }).accepts(id) <==> id
            == CanId::Extended(wanted & 0x1FFF_FFFF),
        wanted <= 0x1FFF_FFFF ==> wanted & 0x1FFF_FFFF == wanted,
{
    assert(wanted <= 0x1FFF_FFFF ==> wanted & 0x1FFF_FFFF == wanted) by (bit_vector);
    if let CanId::Extended(n) = id {
        assert(n <= 0x1FFF_FFFF ==> ((n & 0x1FFF_FFFF == wanted & 0x1FFF_FFFF) <==> n == wanted
            & 0x1FFF_FFFF)) by (bit_vector);
    }
}

/// A zero mask passes every identifier of the filter's width, and no other.
pub proof fn law_zero_mask_passes_the_width(filter: CanFilter, id: CanId)
    requires
        filter.mask == 0,
    ensures
        filter.accepts(id) <==> filter.extended == (id is Extended),
{
    let n = id.number();
    let wanted = filter.id;
    assert(n & 0 == wanted & 0) by (bit_vector);
}

/// What a filter decides rests on the width and the masked bits alone: two
/// identifiers that agree there are passed together or refused together.
pub proof fn law_only_masked_bits_count(filter: CanFilter, a: CanId, b: CanId)
    requires
        (a is Extended) == (b is Extended),
        a.number() & filter.mask == b.number() & filter.mask,
    ensures
        filter.accepts(a) == filter.accepts(b),
{
}

} // verus!
