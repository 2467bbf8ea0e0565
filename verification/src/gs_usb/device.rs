//! Which of the connected USB devices to open.

use vstd::prelude::*;

use crate::error::CanIoError;

verus! {

/// USB VID/PID pairs known to speak the gs_usb protocol: generic candleLight
/// (bytewerk.org), Geschwister Schneider / candleLight, and an older one of
/// theirs.
pub const KNOWN_IDS: [(u16, u16); 3] = [(0x1209, 0x2323), (0x1d50, 0x606f), (0x1d50, 0x600f)];

/// The first of `devices`, given by VID and PID, that is one of `wanted`: its
/// index, or `Disconnected` if there is none.
pub open spec fn selects(
    devices: Seq<(u16, u16)>,
    wanted: Seq<(u16, u16)>,
    r: Result<usize, CanIoError>,
) -> bool {
    match r {
        Ok(index) => {
            &&& index < devices.len()
            &&& wanted.contains(devices[index as int])
            &&& forall|k: int| 0 <= k < index ==> !wanted.contains(#[trigger] devices[k])
        },
        Err(error) => {
            &&& error is Disconnected
            &&& forall|k: int| 0 <= k < devices.len() ==> !wanted.contains(#[trigger] devices[k])
        },
    }
}

fn is_one_of(id: (u16, u16), wanted: &[(u16, u16)]) -> (yes: bool)
    ensures
        yes == wanted@.contains(id),
{
    let mut i: usize = 0;
    while i < wanted.len()
        invariant
            i <= wanted@.len(),
            forall|k: int| 0 <= k < i ==> wanted@[k] != id,
        decreases wanted@.len() - i,
    {
        if wanted[i].0 == id.0 && wanted[i].1 == id.1 {
            return true;
        }
        i += 1;
    }
    false
}

fn select(devices: &[(u16, u16)], wanted: &[(u16, u16)]) -> (r: Result<usize, CanIoError>)
    ensures
        selects(devices@, wanted@, r),
{
    let mut i: usize = 0;
    while i < devices.len()
        invariant
            i <= devices@.len(),
            forall|k: int| 0 <= k < i ==> !wanted@.contains(#[trigger] devices@[k]),
        decreases devices@.len() - i,
    {
        if is_one_of(devices[i], wanted) {
            return Ok(i);
        }
        i += 1;
    }
    Err(CanIoError::Disconnected)
}

/// The first connected device matching one of [`KNOWN_IDS`].
pub fn select_known(devices: &[(u16, u16)]) -> (r: Result<usize, CanIoError>)
    ensures
        selects(devices@, KNOWN_IDS@, r),
{
    select(devices, KNOWN_IDS.as_slice())
}

/// The first connected device with the given USB vendor/product id.
pub fn select_vid_pid(devices: &[(u16, u16)], vid: u16, pid: u16) -> (r: Result<
    usize,
    CanIoError,
>)
    ensures
        selects(devices@, seq![(vid, pid)], r),
{
    let wanted: [(u16, u16); 1] = [(vid, pid)];
    let r = select(devices, wanted.as_slice());
    assert(wanted@ =~= seq![(vid, pid)]);
    r
}

/// One device after the other: a first device that is wanted is selected, and one
/// that is not is passed over for what would be selected without it. Of no
/// devices, none is.
pub proof fn law_first_wanted_device_is_selected(
    first: (u16, u16),
    rest: Seq<(u16, u16)>,
    wanted: Seq<(u16, u16)>,
    index: usize,
)
    requires
        index < usize::MAX,
    ensures
        selects(Seq::empty(), wanted, Err(CanIoError::Disconnected)),
        wanted.contains(first) ==> selects(seq![first] + rest, wanted, Ok(0)),
        !wanted.contains(first) && selects(rest, wanted, Ok(index)) ==> selects(
            seq![first] + rest,
            wanted,
            Ok((index + 1) as usize),
        ),
        !wanted.contains(first) && selects(rest, wanted, Err(CanIoError::Disconnected)) ==> selects(
            seq![first] + rest,
            wanted,
            Err(CanIoError::Disconnected),
        ),
{
    let all = seq![first] + rest;
    assert(all[0] == first);
    assert(forall|k: int| 0 < k < all.len() ==> all[k] == rest[k - 1]);
}

/// There is but one answer, and it is no device that was not wanted.
pub proof fn law_selection_is_unique(
    devices: Seq<(u16, u16)>,
    wanted: Seq<(u16, u16)>,
    a: Result<usize, CanIoError>,
    b: Result<usize, CanIoError>,
)
    requires
        selects(devices, wanted, a),
        selects(devices, wanted, b),
    ensures
        a == b,
        a matches Ok(index) ==> index < devices.len() && wanted.contains(devices[index as int]),
        a is Err ==> a == Err::<usize, CanIoError>(CanIoError::Disconnected),
{
}

/// The devices that are known.
pub proof fn law_known_devices(id: (u16, u16))
    ensures
        KNOWN_IDS@.contains(id) <==> id == (0x1209u16, 0x2323u16) || id == (0x1d50u16, 0x606fu16)
            || id == (0x1d50u16, 0x600fu16),
{
    assert(KNOWN_IDS@[0] == (0x1209u16, 0x2323u16));
    assert(KNOWN_IDS@[1] == (0x1d50u16, 0x606fu16));
    assert(KNOWN_IDS@[2] == (0x1d50u16, 0x600fu16));
}

} // verus!
