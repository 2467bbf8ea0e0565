//! Reading: what becomes of each transfer off the bulk-IN endpoint.

use vstd::prelude::*;

use crate::frame::CanFrame;
#[allow(unused_imports)]
use crate::frame::FrameView;
use crate::gs_usb::clock;
use crate::gs_usb::host_frame;
use crate::gs_usb::link::GsUsbBus;

verus! {

/// Size of a read: one USB max packet of a high-speed device, which holds any
/// single frame.
pub const READ_LEN: usize = 512;

/// How many reads are kept in flight, to not drop frames between them.
pub const IN_FLIGHT: usize = 8;

/// The model of a [`Reader`].
pub struct ReaderView {
    pub channel: u8,
    pub hw_ts: bool,
    /// The last counter value that a frame carried.
    pub last: u32,
    /// How often the counter has wrapped, times 2^32.
    pub epoch: int,
}

impl ReaderView {
    /// The unwrapped time of the last stamped frame.
    pub open spec fn time(self) -> int {
        self.epoch + self.last
    }

    /// The counter value that comes with the frame in `bytes`.
    pub open spec fn counter(self, bytes: Seq<u8>) -> Option<u32> {
        if self.hw_ts && host_frame::host_frame(bytes, self.channel) is Some {
            host_frame::host_timestamp(bytes)
        } else {
            None
        }
    }

    /// The unwrapped time after `bytes` fits in 64 bits.
    pub open spec fn has_room(self, bytes: Seq<u8>) -> bool {
        self.counter(bytes) matches Some(raw) && raw < self.last ==> self.epoch
            < 0xFFFF_FFFF_0000_0000
    }

    /// The frame to deliver for `bytes`: the one they hold, with the unwrapped
    /// time of the counter that came with it.
    pub open spec fn delivered(self, bytes: Seq<u8>) -> Option<FrameView> {
        match host_frame::host_frame(bytes, self.channel) {
            Some(frame) => match self.counter(bytes) {
                Some(raw) => Some(
                    FrameView {
                        timestamp_us: Some(
                            clock::unwrapped(self.time(), self.last, raw) as u64,
                        ),
                        ..frame
                    },
                ),
                None => Some(frame),
            },
            None => None,
        }
    }

    /// The reader after `bytes`.
    pub open spec fn after(self, bytes: Seq<u8>) -> ReaderView {
        match self.counter(bytes) {
            Some(raw) => ReaderView {
                last: raw,
                epoch: clock::unwrapped(self.time(), self.last, raw) - raw,
                ..self
            },
            None => self,
        }
    }
}

/// What to do after a transfer.
#[derive(Debug)]
pub enum Step {
    /// Deliver the frame, if there is one, and submit the next read.
    Continue(Option<CanFrame>),
    /// Stop: the transfer was cancelled, or the device went away.
    Exit,
}

/// The reading side of a channel.
#[derive(Debug)]
pub struct Reader {
    channel: u8,
    hw_ts: bool,
    ts_last: u32,
    ts_epoch: u64,
}

impl View for Reader {
    type V = ReaderView;

    closed spec fn view(&self) -> ReaderView {
        ReaderView {
            channel: self.channel,
            hw_ts: self.hw_ts,
            last: self.ts_last,
            epoch: self.ts_epoch as int,
        }
    }
}

impl Reader {
    #[verifier::type_invariant]
    spec fn epoch_is_whole(self) -> bool {
        self.ts_epoch as int % 0x1_0000_0000 == 0
    }

    /// A reader for a channel. On the wire a channel is one byte.
    pub fn new(bus: &GsUsbBus) -> (reader: Self)
        ensures
            reader@ == (ReaderView {
                channel: (bus@.channel % 0x100) as u8,
                hw_ts: bus@.hw_ts,
                last: 0,
                epoch: 0,
            }),
    {
        Reader {
            channel: (bus.channel() % 0x100) as u8,
            hw_ts: bus.hw_timestamps_active(),
            ts_last: 0,
            ts_epoch: 0,
        }
    }

    /// The unwrapped time after `bytes` fits in 64 bits: it does for half a
    /// million years.
    pub fn has_room(&self, bytes: &[u8]) -> (yes: bool)
        ensures
            yes == self@.has_room(bytes@),
    {
        if self.ts_epoch < 0xFFFF_FFFF_0000_0000 {
            return true;
        }
        match host_frame::parse_host_frame(bytes, self.channel, self.hw_ts) {
            Some((_, Some(raw))) => raw >= self.ts_last,
            _ => true,
        }
    }

    /// Takes a transfer that has completed: its bytes, or `None` if it failed.
    pub fn complete(&mut self, transfer: Option<&[u8]>) -> (step: Step)
        requires
            transfer matches Some(bytes) ==> old(self)@.has_room(bytes@),
        ensures
            match transfer {
                Some(bytes) => {
                    &&& step is Continue
                    &&& step->Continue_0 is Some <==> old(self)@.delivered(bytes@) is Some
                    &&& step->Continue_0 matches Some(frame) ==> Some(frame@) == old(
                        self,
                    )@.delivered(bytes@)
                    &&& final(self)@ == old(self)@.after(bytes@)
                },
                None => step is Exit && final(self)@ == old(self)@,
            },
            final(self)@.sound(),
    {
        proof {
            use_type_invariant(&*self);
        }
        let bytes = match transfer {
            Some(bytes) => bytes,
            None => return Step::Exit,
        };
        let parsed = host_frame::parse_host_frame(bytes, self.channel, self.hw_ts);
        match parsed {
            Some((frame, Some(raw))) => {
                let mut ts_last = self.ts_last;
                let mut ts_epoch = self.ts_epoch;
                let ts = clock::unwrap_ts(&mut ts_last, &mut ts_epoch, raw);
                *self = Reader { channel: self.channel, hw_ts: self.hw_ts, ts_last, ts_epoch };
                Step::Continue(Some(frame.with_timestamp_us(ts)))
            },
            Some((frame, None)) => Step::Continue(Some(frame)),
            None => Step::Continue(None),
        }
    }
}

/// Time as the frames tell it never goes back: a stamped frame is not earlier
/// than the one before it, and is as much later as the counter has run.
pub proof fn law_delivered_time_is_monotonic(reader: ReaderView, bytes: Seq<u8>)
    requires
        reader.counter(bytes) is Some,
    ensures
        reader.after(bytes).time() >= reader.time(),
        reader.after(bytes).time() - reader.time() == (reader.counter(bytes)->0 - reader.last)
            % 0x1_0000_0000,
        reader.epoch >= 0 && reader.after(bytes).time() <= u64::MAX ==> reader.delivered(
            bytes,
        )->0.timestamp_us == Some(reader.after(bytes).time() as u64),
{
}

/// What is not delivered (an echo, another channel's frame, an error frame, a
/// runt) leaves the clock as it was.
pub proof fn law_skipped_transfer_changes_nothing(reader: ReaderView, bytes: Seq<u8>)
    requires
        reader.delivered(bytes) is None,
    ensures
        reader.after(bytes) == reader,
{
}

/// What a run of transfers holds for a listener on `channel`, in its order: the
/// frames, each with the counter that came with it, up to the first transfer
/// that failed (`None`).
pub open spec fn parsed_all(
    transfers: Seq<Option<Seq<u8>>>,
    channel: u8,
    hw_ts: bool,
) -> Seq<(FrameView, Option<u32>)>
    decreases transfers.len(),
{
    if transfers.len() == 0 {
        Seq::empty()
    } else {
        match transfers[0] {
            Some(bytes) => {
                let rest = parsed_all(transfers.drop_first(), channel, hw_ts);
                match host_frame::host_frame(bytes, channel) {
                    Some(frame) => seq![
                        (
                            frame,
                            if hw_ts {
                                host_frame::host_timestamp(bytes)
                            } else {
                                None
                            },
                        ),
                    ] + rest,
                    None => rest,
                }
            },
            None => Seq::empty(),
        }
    }
}

/// The frames, those with a counter stamped with the unwrapped time: the counter
/// was `last`, and the time `time`, before them.
pub open spec fn stamped_all(
    parsed: Seq<(FrameView, Option<u32>)>,
    time: int,
    last: u32,
) -> Seq<FrameView>
    decreases parsed.len(),
{
    if parsed.len() == 0 {
        Seq::empty()
    } else {
        let (frame, counter) = parsed[0];
        match counter {
            Some(raw) => {
                let now = clock::unwrapped(time, last, raw);
                seq![FrameView { timestamp_us: Some(now as u64), ..frame }] + stamped_all(
                    parsed.drop_first(),
                    now,
                    raw,
                )
            },
            None => seq![frame] + stamped_all(parsed.drop_first(), time, last),
        }
    }
}

impl ReaderView {
    /// The frames that are delivered over a run of transfers, up to the first
    /// one that failed.
    pub open spec fn delivered_all(self, transfers: Seq<Option<Seq<u8>>>) -> Seq<FrameView>
        decreases transfers.len(),
    {
        if transfers.len() == 0 {
            Seq::empty()
        } else {
            match transfers[0] {
                Some(bytes) => {
                    let rest = self.after(bytes).delivered_all(transfers.drop_first());
                    match self.delivered(bytes) {
                        Some(frame) => seq![frame] + rest,
                        None => rest,
                    }
                },
                None => Seq::empty(),
            }
        }
    }

    /// The unwrapped time fits in 64 bits over the whole run.
    pub open spec fn has_room_for_all(self, transfers: Seq<Option<Seq<u8>>>) -> bool
        decreases transfers.len(),
    {
        transfers.len() > 0 ==> match transfers[0] {
            Some(bytes) => self.has_room(bytes) && self.after(bytes).has_room_for_all(
                transfers.drop_first(),
            ),
            None => true,
        }
    }

    /// The counter has wrapped a whole number of times, and the time fits in 64
    /// bits.
    pub open spec fn sound(self) -> bool {
        &&& 0 <= self.epoch <= 0xFFFF_FFFF_0000_0000
        &&& self.epoch % 0x1_0000_0000 == 0
    }
}

/// Over a run of transfers, the frames that are delivered are exactly those that
/// were received before the first failure, in their order, each stamped with the
/// unwrapped time of its counter if it came with one.
pub proof fn law_run_delivers_what_was_received(
    reader: ReaderView,
    transfers: Seq<Option<Seq<u8>>>,
)
    ensures
        reader.delivered_all(transfers) == stamped_all(
            parsed_all(transfers, reader.channel, reader.hw_ts),
            reader.time(),
            reader.last,
        ),
    decreases transfers.len(),
{
    if transfers.len() > 0 {
        if let Some(bytes) = transfers[0] {
            let rest = parsed_all(transfers.drop_first(), reader.channel, reader.hw_ts);
            law_run_delivers_what_was_received(reader.after(bytes), transfers.drop_first());
            if host_frame::host_frame(bytes, reader.channel) is Some {
                let parsed = parsed_all(transfers, reader.channel, reader.hw_ts);
                assert(parsed.drop_first() =~= rest);
            }
        }
    }
}

/// A transfer that failed ends the run: nothing that comes after it is delivered.
pub proof fn law_failed_transfer_ends_the_run(
    reader: ReaderView,
    transfers: Seq<Option<Seq<u8>>>,
    k: int,
)
    requires
        0 <= k < transfers.len(),
        transfers[k] is None,
    ensures
        reader.delivered_all(transfers) == reader.delivered_all(transfers.take(k)),
    decreases k,
{
    if k > 0 {
        if let Some(bytes) = transfers[0] {
            law_failed_transfer_ends_the_run(
                reader.after(bytes),
                transfers.drop_first(),
                k - 1,
            );
            assert(transfers.take(k).drop_first() =~= transfers.drop_first().take(k - 1));
        }
    }
}

/// Over a run of transfers, stamps never decrease, and none is earlier than the
/// time at which the run began.
pub proof fn law_stamps_never_decrease(reader: ReaderView, transfers: Seq<Option<Seq<u8>>>)
    requires
        reader.sound(),
        reader.has_room_for_all(transfers),
    ensures
        ({
            let frames = reader.delivered_all(transfers);
            &&& forall|i: int|
                0 <= i < frames.len() && (#[trigger] frames[i]).timestamp_us is Some
                    ==> reader.time() <= frames[i].timestamp_us->0
            &&& forall|i: int, j: int|
                0 <= i < j < frames.len() && (#[trigger] frames[i]).timestamp_us is Some && (
                #[trigger] frames[j]).timestamp_us is Some ==> frames[i].timestamp_us->0
                    <= frames[j].timestamp_us->0
        }),
    decreases transfers.len(),
{
    if transfers.len() > 0 {
        if let Some(bytes) = transfers[0] {
            law_stamps_never_decrease(reader.after(bytes), transfers.drop_first());
        }
    }
}

/// What one transfer does. Without a received frame in it, nothing is delivered
/// and nothing changes. A received frame is delivered as it is; where the device
/// stamps and all four bytes of the counter are there (from 76 on in an FD frame,
/// from 20 on in any other), it gets the first time not before the last one that
/// ends in the counter's 32 bits, and the clock moves there.
pub proof fn law_transfer_step(reader: ReaderView, bytes: Seq<u8>)
    requires
        reader.sound(),
        reader.has_room(bytes),
    ensures
        ({
            let after = reader.after(bytes);
            let at: int = if bytes[7] & 0x40 == 0 && bytes[10] & 2 != 0 {
                76
            } else {
                20
            };
            &&& after.channel == reader.channel
            &&& after.hw_ts == reader.hw_ts
            &&& match host_frame::host_frame(bytes, reader.channel) {
                None => reader.delivered(bytes) is None && after == reader,
                Some(frame) => if reader.hw_ts && bytes.len() >= at + 4 {
                    let raw = bytes[at] + 0x100 * bytes[at + 1] + 0x1_0000 * bytes[at + 2]
                        + 0x100_0000 * bytes[at + 3];
                    &&& reader.delivered(bytes) matches Some(stamped)
                    &&& stamped.timestamp_us matches Some(time)
                    &&& stamped == (FrameView { timestamp_us: Some(time), ..frame })
                    &&& time as int % 0x1_0000_0000 == raw
                    &&& reader.epoch + reader.last <= time
                    &&& time < reader.epoch + reader.last + 0x1_0000_0000
                    &&& after.last == raw
                    &&& after.epoch + after.last == time
                } else {
                    reader.delivered(bytes) == Some(frame) && after == reader
                },
            }
        }),
{
    host_frame::law_counter_by_its_bytes(bytes);
    if let Some(raw) = reader.counter(bytes) {
        clock::law_unwrapped_time_is_monotonic(reader.time(), reader.last, raw);
        clock::law_unwrapped_time_ends_in_the_counter(reader.epoch, reader.last, raw);
        assert(0 <= clock::unwrapped(reader.time(), reader.last, raw) <= u64::MAX);
    }
}

/// A transfer fails to fit only where the counter wraps in the last stretch of 32
/// bits that 64 bits hold.
pub proof fn law_room_ends_with_the_clock(reader: ReaderView, bytes: Seq<u8>)
    ensures
        reader.epoch < 0xFFFF_FFFF_0000_0000 ==> reader.has_room(bytes),
        !reader.hw_ts ==> reader.has_room(bytes),
        host_frame::host_frame(bytes, reader.channel) is None ==> reader.has_room(bytes),
{
}

/// A read holds any frame with its counter, and frames are read ahead.
pub proof fn law_read_holds_any_frame(
    frame: FrameView,
    echo_id: u32,
    fd_mode: bool,
    channel: u16,
)
    requires
        frame.payload.len() <= host_frame::arm_len(fd_mode),
    ensures
        host_frame::encoded(frame, echo_id, fd_mode, channel).len() + 4 <= READ_LEN,
        READ_LEN == 512,
        IN_FLIGHT == 8,
{
}

} // verus!
