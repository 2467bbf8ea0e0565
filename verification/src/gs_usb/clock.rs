//! Device timestamps: a 32-bit counter that wraps, unwrapped to 64 bits.

use vstd::prelude::*;

verus! {

/// Unwrap the device's free-running 32-bit µs counter into a monotonic u64.
/// A raw value below the previous one means the counter wrapped (every
/// ~71.6 min); gaps longer than one full wrap on a silent channel are
/// undetectable and fold into one wrap.
pub fn unwrap_ts(ts_last: &mut u32, ts_epoch: &mut u64, raw: u32) -> (ts: u64)
    requires
        raw < *old(ts_last) ==> *old(ts_epoch) + 0x1_0000_0000 <= u64::MAX,
    ensures
        *final(ts_last) == raw,
        *final(ts_epoch) == *old(ts_epoch) + if raw < *old(ts_last) {
            0x1_0000_0000int
        } else {
            0
        },
        ts == *final(ts_epoch) | raw as u64,
        *old(ts_epoch) as int % 0x1_0000_0000 == 0 ==> {
            &&& *final(ts_epoch) as int % 0x1_0000_0000 == 0
            &&& ts == *final(ts_epoch) + raw
            &&& ts == unwrapped(*old(ts_epoch) + *old(ts_last), *old(ts_last), raw)
        },
{
    if raw < *ts_last {
        *ts_epoch += 0x1_0000_0000;
    }
    *ts_last = raw;
    let epoch = *ts_epoch;
    assert(epoch % 0x1_0000_0000 == 0 ==> epoch | raw as u64 == epoch + raw as u64)
        by (bit_vector);
    epoch | raw as u64
}

/// The unwrapped time after a counter value `raw`, when the last value was
/// `last` and the unwrapped time then was `time`.
pub open spec fn unwrapped(time: int, last: u32, raw: u32) -> int {
    time - last + raw + if raw < last {
        0x1_0000_0000
    } else {
        0int
    }
}

/// Unwrapped time never goes back, whatever the counter reads: it grows by what
/// the counter has run since the last value, wrapped or not.
pub proof fn law_unwrapped_time_is_monotonic(time: int, last: u32, raw: u32)
    ensures
        unwrapped(time, last, raw) - time == (raw - last) % 0x1_0000_0000,
        time <= unwrapped(time, last, raw) < time + 0x1_0000_0000,
{
}

/// Unwrapped time ends in the 32 bits of the counter, as long as the wraps before
/// it are whole.
pub proof fn law_unwrapped_time_ends_in_the_counter(epoch: int, last: u32, raw: u32)
    requires
        epoch % 0x1_0000_0000 == 0,
    ensures
        unwrapped(epoch + last, last, raw) % 0x1_0000_0000 == raw,
        (unwrapped(epoch + last, last, raw) - raw) % 0x1_0000_0000 == 0,
{
}

} // verus!
