//! Transmission: a full transmit queue is back-pressure, not failure.
//!
//! Write readiness tracks the socket send buffer, not the device queue, so the
//! socket polls writable while the queue is full. CAN transmit queues are
//! shallow and drain at bus rate, so waiting is almost always correct.

use vstd::prelude::*;

verus! {

/// How long to wait between attempts once the transmit queue reports full, in
/// nanoseconds: 1 ms.
pub const TX_BACKPRESSURE_POLL_NS: u64 = 1_000_000;

/// How long a full transmit queue is treated as back-pressure rather than a
/// fault, in nanoseconds: 250 ms. A CAN device that has not drained a single
/// frame within this long is not merely busy.
pub const TX_BACKPRESSURE_LIMIT_NS: u64 = 250_000_000;

/// A write to the socket came to this.
#[derive(Debug, Clone, Copy, PartialEq, Eq, Structural)]
pub enum WriteOutcome {
    /// The frame is in the transmit queue.
    Written,
    /// The transmit queue is full.
    QueueFull,
    /// Any other failure.
    Failed,
}

/// What a send does after a write.
#[derive(Debug, Clone, Copy, PartialEq, Eq, Structural)]
pub enum SendStep {
    /// Report success.
    Done,
    /// Wait for [`TX_BACKPRESSURE_POLL_NS`], then write again.
    Retry,
    /// Report the failure.
    GiveUp,
}

/// What a send does after a write, `elapsed_ns` after it began.
pub open spec fn step(outcome: WriteOutcome, elapsed_ns: nat) -> SendStep {
    match outcome {
        WriteOutcome::Written => SendStep::Done,
        WriteOutcome::QueueFull if elapsed_ns < 250_000_000 => SendStep::Retry,
        _ => SendStep::GiveUp,
    }
}

/// Whether a write that failed with `raw_os_error` found the transmit queue full,
/// where `enobufs` is the error number of that, `ENOBUFS` of the target.
pub fn transmit_queue_full(raw_os_error: Option<i32>, enobufs: i32) -> (full: bool)
    ensures
        full == (raw_os_error == Some(enobufs)),
{
    match raw_os_error {
        Some(code) => code == enobufs,
        None => false,
    }
}

/// What to do after a write, `elapsed_ns` after the send began.
pub fn after_write(outcome: WriteOutcome, elapsed_ns: u128) -> (next: SendStep)
    ensures
        next == step(outcome, elapsed_ns as nat),
        next is Done <==> outcome is Written,
        next is Retry <==> outcome is QueueFull && elapsed_ns < 250_000_000,
{
    match outcome {
        WriteOutcome::Written => SendStep::Done,
        WriteOutcome::QueueFull => {
            if elapsed_ns < TX_BACKPRESSURE_LIMIT_NS as u128 {
                SendStep::Retry
            } else {
                SendStep::GiveUp
            }
        },
        WriteOutcome::Failed => SendStep::GiveUp,
    }
}

/// A send does not wait for ever: with a wait of 1 ms before each further
/// write, there are at most 250 of them, however full the queue stays.
pub proof fn law_back_pressure_ends(elapsed_ns: Seq<nat>)
    requires
        forall|k: int|
            0 <= k < elapsed_ns.len() ==> step(WriteOutcome::QueueFull, #[trigger] elapsed_ns[k])
                is Retry,
        forall|k: int|
            0 < k < elapsed_ns.len() ==> elapsed_ns[k - 1] + TX_BACKPRESSURE_POLL_NS
                <= #[trigger] elapsed_ns[k],
    ensures
        elapsed_ns.len() <= 250,
{
    if elapsed_ns.len() > 0 {
        let last = elapsed_ns.len() - 1;
        lemma_time_passes(elapsed_ns, last);
    }
}

proof fn lemma_time_passes(elapsed_ns: Seq<nat>, k: int)
    requires
        0 <= k < elapsed_ns.len(),
        forall|k: int|
            0 < k < elapsed_ns.len() ==> elapsed_ns[k - 1] + TX_BACKPRESSURE_POLL_NS
                <= #[trigger] elapsed_ns[k],
    ensures
        k * 1_000_000 <= elapsed_ns[k],
    decreases k,
{
    if k > 0 {
        lemma_time_passes(elapsed_ns, k - 1);
    }
}

/// A frame that is in the transmit queue is not written again: a write that
/// succeeded ends the send, whatever time has passed, and nothing else does so
/// with success.
pub proof fn law_written_frame_is_sent_once(outcome: WriteOutcome, elapsed_ns: nat)
    ensures
        step(outcome, elapsed_ns) is Done <==> outcome is Written,
        step(outcome, elapsed_ns) is Retry ==> outcome is QueueFull,
        outcome is Failed ==> step(outcome, elapsed_ns) is GiveUp,
{
}

/// A full queue is waited for until 250 ms have passed, and no longer: from then
/// on it is a failure, and it does not turn back into back-pressure.
pub proof fn law_back_pressure_is_a_quarter_second(sooner: nat, later: nat)
    requires
        sooner <= later,
    ensures
        step(WriteOutcome::QueueFull, sooner) is Retry <==> sooner < 250 * 1_000_000,
        step(WriteOutcome::QueueFull, sooner) is GiveUp <==> sooner >= 250 * 1_000_000,
        step(WriteOutcome::QueueFull, later) is Retry ==> step(WriteOutcome::QueueFull, sooner)
            is Retry,
        TX_BACKPRESSURE_LIMIT_NS == 250 * 1_000_000,
        TX_BACKPRESSURE_POLL_NS == 1_000_000,
{
}

/// What a send makes of the writes that came before: how many frames are in the
/// transmit queue because of it.
pub open spec fn frames_queued(outcomes: Seq<WriteOutcome>) -> nat
    decreases outcomes.len(),
{
    if outcomes.len() == 0 {
        0
    } else {
        frames_queued(outcomes.drop_last()) + if outcomes.last() is Written {
            1nat
        } else {
            0
        }
    }
}

/// However often a send writes, it puts its frame into the transmit queue at most
/// once, and reports success exactly if it has.
pub proof fn law_send_queues_at_most_one_frame(
    outcomes: Seq<WriteOutcome>,
    elapsed_ns: Seq<nat>,
)
    requires
        0 < outcomes.len() == elapsed_ns.len(),
        forall|k: int|
            0 <= k < outcomes.len() - 1 ==> step(#[trigger] outcomes[k], elapsed_ns[k]) is Retry,
    ensures
        frames_queued(outcomes) <= 1,
        step(outcomes.last(), elapsed_ns.last()) is Done <==> frames_queued(outcomes) == 1,
{
    lemma_retries_queue_nothing(outcomes.drop_last(), elapsed_ns.drop_last());
}

proof fn lemma_retries_queue_nothing(outcomes: Seq<WriteOutcome>, elapsed_ns: Seq<nat>)
    requires
        outcomes.len() == elapsed_ns.len(),
        forall|k: int|
            0 <= k < outcomes.len() ==> step(#[trigger] outcomes[k], elapsed_ns[k]) is Retry,
    ensures
        frames_queued(outcomes) == 0,
    decreases outcomes.len(),
{
    if outcomes.len() > 0 {
        assert(step(outcomes[outcomes.len() - 1], elapsed_ns[outcomes.len() - 1]) is Retry);
        lemma_retries_queue_nothing(outcomes.drop_last(), elapsed_ns.drop_last());
    }
}

} // verus!
