//! The readback protocol: crossing the asynchronous completion boundary.
//!
//! A device-only scalar is copied into a host-mappable staging buffer inside
//! the same command batch that produced it; the batch is submitted, an
//! asynchronous map is requested with a one-shot completion signal, and the
//! calling thread drives the device's progress loop until the signal fires
//! or an error is reported. Only then are the mapped bytes viewed as a
//! typed value. The decision half of that loop lives here as a state
//! machine over poll events; the half that actually polls the device and
//! carries the signal lives with the device bindings. The machine never
//! exposes a value before the completion signal fires, so a stale or zeroed
//! read is impossible by construction.

use vstd::prelude::*;

use crate::error::DeviceError;
use crate::features::{count_from_bytes, word_at};

verus! {

/// What the device's progress loop reports at one poll iteration.
#[derive(Clone, Copy, Debug, PartialEq, Eq, Structural)]
pub enum PollEvent {
    /// The map has not completed yet.
    Pending,
    /// The completion signal fired: the staging buffer is mapped.
    SignalOk,
    /// The device reported a failure.
    SignalErr { error: DeviceError },
}

/// Phase of one readback.
#[derive(Clone, Copy, Debug, PartialEq, Eq, Structural)]
pub enum ReadbackState {
    /// Batch submitted and map requested; the calling thread is blocked,
    /// having spent `polls` poll iterations so far.
    Waiting { polls: u32 },
    /// The completion signal fired; the mapped bytes are valid.
    Ready,
    /// The device failed; the run is fatally lost.
    Failed { error: DeviceError },
}

/// The state a readback starts in, right after the map is requested.
pub open spec fn spec_init() -> ReadbackState {
    ReadbackState::Waiting { polls: 0 }
}

/// One transition of the protocol: a waiting reader either keeps waiting,
/// becomes ready on the signal, or fails; `Ready` and `Failed` are
/// terminal.
pub open spec fn spec_step(s: ReadbackState, ev: PollEvent) -> ReadbackState {
    match s {
        ReadbackState::Waiting { polls } => match ev {
            PollEvent::Pending => ReadbackState::Waiting {
                polls: if polls < u32::MAX {
                    (polls + 1) as u32
                } else {
                    polls
                },
            },
            PollEvent::SignalOk => ReadbackState::Ready,
            PollEvent::SignalErr { error } => ReadbackState::Failed { error },
        },
        ReadbackState::Ready => ReadbackState::Ready,
        ReadbackState::Failed { error } => ReadbackState::Failed { error },
    }
}

/// The state after the first `i` events of a run.
pub open spec fn run_state(events: Seq<PollEvent>, i: int) -> ReadbackState
    decreases i,
{
    if i <= 0 {
        spec_init()
    } else {
        spec_step(run_state(events, i - 1), events[i - 1])
    }
}

/// A fresh readback, as `spec_init` describes it.
pub fn readback_begin() -> (s: ReadbackState)
    ensures
        s == spec_init(),
{
    ReadbackState::Waiting { polls: 0 }
}

/// Feeds one poll event to the protocol.
pub fn readback_step(s: ReadbackState, ev: PollEvent) -> (r: ReadbackState)
    ensures
        r == spec_step(s, ev),
{
    match s {
        ReadbackState::Waiting { polls } => match ev {
            PollEvent::Pending => ReadbackState::Waiting {
                polls: if polls < u32::MAX {
                    polls + 1
                } else {
                    polls
                },
            },
            PollEvent::SignalOk => ReadbackState::Ready,
            PollEvent::SignalErr { error } => ReadbackState::Failed { error },
        },
        ReadbackState::Ready => ReadbackState::Ready,
        ReadbackState::Failed { error } => ReadbackState::Failed { error },
    }
}

/// What the blocked thread does next: keep driving the device, or stop with
/// a value or an error.
#[derive(Clone, Copy, Debug, PartialEq, Eq, Structural)]
pub enum ReadbackOutcome {
    /// The signal has not fired: block for another poll iteration.
    KeepPolling,
    /// The mapped bytes are valid; the typed value was copied out.
    Value { value: u32 },
    /// The device failed; surface the error to the caller.
    Error { error: DeviceError },
}

/// Decides from the protocol state alone: a value is produced only in
/// `Ready`, which only the completion signal reaches, so the caller can
/// never observe a stale or zeroed counter.
pub fn readback_decision(s: ReadbackState, bytes: &Vec<u8>) -> (r: ReadbackOutcome)
    requires
        bytes@.len() >= 4,
    ensures
        s is Waiting ==> r == ReadbackOutcome::KeepPolling,
        s is Ready ==> r == (ReadbackOutcome::Value { value: word_at(bytes@, 0) as u32 }),
        s matches ReadbackState::Failed { error } ==> r == (ReadbackOutcome::Error { error }),
{
    match s {
        ReadbackState::Waiting { .. } => ReadbackOutcome::KeepPolling,
        ReadbackState::Ready => ReadbackOutcome::Value { value: count_from_bytes(bytes) },
        ReadbackState::Failed { error } => ReadbackOutcome::Error { error },
    }
}

/// Drives the protocol over a recorded run of poll events, stopping at the
/// first terminal state: exactly the blocking wait of the readback, with
/// the device's reports laid out as data. Returns the final state and how
/// many events were consumed. While every consumed event is `Pending` the
/// thread stays blocked; it leaves `Waiting` only on a signal.
pub fn await_completion(events: &Vec<PollEvent>) -> (r: (ReadbackState, usize))
    ensures
        r.1 <= events@.len(),
        r.0 == run_state(events@, r.1 as int),
        forall|j: int| 0 <= j < r.1 - 1 ==> events@[j] == PollEvent::Pending,
        r.0 is Ready ==> 1 <= r.1 && events@[r.1 - 1] == PollEvent::SignalOk,
        r.0 matches ReadbackState::Failed { error } ==> 1 <= r.1 && events@[r.1 - 1]
            == (PollEvent::SignalErr { error }),
        r.0 is Waiting ==> r.1 == events@.len() && (forall|j: int|
            0 <= j < events@.len() ==> events@[j] == PollEvent::Pending),
{
    let mut s = readback_begin();
    let mut i: usize = 0;
    while i < events.len()
        invariant
            i <= events@.len(),
            s == run_state(events@, i as int),
            s is Waiting,
            forall|j: int| 0 <= j < i ==> events@[j] == PollEvent::Pending,
        decreases events@.len() - i,
    {
        let ev = events[i];
        let next = readback_step(s, ev);
        i = i + 1;
        match next {
            ReadbackState::Waiting { .. } => {
                s = next;
            },
            _ => {
                return (next, i);
            },
        }
    }
    (s, i)
}

/// The protocol can only be `Ready` after the completion signal has fired:
/// in any run that reaches `Ready` by step `i`, some earlier event was the
/// signal, and every event before the signal was a pending poll. A test
/// double that delays the signal therefore cannot make the protocol return
/// early.
pub proof fn lemma_ready_needs_signal(events: Seq<PollEvent>, i: int)
    requires
        0 <= i <= events.len(),
        run_state(events, i) is Ready,
    ensures
        exists|j: int|
            0 <= j < i && events[j] == PollEvent::SignalOk && (forall|j2: int|
                0 <= j2 < j ==> events[j2] == PollEvent::Pending),
    decreases i,
{
    if i > 0 {
        let prev = run_state(events, i - 1);
        if prev is Ready {
            lemma_ready_needs_signal(events, i - 1);
            let j = choose|j: int|
                0 <= j < i - 1 && events[j] == PollEvent::SignalOk && (forall|j2: int|
                    0 <= j2 < j ==> events[j2] == PollEvent::Pending);
            assert(0 <= j < i && events[j] == PollEvent::SignalOk && (forall|j2: int|
                0 <= j2 < j ==> events[j2] == PollEvent::Pending));
        } else {
            assert(prev is Waiting && events[i - 1] == PollEvent::SignalOk);
            lemma_waiting_means_all_pending(events, i - 1);
            assert(0 <= i - 1 < i && events[i - 1] == PollEvent::SignalOk && (forall|j2: int|
                0 <= j2 < i - 1 ==> events[j2] == PollEvent::Pending));
        }
    }
}

/// While the protocol is still waiting after `i` events, every one of them
/// was a pending poll, and the wait counter has counted every iteration:
/// a signal delayed by `i` poll iterations blocks the thread for all `i`.
pub proof fn lemma_waiting_means_all_pending(events: Seq<PollEvent>, i: int)
    requires
        0 <= i <= events.len(),
        run_state(events, i) is Waiting,
    ensures
        forall|j: int| 0 <= j < i ==> events[j] == PollEvent::Pending,
        i <= u32::MAX ==> run_state(events, i) == (ReadbackState::Waiting { polls: i as u32 }),
    decreases i,
{
    if i > 0 {
        let prev = run_state(events, i - 1);
        assert(prev is Waiting);
        lemma_waiting_means_all_pending(events, i - 1);
    }
}

} // verus!
