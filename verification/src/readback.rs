use vstd::prelude::*;

verus! {

/// The readback synchronizer: it decides, from the two asynchronous
/// completion signals of one render, when the mapped staging bytes may be
/// read. The two signals are distinct and both are required: the
/// device-completion poll finishing says all submitted work is done, and the
/// map callback's message (delivered through a single-slot channel) says the
/// map request itself succeeded or failed. Polling alone never implies the
/// callback has run or that its result was published.

/// Why a render failed, surfaced distinctly so a caller can tell "the device
/// died" from "the mapping specifically failed".
#[derive(Clone, Copy, Debug, PartialEq, Eq, Structural)]
pub enum RenderError {
    /// The device-completion wait reported failure: device lost or the
    /// submitted work failed.
    Completion,
    /// The asynchronous map request reported failure.
    Mapping,
}

/// One signal observed by the waiting task.
#[derive(Clone, Copy, Debug, PartialEq, Eq, Structural)]
pub enum SyncEvent {
    /// The device-completion poll returned, successfully or not.
    PollFinished { ok: bool },
    /// The map callback's result arrived over the channel.
    MapReported { ok: bool },
}

/// What the waiting task must do next.
#[derive(Clone, Copy, Debug, PartialEq, Eq, Structural)]
pub enum SyncAction {
    /// At least one signal is still outstanding and none has failed: keep
    /// waiting. Reading the staging buffer now would race the device.
    Wait,
    /// Both signals resolved successfully: the mapped range is valid and may
    /// be read (and must be unmapped afterwards).
    ReadPixels,
    /// A signal resolved with failure: abort the render with this error.
    Fail(RenderError),
}

/// The synchronizer's whole state: which signals have resolved, and how.
/// `None` means the signal is still outstanding.
pub struct SyncState {
    pub polled: Option<bool>,
    pub mapped: Option<bool>,
}

/// How one event updates the state: each signal resolves exactly one field
/// and leaves the other untouched.
pub open spec fn step_spec(s: SyncState, e: SyncEvent) -> SyncState {
    match e {
        SyncEvent::PollFinished { ok } => SyncState { polled: Some(ok), ..s },
        SyncEvent::MapReported { ok } => SyncState { mapped: Some(ok), ..s },
    }
}

/// The action the state dictates. Pixels may be read only when both signals
/// have resolved successfully; a completion failure outranks a map failure
/// because it says the device itself is gone.
pub open spec fn action_spec(s: SyncState) -> SyncAction {
    if s.polled == Some(false) {
        SyncAction::Fail(RenderError::Completion)
    } else if s.mapped == Some(false) {
        SyncAction::Fail(RenderError::Mapping)
    } else if s.polled == Some(true) && s.mapped == Some(true) {
        SyncAction::ReadPixels
    } else {
        SyncAction::Wait
    }
}

/// The state after a whole sequence of signals, observed in order.
pub open spec fn run_spec(s: SyncState, events: Seq<SyncEvent>) -> SyncState
    decreases events.len(),
{
    if events.len() == 0 {
        s
    } else {
        run_spec(step_spec(s, events[0]), events.drop_first())
    }
}

impl SyncState {
    /// A fresh synchronizer, created before the map request is issued:
    /// neither signal has resolved.
    pub fn new() -> (s: Self)
        ensures
            s.polled is None,
            s.mapped is None,
    {
        SyncState { polled: None, mapped: None }
    }

    /// Record one observed signal and say what to do next.
    pub fn step(&mut self, event: SyncEvent) -> (action: SyncAction)
        ensures
            *final(self) == step_spec(*old(self), event),
            action == action_spec(*final(self)),
            action is ReadPixels ==> final(self).polled == Some(true) && final(self).mapped
                == Some(true),
    {
        match event {
            SyncEvent::PollFinished { ok } => {
                self.polled = Some(ok);
            },
            SyncEvent::MapReported { ok } => {
                self.mapped = Some(ok);
            },
        }
        if self.polled == Some(false) {
            SyncAction::Fail(RenderError::Completion)
        } else if self.mapped == Some(false) {
            SyncAction::Fail(RenderError::Mapping)
        } else if self.polled == Some(true) && self.mapped == Some(true) {
            SyncAction::ReadPixels
        } else {
            SyncAction::Wait
        }
    }
}

/// The synchronizer never hands out pixel data before both the
/// device-completion poll and the channel receipt have each individually
/// resolved successfully: however the signals are interleaved, if the state
/// after a sequence of events dictates reading, that sequence contains a
/// successful poll signal and a successful map signal.
pub proof fn lemma_no_read_before_both_signals(s: SyncState, events: Seq<SyncEvent>)
    requires
        s.polled is None,
        s.mapped is None,
        action_spec(run_spec(s, events)) is ReadPixels,
    ensures
        exists|i: int|
            0 <= i < events.len() && events[i] == (SyncEvent::PollFinished { ok: true }),
        exists|j: int|
            0 <= j < events.len() && events[j] == (SyncEvent::MapReported { ok: true }),
{
    lemma_resolved_signal_has_event(s, events);
}

/// Each resolved field of the state after a run is explained by an event of
/// the run (or was already resolved at the start).
proof fn lemma_resolved_signal_has_event(s: SyncState, events: Seq<SyncEvent>)
    ensures
        ({
            let t = run_spec(s, events);
            &&& (t.polled matches Some(ok) ==> s.polled == Some(ok) || exists|i: int|
                0 <= i < events.len() && events[i] == (SyncEvent::PollFinished { ok }))
            &&& (t.mapped matches Some(ok) ==> s.mapped == Some(ok) || exists|j: int|
                0 <= j < events.len() && events[j] == (SyncEvent::MapReported { ok }))
        }),
    decreases events.len(),
{
    if events.len() > 0 {
        let s1 = step_spec(s, events[0]);
        let rest = events.drop_first();
        lemma_resolved_signal_has_event(s1, rest);
        let t = run_spec(s, events);
        match t.polled {
            Some(ok) => {
                if s1.polled == Some(ok) && s.polled != Some(ok) {
                    assert(events[0] == (SyncEvent::PollFinished { ok }));
                } else if s1.polled != Some(ok) {
                    let i = choose|i: int|
                        0 <= i < rest.len() && rest[i] == (SyncEvent::PollFinished { ok });
                    assert(events[i + 1] == (SyncEvent::PollFinished { ok }));
                }
            },
            None => {},
        }
        match t.mapped {
            Some(ok) => {
                if s1.mapped == Some(ok) && s.mapped != Some(ok) {
                    assert(events[0] == (SyncEvent::MapReported { ok }));
                } else if s1.mapped != Some(ok) {
                    let j = choose|j: int|
                        0 <= j < rest.len() && rest[j] == (SyncEvent::MapReported { ok });
                    assert(events[j + 1] == (SyncEvent::MapReported { ok }));
                }
            },
            None => {},
        }
    }
}

/// A slow map callback is harmless: the poll signal and the map signal
/// commute, so the state (and therefore every later decision) does not
/// depend on which of the two distinct signals arrived first.
pub proof fn lemma_signal_order_immaterial(s: SyncState, poll_ok: bool, map_ok: bool)
    ensures
        step_spec(
            step_spec(s, SyncEvent::PollFinished { ok: poll_ok }),
            SyncEvent::MapReported { ok: map_ok },
        ) == step_spec(
            step_spec(s, SyncEvent::MapReported { ok: map_ok }),
            SyncEvent::PollFinished { ok: poll_ok },
        ),
{
}

} // verus!
