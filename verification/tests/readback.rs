use raytrace_pipeline::readback::{RenderError, SyncAction, SyncEvent, SyncState};

#[test]
fn no_pixels_before_both_signals() {
    let mut s = SyncState::new();
    let after_poll = s.step(SyncEvent::PollFinished { ok: true });
    assert_eq!(after_poll, SyncAction::Wait);
    let after_map = s.step(SyncEvent::MapReported { ok: true });
    assert_eq!(after_map, SyncAction::ReadPixels);
}

#[test]
fn slow_map_callback_changes_nothing() {
    // The callback's message arriving before the poll returns must lead to
    // the same decision as the usual order.
    let mut s = SyncState::new();
    let after_map = s.step(SyncEvent::MapReported { ok: true });
    assert_eq!(after_map, SyncAction::Wait);
    let after_poll = s.step(SyncEvent::PollFinished { ok: true });
    assert_eq!(after_poll, SyncAction::ReadPixels);
}

#[test]
fn completion_failure_is_surfaced_as_such() {
    let mut s = SyncState::new();
    let action = s.step(SyncEvent::PollFinished { ok: false });
    assert_eq!(action, SyncAction::Fail(RenderError::Completion));
}

#[test]
fn map_failure_is_surfaced_distinctly() {
    let mut s = SyncState::new();
    let first = s.step(SyncEvent::PollFinished { ok: true });
    assert_eq!(first, SyncAction::Wait);
    let action = s.step(SyncEvent::MapReported { ok: false });
    assert_eq!(action, SyncAction::Fail(RenderError::Mapping));
}

#[test]
fn completion_failure_outranks_map_failure() {
    let mut s = SyncState::new();
    s.step(SyncEvent::MapReported { ok: false });
    let action = s.step(SyncEvent::PollFinished { ok: false });
    assert_eq!(action, SyncAction::Fail(RenderError::Completion));
}

#[test]
fn a_failed_map_never_reads() {
    let mut s = SyncState::new();
    s.step(SyncEvent::PollFinished { ok: true });
    let action = s.step(SyncEvent::MapReported { ok: false });
    assert!(!matches!(action, SyncAction::ReadPixels));
}
