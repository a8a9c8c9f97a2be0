use macclaw_panel::capture::{
    capture_selected_text, selection_prefill_payload, CaptureAction, CaptureError, CaptureEvent,
};

fn some(s: &str) -> Option<String> {
    Some(s.to_string())
}

#[test]
fn permission_is_checked_first() {
    let (_engine, action) = capture_selected_text();
    assert!(matches!(action, CaptureAction::CheckPermission));
}

#[test]
fn permission_denied_fails_immediately() {
    let (engine, _) = capture_selected_text();
    let (_engine, action) = engine.step(CaptureEvent::PermissionChecked(false));
    match action {
        CaptureAction::Done(Err(CaptureError::PermissionDenied)) => {}
        _ => panic!("expected an immediate permission failure"),
    }
    assert_eq!(
        CaptureError::PermissionDenied.message(),
        "Grant Accessibility permission to MacClaw and retry"
    );
}

#[test]
fn primary_hit_returns_normalized_text_without_touching_the_clipboard() {
    let (engine, _) = capture_selected_text();
    let (engine, action) = engine.step(CaptureEvent::PermissionChecked(true));
    assert!(matches!(action, CaptureAction::QueryPrimarySelection));
    let (_engine, action) = engine.step(CaptureEvent::PrimaryObserved(some("  hello world  \n")));
    match action {
        CaptureAction::Done(Ok(text)) => assert_eq!(text, "hello world"),
        _ => panic!("expected the capture to finish on the primary path"),
    }
}

#[test]
fn empty_primary_result_falls_back_to_the_clipboard() {
    let (engine, _) = capture_selected_text();
    let (engine, _) = engine.step(CaptureEvent::PermissionChecked(true));
    let (_engine, action) = engine.step(CaptureEvent::PrimaryObserved(some("   \n")));
    assert!(matches!(action, CaptureAction::ReadClipboardSnapshot));
}

#[test]
fn absent_snapshot_without_change_yields_empty_and_writes_nothing() {
    let (engine, _) = capture_selected_text();
    let (engine, _) = engine.step(CaptureEvent::PermissionChecked(true));
    let (engine, action) = engine.step(CaptureEvent::PrimaryObserved(None));
    assert!(matches!(action, CaptureAction::ReadClipboardSnapshot));
    let (engine, action) = engine.step(CaptureEvent::SnapshotObserved(None));
    assert!(matches!(action, CaptureAction::PostCopyKeystroke));
    let (mut engine, mut action) = engine.step(CaptureEvent::KeystrokeSent(None));
    for _ in 0..3 {
        assert!(matches!(action, CaptureAction::PollClipboard));
        let (next, a) = engine.step(CaptureEvent::PollObserved(None));
        engine = next;
        action = a;
    }
    assert!(matches!(action, CaptureAction::PollClipboard));
    let (engine, action) = engine.step(CaptureEvent::DeadlineElapsed);
    assert!(matches!(action, CaptureAction::ReadClipboardAgain));
    let (_engine, action) = engine.step(CaptureEvent::FinalObserved(None));
    match action {
        CaptureAction::Done(Ok(text)) => assert_eq!(text, ""),
        _ => panic!("an absent selection is a successful empty capture"),
    }
}

#[test]
fn fallback_restores_the_snapshot_after_a_capture() {
    let (engine, _) = capture_selected_text();
    let (engine, _) = engine.step(CaptureEvent::PermissionChecked(true));
    let (engine, _) = engine.step(CaptureEvent::PrimaryObserved(None));
    let (engine, _) = engine.step(CaptureEvent::SnapshotObserved(some("prior clipboard")));
    let (engine, action) = engine.step(CaptureEvent::KeystrokeSent(None));
    assert!(matches!(action, CaptureAction::PollClipboard));
    let (engine, action) = engine.step(CaptureEvent::PollObserved(some("prior clipboard")));
    assert!(matches!(action, CaptureAction::PollClipboard));
    let (engine, action) = engine.step(CaptureEvent::PollObserved(some("fresh selection")));
    match &action {
        CaptureAction::RestoreClipboard(text) => assert_eq!(text, "prior clipboard"),
        _ => panic!("the snapshot must be restored before the session ends"),
    }
    let (_engine, action) = engine.step(CaptureEvent::ClipboardRestored);
    match action {
        CaptureAction::Done(Ok(text)) => assert_eq!(text, "fresh selection"),
        _ => panic!("expected the captured text after the restore"),
    }
}

#[test]
fn unchanged_clipboard_counts_as_no_capture() {
    let (engine, _) = capture_selected_text();
    let (engine, _) = engine.step(CaptureEvent::PermissionChecked(true));
    let (engine, _) = engine.step(CaptureEvent::PrimaryObserved(None));
    let (engine, _) = engine.step(CaptureEvent::SnapshotObserved(some("same text")));
    let (engine, _) = engine.step(CaptureEvent::KeystrokeSent(None));
    let (engine, action) = engine.step(CaptureEvent::PollObserved(some("same text")));
    assert!(matches!(action, CaptureAction::PollClipboard));
    let (engine, action) = engine.step(CaptureEvent::DeadlineElapsed);
    match &action {
        CaptureAction::RestoreClipboard(text) => assert_eq!(text, "same text"),
        _ => panic!("the snapshot must be restored after a timeout too"),
    }
    let (_engine, action) = engine.step(CaptureEvent::ClipboardRestored);
    match action {
        CaptureAction::Done(Ok(text)) => assert_eq!(text, ""),
        _ => panic!("an unchanged clipboard is an empty capture"),
    }
}

#[test]
fn change_to_empty_takes_one_more_read() {
    let (engine, _) = capture_selected_text();
    let (engine, _) = engine.step(CaptureEvent::PermissionChecked(true));
    let (engine, _) = engine.step(CaptureEvent::PrimaryObserved(None));
    let (engine, _) = engine.step(CaptureEvent::SnapshotObserved(some("old")));
    let (engine, _) = engine.step(CaptureEvent::KeystrokeSent(None));
    let (engine, action) = engine.step(CaptureEvent::PollObserved(None));
    assert!(matches!(action, CaptureAction::ReadClipboardAgain));
    let (engine, action) = engine.step(CaptureEvent::FinalObserved(some("late update")));
    match &action {
        CaptureAction::RestoreClipboard(text) => assert_eq!(text, "old"),
        _ => panic!("the snapshot must be restored"),
    }
    let (_engine, action) = engine.step(CaptureEvent::ClipboardRestored);
    match action {
        CaptureAction::Done(Ok(text)) => assert_eq!(text, "late update"),
        _ => panic!("the trailing update should be captured"),
    }
}

#[test]
fn synthesis_failure_still_restores_and_surfaces_the_error() {
    let (engine, _) = capture_selected_text();
    let (engine, _) = engine.step(CaptureEvent::PermissionChecked(true));
    let (engine, _) = engine.step(CaptureEvent::PrimaryObserved(None));
    let (engine, _) = engine.step(CaptureEvent::SnapshotObserved(some("keep me")));
    let (engine, action) =
        engine.step(CaptureEvent::KeystrokeSent(some("failed to create keyboard event source")));
    match &action {
        CaptureAction::RestoreClipboard(text) => assert_eq!(text, "keep me"),
        _ => panic!("the snapshot must be restored even on a synthesis failure"),
    }
    let (_engine, action) = engine.step(CaptureEvent::ClipboardRestored);
    match action {
        CaptureAction::Done(Err(CaptureError::SynthesisFailed(msg))) => {
            assert_eq!(msg, "failed to create keyboard event source");
        }
        _ => panic!("a synthesis failure must surface as an error"),
    }
}

#[test]
fn fallback_result_is_normalized() {
    let (engine, _) = capture_selected_text();
    let (engine, _) = engine.step(CaptureEvent::PermissionChecked(true));
    let (engine, _) = engine.step(CaptureEvent::PrimaryObserved(None));
    let (engine, _) = engine.step(CaptureEvent::SnapshotObserved(None));
    let (engine, _) = engine.step(CaptureEvent::KeystrokeSent(None));
    let (_engine, action) = engine.step(CaptureEvent::PollObserved(some("  padded capture \t")));
    match action {
        CaptureAction::Done(Ok(text)) => assert_eq!(text, "padded capture"),
        _ => panic!("expected a normalized fallback capture"),
    }
}

#[test]
fn prefill_payload_reports_text_presence() {
    let p = selection_prefill_payload(Ok("hello".to_string()));
    assert!(p.has_text);
    assert_eq!(p.text, "hello");
    assert!(p.error.is_none());

    let p = selection_prefill_payload(Ok(String::new()));
    assert!(!p.has_text);
    assert_eq!(p.text, "");
    assert!(p.error.is_none());

    let p = selection_prefill_payload(Err(CaptureError::PermissionDenied));
    assert!(!p.has_text);
    assert_eq!(p.text, "");
    assert_eq!(
        p.error.as_deref(),
        Some("Grant Accessibility permission to MacClaw and retry")
    );
}
