use ratatube::session::{end_file_outcome, session_save_due, PlaybackOutcome};

#[test]
fn session_snapshots_are_throttled_unless_forced() {
    assert!(session_save_due(None, false));
    assert!(!session_save_due(Some(4_999), false));
    assert!(session_save_due(Some(5_000), false));
    assert!(session_save_due(Some(0), true));
}

#[test]
fn only_an_error_end_is_a_failure() {
    assert_eq!(end_file_outcome("error"), PlaybackOutcome::Failed);
    assert_eq!(end_file_outcome("eof"), PlaybackOutcome::Completed);
    assert_eq!(end_file_outcome("errors"), PlaybackOutcome::Completed);
    assert_eq!(end_file_outcome(""), PlaybackOutcome::Completed);
}
