use ratatube::player::{status_after, PlaybackStatus, StatusSignal};

#[test]
fn mpv_events_move_the_player_status() {
    assert_eq!(status_after(PlaybackStatus::Idle, StatusSignal::Started), (PlaybackStatus::Playing, false));
    assert_eq!(status_after(PlaybackStatus::Playing, StatusSignal::PauseChanged(true)), (PlaybackStatus::Paused, true));
    assert_eq!(status_after(PlaybackStatus::Paused, StatusSignal::PauseChanged(false)), (PlaybackStatus::Playing, false));
    assert_eq!(status_after(PlaybackStatus::Playing, StatusSignal::EndFile), (PlaybackStatus::Stopped, true));
    assert_eq!(status_after(PlaybackStatus::Playing, StatusSignal::Lost), (PlaybackStatus::Idle, true));
    assert_eq!(status_after(PlaybackStatus::Paused, StatusSignal::Unrelated), (PlaybackStatus::Paused, false));
}
