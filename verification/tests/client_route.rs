use ratatube::actions::{
    Action, HistoryAction, NavigationAction, PlaybackAction, PlaylistAction, QueueAction,
};
use ratatube::client_route::{
    add_signed_saturating, move_target_index, resolve_index, route, Command, Route, RouteUi,
    FILTER_BLOCKS_REORDER, RECENT_VIEW_REQUIRED,
};
use ratatube::media::Track;
use ratatube::mirror::DomainState;
use ratatube::state::{AppView, HistoryViewMode, PlayingPane};

type Domain = DomainState<(), (), ()>;
type Act = Action<f64, (), ()>;

fn track(id: &str) -> Track {
    Track::new(id, id, "channel")
}

fn ui() -> RouteUi {
    RouteUi {
        view: AppView::Home,
        playing_pane: PlayingPane::Info,
        ultra_wide: false,
        selected_index: 0,
        visible_indices: None,
        selected_playlist: None,
        history_view_mode: HistoryViewMode::Recent,
    }
}

fn domain() -> Domain {
    DomainState::new(())
}

fn routed(action: Act, ui: &RouteUi, domain: &Domain) -> Route<f64> {
    route(action, ui, domain, None, None, None)
}

fn routed_with(
    action: Act,
    ui: &RouteUi,
    domain: &Domain,
    history: Option<&Vec<String>>,
    selected: Option<Track>,
    seek_target: Option<f64>,
) -> Route<f64> {
    route(action, ui, domain, history, selected, seek_target)
}

#[test]
fn quit_never_reaches_the_daemon_or_local_reduce() {
    assert!(matches!(
        routed(Action::Navigation(NavigationAction::Quit), &ui(), &domain()),
        Route::Quit
    ));
}

#[test]
fn search_routes_as_client_owned_search() {
    let r = routed(Action::Navigation(NavigationAction::SubmitSearch("q".into())), &ui(), &domain());
    assert!(matches!(r, Route::Search { exact: false, .. }));
}

#[test]
fn queue_removal_carries_the_mirror_revision() {
    let mut ui = ui();
    ui.view = AppView::Queue;
    let mut domain = domain();
    domain.queue.push(track("a"));
    domain.queue_revision = 9;
    match routed(Action::Queue(QueueAction::RemoveSelectedFromQueue), &ui, &domain) {
        Route::Send(Command::QueueRemove { order_index: 0, expected_revision: 9 }) => {}
        other => panic!("unexpected route: {other:?}"),
    }
}

#[test]
fn play_selected_in_queue_view_jumps_by_position() {
    let mut ui = ui();
    ui.view = AppView::Queue;
    let mut domain = domain();
    domain.queue.push(track("a"));
    domain.queue.push(track("b"));
    ui.selected_index = 1;
    let r = routed(Action::Playback(PlaybackAction::PlaySelected), &ui, &domain);
    assert!(matches!(r, Route::Send(Command::PlayQueuePosition { position: 1 })));
}

#[test]
fn channel_actions_route_through_the_snapshot_stack() {
    assert!(matches!(
        routed(Action::Navigation(NavigationAction::VisitChannel(track("c"))), &ui(), &domain()),
        Route::OpenChannel(_)
    ));
    assert!(matches!(
        routed(Action::Navigation(NavigationAction::BackFromChannel), &ui(), &domain()),
        Route::ChannelBack
    ));
    assert!(matches!(
        routed(Action::Navigation(NavigationAction::LoadMoreChannel), &ui(), &domain()),
        Route::Send(Command::ChannelPage)
    ));
}

#[test]
fn picker_and_editor_submissions_resolve_in_the_runtime() {
    assert!(matches!(
        routed(Action::Playlists(PlaylistAction::PickerSubmit), &ui(), &domain()),
        Route::PickerSubmit
    ));
    assert!(matches!(
        routed(Action::Playlists(PlaylistAction::PlaylistEditorSubmit), &ui(), &domain()),
        Route::EditorSubmit
    ));
}

#[test]
fn play_selected_outside_the_queue_plays_the_resolved_track() {
    let r = routed_with(
        Action::Playback(PlaybackAction::PlaySelected),
        &ui(),
        &domain(),
        None,
        Some(track("x")),
        None,
    );
    match r {
        Route::Send(Command::PlayTrack { track }) => assert_eq!(track.id, "x"),
        other => panic!("unexpected route: {other:?}"),
    }
    let r = routed(Action::Playback(PlaybackAction::PlaySelected), &ui(), &domain());
    assert!(matches!(r, Route::Ignore));
}

#[test]
fn timeline_clicks_need_a_resolved_target() {
    let r =
        routed_with(Action::Playback(PlaybackAction::SeekToFraction(0.5)), &ui(), &domain(), None, None, Some(42.0));
    assert!(matches!(r, Route::Send(Command::SeekAbsolute { seconds }) if seconds == 42.0));
    let r = routed(Action::Playback(PlaybackAction::SeekToFraction(0.5)), &ui(), &domain());
    assert!(matches!(r, Route::Ignore));
}

#[test]
fn fixed_seek_and_volume_steps() {
    assert!(matches!(
        routed(Action::Playback(PlaybackAction::SeekBackward), &ui(), &domain()),
        Route::Send(Command::Seek { seconds: -5 })
    ));
    assert!(matches!(
        routed(Action::Playback(PlaybackAction::SeekForwardLarge), &ui(), &domain()),
        Route::Send(Command::Seek { seconds: 30 })
    ));
    assert!(matches!(
        routed(Action::Playback(PlaybackAction::VolumeDown), &ui(), &domain()),
        Route::Send(Command::Volume { delta: -2 })
    ));
}

#[test]
fn filtered_rows_resolve_through_the_visible_mapping() {
    let mut ui = ui();
    ui.visible_indices = Some(vec![4, 7]);
    assert_eq!(resolve_index(&ui, 1), 7);
    assert_eq!(resolve_index(&ui, 5), 5);
    ui.visible_indices = None;
    assert_eq!(resolve_index(&ui, 1), 1);
}

#[test]
fn reordering_under_a_filter_is_deferred() {
    let mut ui = ui();
    ui.view = AppView::Queue;
    ui.visible_indices = Some(vec![0]);
    let mut domain = domain();
    domain.queue.push(track("a"));
    domain.queue.push(track("b"));
    let r = routed(Action::Queue(QueueAction::MoveSelectedInQueue(1)), &ui, &domain);
    assert!(matches!(r, Route::Deferred(message) if message == FILTER_BLOCKS_REORDER));
}

#[test]
fn queue_moves_stay_inside_the_queue() {
    let mut ui = ui();
    ui.view = AppView::Queue;
    let mut domain = domain();
    domain.queue.push(track("a"));
    domain.queue.push(track("b"));
    ui.selected_index = 0;
    let r = routed(Action::Queue(QueueAction::MoveSelectedInQueue(5)), &ui, &domain);
    assert!(matches!(r, Route::Send(Command::QueueMove { from: 0, to: 1 })));
    ui.selected_index = 1;
    let r = routed(Action::Queue(QueueAction::MoveSelectedInQueue(1)), &ui, &domain);
    assert!(matches!(r, Route::Ignore));
    let r = routed(Action::Queue(QueueAction::MoveSelectedInQueue(-1)), &ui, &domain);
    assert!(matches!(r, Route::Send(Command::QueueMove { from: 1, to: 0 })));
}

#[test]
fn move_targets_clamp_to_the_list() {
    assert_eq!(move_target_index(0, -3, 4), 0);
    assert_eq!(move_target_index(1, 10, 4), 3);
    assert_eq!(move_target_index(2, 1, 4), 3);
    assert_eq!(add_signed_saturating(3, -5), 0);
    assert_eq!(add_signed_saturating(usize::MAX, 1), usize::MAX);
}

#[test]
fn history_deletion_needs_the_recent_view() {
    let mut ui = ui();
    ui.view = AppView::History;
    ui.history_view_mode = HistoryViewMode::MostPlayed;
    let ids = vec!["h".to_string()];
    let r = routed_with(
        Action::History(HistoryAction::DeleteSelectedHistoryEntry),
        &ui,
        &domain(),
        Some(&ids),
        None,
        None,
    );
    assert!(matches!(r, Route::Deferred(message) if message == RECENT_VIEW_REQUIRED));

    ui.history_view_mode = HistoryViewMode::Recent;
    let r = routed_with(
        Action::History(HistoryAction::DeleteSelectedHistoryEntry),
        &ui,
        &domain(),
        Some(&ids),
        None,
        None,
    );
    match r {
        Route::Send(Command::HistoryDelete { index: 0, expected_track_id }) => {
            assert_eq!(expected_track_id, "h")
        }
        other => panic!("unexpected route: {other:?}"),
    }
}
