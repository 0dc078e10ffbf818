use ratatube::actions::{Action, HistoryAction, NavigationAction, PlaybackAction, PlaylistAction};
use ratatube::channel::{ChannelNavigationSnapshot, ChannelState};
use ratatube::input::{handle_key, plan_text_query, InputKind, KeyOutcome, KeyUi};
use ratatube::keymap::{global_action, modal_key, playing_pane_action, search_input_action, KeyCode, KeyInput, ModalCapture, ModalKey};
use ratatube::media::Track;
use ratatube::state::{AppView, Focus, PlayingPane};

type Act = Action<f64, (), ()>;

fn key(code: KeyCode) -> KeyInput {
    KeyInput { code, control: false, plain: true }
}

fn ctrl(c: char) -> KeyInput {
    KeyInput { code: KeyCode::Char(c), control: true, plain: false }
}

fn ui(focus: Focus, view: AppView) -> KeyUi {
    KeyUi { focus, view, list_filter: None, selected_index: 2, playing_pane: PlayingPane::Info, ultra_wide: false }
}

#[test]
fn global_keys_map_to_actions() {
    let a: Option<Act> = global_action(&key(KeyCode::Char('3')));
    assert!(matches!(a, Some(Action::Navigation(NavigationAction::Navigate(AppView::Queue)))));
    let a: Option<Act> = global_action(&key(KeyCode::Char(' ')));
    assert!(matches!(a, Some(Action::Playback(PlaybackAction::PlayPause))));
    let a: Option<Act> = global_action(&key(KeyCode::Char('!')));
    assert!(matches!(a, Some(Action::History(HistoryAction::ToggleNotificationLog))));
    let a: Option<Act> = global_action(&ctrl('c'));
    assert!(matches!(a, Some(Action::Navigation(NavigationAction::Quit))));
    let a: Option<Act> = global_action(&ctrl('p'));
    assert!(matches!(a, Some(Action::Navigation(NavigationAction::OpenSettings))));
    let a: Option<Act> = global_action(&ctrl('x'));
    assert!(a.is_none());
    let a: Option<Act> = global_action(&key(KeyCode::Char('x')));
    assert!(a.is_none());
}

#[test]
fn the_search_input_takes_characters() {
    let a: Option<Act> = search_input_action(&key(KeyCode::Char('q')));
    assert!(matches!(a, Some(Action::Navigation(NavigationAction::SearchInput('q')))));
    let a: Option<Act> = search_input_action(&ctrl('c'));
    assert!(matches!(a, Some(Action::Navigation(NavigationAction::Quit))));
    let a: Option<Act> = search_input_action(&key(KeyCode::Enter));
    assert!(a.is_none());
}

#[test]
fn the_queue_pane_owns_its_keys_only_when_wide() {
    let a: Option<Act> = playing_pane_action(&key(KeyCode::Char('l')), PlayingPane::Info, true);
    assert!(matches!(a, Some(Action::Playback(PlaybackAction::CyclePlayingPane))));
    let a: Option<Act> = playing_pane_action(&key(KeyCode::Enter), PlayingPane::Queue, true);
    assert!(matches!(a, Some(Action::Playback(PlaybackAction::PlaySelected))));
    let a: Option<Act> = playing_pane_action(&key(KeyCode::Enter), PlayingPane::Info, true);
    assert!(a.is_none());
    let a: Option<Act> = playing_pane_action(&key(KeyCode::Char('l')), PlayingPane::Queue, false);
    assert!(a.is_none());
}

#[test]
fn overlays_take_their_keys() {
    let m: ModalKey<f64, (), ()> = modal_key(ModalCapture::Confirm, &key(KeyCode::Char('Y')), None);
    assert!(matches!(m, ModalKey::Send(Action::Playlists(PlaylistAction::ConfirmYes))));
    let m: ModalKey<f64, (), ()> = modal_key(ModalCapture::NotificationLog, &key(KeyCode::Char('q')), None);
    assert!(matches!(m, ModalKey::CloseNotificationLog));
    let m: ModalKey<f64, (), ()> = modal_key(ModalCapture::Import, &key(KeyCode::Enter), Some(false));
    assert!(matches!(m, ModalKey::Nothing));
    let m: ModalKey<f64, (), ()> = modal_key(ModalCapture::Import, &key(KeyCode::Enter), Some(true));
    assert!(matches!(m, ModalKey::Send(Action::Playlists(PlaylistAction::ConfirmImport))));
    let m: ModalKey<f64, (), ()> = modal_key(ModalCapture::Settings, &ctrl('p'), None);
    assert!(matches!(m, ModalKey::Send(Action::Navigation(NavigationAction::CloseSettings))));
    let m: ModalKey<f64, (), ()> = modal_key(ModalCapture::TrackContext, &key(KeyCode::Up), None);
    assert!(matches!(m, ModalKey::Send(Action::Navigation(NavigationAction::MoveTrackContext(-1)))));
}

#[test]
fn enter_submits_the_trimmed_search_input() {
    let mut state = ui(Focus::SearchInput, AppView::Search);
    let outcome: KeyOutcome<f64, (), ()> = handle_key(&mut state, &key(KeyCode::Enter), "  lofi  ", None, None);
    assert!(matches!(outcome, KeyOutcome::SubmitQuery(q) if q == "lofi"));
    let outcome: KeyOutcome<f64, (), ()> = handle_key(&mut state, &key(KeyCode::Esc), "", None, None);
    assert!(matches!(outcome, KeyOutcome::Done));
    assert_eq!(state.focus, Focus::Content);
}

#[test]
fn slash_filters_lists_in_place_and_focuses_search_elsewhere() {
    let mut state = ui(Focus::Content, AppView::Queue);
    let _: KeyOutcome<f64, (), ()> = handle_key(&mut state, &key(KeyCode::Char('/')), "", None, None);
    assert_eq!(state.focus, Focus::ListFilter);
    assert_eq!(state.list_filter.as_deref(), Some(""));
    assert_eq!(state.selected_index, 0);

    let mut state = ui(Focus::Content, AppView::Home);
    let _: KeyOutcome<f64, (), ()> = handle_key(&mut state, &key(KeyCode::Char('/')), "", None, None);
    assert_eq!(state.focus, Focus::SearchInput);
    assert_eq!(state.view, AppView::Search);
}

#[test]
fn the_filter_bar_edits_locks_and_clears() {
    let mut state = ui(Focus::ListFilter, AppView::Queue);
    state.list_filter = Some(String::new());
    let _: KeyOutcome<f64, (), ()> = handle_key(&mut state, &key(KeyCode::Char('a')), "", None, None);
    let _: KeyOutcome<f64, (), ()> = handle_key(&mut state, &key(KeyCode::Char('b')), "", None, None);
    assert_eq!(state.list_filter.as_deref(), Some("ab"));
    let _: KeyOutcome<f64, (), ()> = handle_key(&mut state, &key(KeyCode::Backspace), "", None, None);
    assert_eq!(state.list_filter.as_deref(), Some("a"));
    let _: KeyOutcome<f64, (), ()> = handle_key(&mut state, &key(KeyCode::Enter), "", None, None);
    assert_eq!(state.focus, Focus::Content);
    assert_eq!(state.list_filter.as_deref(), Some("a"));
    let outcome: KeyOutcome<f64, (), ()> = handle_key(&mut state, &key(KeyCode::Esc), "", None, None);
    assert!(matches!(outcome, KeyOutcome::FilterCleared));
    assert!(state.list_filter.is_none());
}

#[test]
fn a_blank_filter_is_dropped_when_locked() {
    let mut state = ui(Focus::ListFilter, AppView::History);
    state.list_filter = Some("  ".into());
    let _: KeyOutcome<f64, (), ()> = handle_key(&mut state, &key(KeyCode::Enter), "", None, None);
    assert!(state.list_filter.is_none());
    let mut state = ui(Focus::ListFilter, AppView::History);
    state.list_filter = Some(String::new());
    let _: KeyOutcome<f64, (), ()> = handle_key(&mut state, &key(KeyCode::Backspace), "", None, None);
    assert!(state.list_filter.is_none());
    assert_eq!(state.focus, Focus::Content);
}

#[test]
fn enter_past_the_last_channel_video_loads_more() {
    let mut channel = ChannelState::new(
        &Track::new("s", "S", "Chan"),
        "url".into(),
        ChannelNavigationSnapshot { view: AppView::Search, focus: Focus::Content, selected_index: 0 },
    );
    let mut state = ui(Focus::Content, AppView::Channel);
    state.selected_index = 0;
    let outcome: KeyOutcome<f64, (), ()> = handle_key(&mut state, &key(KeyCode::Enter), "", Some(&channel), None);
    assert!(matches!(outcome, KeyOutcome::Send(Action::Navigation(NavigationAction::LoadMoreChannel))));
    channel.error = Some("offline".into());
    let outcome: KeyOutcome<f64, (), ()> = handle_key(&mut state, &key(KeyCode::Enter), "", Some(&channel), None);
    assert!(matches!(outcome, KeyOutcome::Send(Action::Navigation(NavigationAction::RetryChannel))));
}

#[test]
fn view_bindings_win_over_global_ones_and_the_context_menu_opens_at_once() {
    let mut state = ui(Focus::Content, AppView::Queue);
    let outcome: KeyOutcome<f64, (), ()> = handle_key(
        &mut state,
        &key(KeyCode::Char('n')),
        "",
        None,
        Some(Action::Navigation(NavigationAction::OpenTrackContext)),
    );
    assert!(matches!(outcome, KeyOutcome::HandleNow(Action::Navigation(NavigationAction::OpenTrackContext))));
    let outcome: KeyOutcome<f64, (), ()> = handle_key(&mut state, &key(KeyCode::Char('n')), "", None, None);
    assert!(matches!(outcome, KeyOutcome::Send(Action::Playback(PlaybackAction::NextTrack))));
}

#[test]
fn classified_text_dispatches_by_kind() {
    let plan = plan_text_query::<f64, (), ()>(InputKind::Video("abc".into()), "x".into());
    assert!(plan.autoplay_first_search);
    assert!(matches!(plan.action, Some(Action::Navigation(NavigationAction::SubmitExactVideo(url)))
        if url == "https://www.youtube.com/watch?v=abc"));
    let plan = plan_text_query::<f64, (), ()>(InputKind::Mix("v".into()), "x".into());
    assert!(plan.action.is_none());
    assert_eq!(plan.mix_seed.as_deref(), Some("v"));
    assert_eq!(plan.notice.expect("notice").message, "Loading mix...");
    let plan = plan_text_query::<f64, (), ()>(InputKind::Playlist("p".into()), "https://list".into());
    assert!(plan.focus_content);
    assert!(matches!(plan.action, Some(Action::Playlists(PlaylistAction::StartImport(url))) if url == "https://list"));
}
