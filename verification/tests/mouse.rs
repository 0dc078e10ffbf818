use ratatube::actions::{Action, NavigationAction, PlaybackAction};
use ratatube::input::{KeyOutcome, KeyUi};
use ratatube::mouse::{
    classify_mouse, click_item, click_list_index, contains, find_home_zone, leave_text_focus, pane_fingerprint, register_click,
    ClickTarget, HomeZone, LastClick, MouseInput, MouseOutcome, Rect,
};
use ratatube::state::{AppView, Focus, HomeSection, PlayingPane};

type Outcome = MouseOutcome<f64, (), ()>;

fn rect(x: u16, y: u16, width: u16, height: u16) -> Rect {
    Rect { x, y, width, height }
}

#[test]
fn areas_contain_their_cells_only() {
    let area = rect(2, 3, 4, 2);
    assert!(contains(area, 2, 3));
    assert!(contains(area, 5, 4));
    assert!(!contains(area, 6, 3));
    assert!(!contains(area, 2, 5));
    assert!(!contains(rect(u16::MAX, 0, 1, 1), 0, 0));
    assert!(contains(rect(u16::MAX - 1, 0, 1, 1), u16::MAX - 1, 0));
}

#[test]
fn a_second_click_on_the_same_target_in_time_is_a_double_click() {
    let target = ClickTarget { view: AppView::Queue, pane: 0, index: 3 };
    let mut last = None;
    assert!(!register_click(&mut last, target, 1_000));
    assert_eq!(last, Some(LastClick { at_ms: 1_000, target }));
    assert!(register_click(&mut last, target, 1_400));
    assert!(last.is_none());
    assert!(!register_click(&mut last, target, 1_500));
    assert!(!register_click(&mut last, target, 2_000));
    let other = ClickTarget { view: AppView::Queue, pane: 0, index: 4 };
    assert!(!register_click(&mut last, other, 2_100));
}

#[test]
fn panes_are_told_apart() {
    assert_eq!(pane_fingerprint(AppView::Home, HomeSection::Playlists, PlayingPane::Info), 3);
    assert_eq!(pane_fingerprint(AppView::NowPlaying, HomeSection::Resume, PlayingPane::Queue), 2);
    assert_eq!(pane_fingerprint(AppView::Queue, HomeSection::Resume, PlayingPane::Queue), 0);
}

#[test]
fn list_clicks_add_the_scroll_offset() {
    let area = rect(0, 5, 80, 10);
    assert_eq!(click_list_index(area, 20, 3, 7), Some(22));
    assert_eq!(click_list_index(area, 20, 3, 4), None);
}

#[test]
fn home_clicks_pick_the_first_zone() {
    let zones = vec![
        HomeZone { area: rect(0, 0, 10, 2), section: HomeSection::Resume, index: 0 },
        HomeZone { area: rect(0, 2, 10, 2), section: HomeSection::Recent, index: 1 },
    ];
    assert_eq!(find_home_zone(&zones, 1, 3).map(|z| z.index), Some(1));
    assert!(find_home_zone(&zones, 20, 3).is_none());
}

#[test]
fn clicking_leaves_text_focus_and_drops_a_blank_filter() {
    let mut ui = KeyUi {
        focus: Focus::ListFilter,
        view: AppView::Queue,
        list_filter: Some(" ".into()),
        selected_index: 0,
        playing_pane: PlayingPane::Info,
        ultra_wide: false,
    };
    leave_text_focus(&mut ui);
    assert_eq!(ui.focus, Focus::Content);
    assert!(ui.list_filter.is_none());
}

#[test]
fn mouse_events_are_classified() {
    let tabs = vec![(AppView::Home, 0, 5), (AppView::Queue, 5, 10)];
    let o: Outcome = classify_mouse(MouseInput::ScrollDown, false, AppView::Queue, &tabs, None);
    assert!(matches!(o, MouseOutcome::Send { action: Action::Navigation(NavigationAction::SelectNext), times: 3 }));
    let o: Outcome = classify_mouse(MouseInput::ScrollUp, false, AppView::NowPlaying, &tabs, None);
    assert!(matches!(o, MouseOutcome::Send { action: Action::Playback(PlaybackAction::ScrollNowPlaying(-3)), times: 1 }));
    let o: Outcome = classify_mouse(MouseInput::LeftDown { column: 6, row: 0 }, false, AppView::Home, &tabs, None);
    assert!(matches!(o, MouseOutcome::Send { action: Action::Navigation(NavigationAction::Navigate(AppView::Queue)), .. }));
    let bar = rect(0, 20, 80, 4);
    let o: Outcome = classify_mouse(MouseInput::LeftDown { column: 40, row: 22 }, false, AppView::Queue, &tabs, Some(bar));
    assert!(matches!(o, MouseOutcome::Seek { offset: 40, width: 80 }));
    let o: Outcome = classify_mouse(MouseInput::LeftDown { column: 40, row: 10 }, false, AppView::Home, &tabs, Some(bar));
    assert!(matches!(o, MouseOutcome::ClickHome { column: 40, row: 10 }));
    let o: Outcome = classify_mouse(MouseInput::LeftDown { column: 40, row: 10 }, true, AppView::Home, &tabs, Some(bar));
    assert!(matches!(o, MouseOutcome::Ignore));
}

#[test]
fn a_double_click_acts_as_enter() {
    let mut ui = KeyUi {
        focus: Focus::ListFilter,
        view: AppView::Queue,
        list_filter: Some("abc".into()),
        selected_index: 0,
        playing_pane: PlayingPane::Info,
        ultra_wide: false,
    };
    let mut last = None;
    let first: Option<KeyOutcome<f64, (), ()>> = click_item(&mut ui, &mut last, HomeSection::Resume, 2, 100, "", None, None);
    assert!(first.is_none());
    assert_eq!(ui.selected_index, 2);
    assert_eq!(ui.focus, Focus::Content);
    assert_eq!(ui.list_filter.as_deref(), Some("abc"));
    let second: Option<KeyOutcome<f64, (), ()>> = click_item(&mut ui, &mut last, HomeSection::Resume, 2, 300, "", None, None);
    assert!(matches!(second, Some(KeyOutcome::Send(Action::Playback(PlaybackAction::PlaySelected)))));
    assert!(last.is_none());
}
