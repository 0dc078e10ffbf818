//! Mouse input: the wheel scrolls, a click selects, a second click on the
//! same item within the double-click window acts as Enter, the header row
//! activates tabs and the timeline row seeks.

use vstd::prelude::*;

use crate::actions::{Action, NavigationAction, PlaybackAction};
use crate::channel::ChannelState;
use crate::input::{blank_filter, handle_key, key_effect, KeyOutcome, KeyUi};
use crate::keymap::{KeyCode, KeyInput};
use crate::state::{AppView, Focus, HomeSection, PlayingPane};
use crate::text::is_blank;

verus! {

/// Two clicks on the same item within this many milliseconds act as Enter.
pub const DOUBLE_CLICK_WINDOW_MS: u64 = 500;

/// A screen rectangle in terminal cells.
#[derive(PartialEq, Eq, Structural, Clone, Copy, Debug)]
pub struct Rect {
    pub x: u16,
    pub y: u16,
    pub width: u16,
    pub height: u16,
}

/// Whether `area` contains the cell at (`column`, `row`).
pub open spec fn spec_contains(area: Rect, column: u16, row: u16) -> bool {
    area.x <= column < area.x + area.width && area.y <= row < area.y + area.height
}

/// Whether `area` contains the cell at (`column`, `row`).
pub fn contains(area: Rect, column: u16, row: u16) -> (inside: bool)
    ensures
        inside == spec_contains(area, column, row),
{
    column >= area.x && (column as u32) < area.x as u32 + area.width as u32 && row >= area.y && (row as u32)
        < area.y as u32 + area.height as u32
}

/// Pane of a view that a click landed in, so double-clicks never span panes.
pub open spec fn spec_pane_fingerprint(view: AppView, home_section: HomeSection, playing_pane: PlayingPane) -> u8 {
    match view {
        AppView::Home => match home_section {
            HomeSection::Resume => 1,
            HomeSection::Recent => 2,
            HomeSection::Playlists => 3,
        },
        AppView::NowPlaying => match playing_pane {
            PlayingPane::Info => 1,
            PlayingPane::Queue => 2,
        },
        _ => 0,
    }
}

/// Discriminate panes that share a view (Home sections, the Playing panes).
pub fn pane_fingerprint(view: AppView, home_section: HomeSection, playing_pane: PlayingPane) -> (pane: u8)
    ensures
        pane == spec_pane_fingerprint(view, home_section, playing_pane),
{
    match view {
        AppView::Home => match home_section {
            HomeSection::Resume => 1,
            HomeSection::Recent => 2,
            HomeSection::Playlists => 3,
        },
        AppView::NowPlaying => match playing_pane {
            PlayingPane::Info => 1,
            PlayingPane::Queue => 2,
        },
        _ => 0,
    }
}

/// Identity of a clicked item: view, pane and item index.
#[derive(PartialEq, Eq, Structural, Clone, Copy, Debug)]
pub struct ClickTarget {
    pub view: AppView,
    pub pane: u8,
    pub index: usize,
}

/// The last click: when (in milliseconds of a monotonic clock) and on what.
#[derive(PartialEq, Eq, Structural, Clone, Copy, Debug)]
pub struct LastClick {
    pub at_ms: u64,
    pub target: ClickTarget,
}

/// Milliseconds from `earlier` to `later`, zero when the clock did not advance.
pub open spec fn elapsed(earlier: u64, later: u64) -> int {
    if later >= earlier {
        later - earlier
    } else {
        0
    }
}

/// Whether a click on `target` at `now_ms` completes a double-click.
pub open spec fn is_double_click(last: Option<LastClick>, target: ClickTarget, now_ms: u64) -> bool {
    last matches Some(previous) && previous.target == target && elapsed(previous.at_ms, now_ms)
        < DOUBLE_CLICK_WINDOW_MS
}

/// The remembered click after a click on `target` at `now_ms`: a
/// double-click is consumed, any other click is remembered.
pub open spec fn after_click(last: Option<LastClick>, target: ClickTarget, now_ms: u64) -> Option<LastClick> {
    if is_double_click(last, target, now_ms) {
        None
    } else {
        Some(LastClick { at_ms: now_ms, target })
    }
}

/// Record one click. The second click on the same target within the window
/// is a double-click, which acts as Enter and is not remembered.
pub fn register_click(last: &mut Option<LastClick>, target: ClickTarget, now_ms: u64) -> (double: bool)
    ensures
        double == is_double_click(*old(last), target, now_ms),
        *final(last) == after_click(*old(last), target, now_ms),
{
    let double = match *last {
        Some(previous) => {
            let waited = if now_ms >= previous.at_ms {
                now_ms - previous.at_ms
            } else {
                0
            };
            previous.target == target && waited < DOUBLE_CLICK_WINDOW_MS
        },
        None => false,
    };
    if double {
        *last = None;
    } else {
        *last = Some(LastClick { at_ms: now_ms, target });
    }
    double
}

/// A double-click never chains into a third: the click after a
/// double-click starts over, whatever it lands on and whenever.
pub proof fn lemma_double_click_consumes_the_pair(
    last: Option<LastClick>,
    target: ClickTarget,
    now_ms: u64,
    next: ClickTarget,
    later_ms: u64,
)
    requires
        is_double_click(last, target, now_ms),
    ensures
        !is_double_click(after_click(last, target, now_ms), next, later_ms),
{
}

/// Row of a list a click selects: the list's scroll offset plus the row
/// within its area, when the click is inside the area.
pub fn click_list_index(area: Rect, offset: usize, column: u16, row: u16) -> (index: Option<usize>)
    requires
        spec_contains(area, column, row) ==> offset + (row - area.y) <= usize::MAX,
    ensures
        index == (if spec_contains(area, column, row) {
            Some((offset + (row - area.y)) as usize)
        } else {
            None
        }),
{
    if !contains(area, column, row) {
        return None;
    }
    Some(offset + (row - area.y) as usize)
}

/// One Home item's clickable area.
#[derive(PartialEq, Eq, Structural, Clone, Copy, Debug)]
pub struct HomeZone {
    pub area: Rect,
    pub section: HomeSection,
    pub index: usize,
}

/// The first Home zone containing the cell.
pub fn find_home_zone(zones: &Vec<HomeZone>, column: u16, row: u16) -> (zone: Option<HomeZone>)
    ensures
        match zone {
            Some(z) => exists|i: int| {
                &&& 0 <= i < zones@.len()
                &&& zones@[i] == z
                &&& spec_contains(z.area, column, row)
                &&& forall|k: int| 0 <= k < i ==> !spec_contains(#[trigger] zones@[k].area, column, row)
            },
            None => forall|k: int| 0 <= k < zones@.len() ==> !spec_contains(#[trigger] zones@[k].area, column, row),
        },
{
    let mut i: usize = 0;
    while i < zones.len()
        invariant
            i <= zones@.len(),
            forall|k: int| 0 <= k < i ==> !spec_contains(#[trigger] zones@[k].area, column, row),
        decreases zones@.len() - i,
    {
        if contains(zones[i].area, column, row) {
            return Some(zones[i]);
        }
        i = i + 1;
    }
    None
}

/// The UI after a click moved keyboard focus back to content: an unlocked
/// blank filter is dropped, exactly as Enter does in the filter bar.
pub open spec fn left_text_focus(ui: KeyUi) -> KeyUi {
    if ui.focus == Focus::Content {
        ui
    } else if ui.focus == Focus::ListFilter && blank_filter(ui.list_filter) {
        KeyUi { focus: Focus::Content, list_filter: None, ..ui }
    } else {
        KeyUi { focus: Focus::Content, ..ui }
    }
}

/// Move keyboard focus back to content after a click.
pub fn leave_text_focus(ui: &mut KeyUi)
    ensures
        *final(ui) == left_text_focus(*old(ui)),
{
    if ui.focus == Focus::Content {
        return;
    }
    if ui.focus == Focus::ListFilter {
        let blank = match &ui.list_filter {
            Some(text) => is_blank(text.as_str()),
            None => true,
        };
        if blank {
            ui.list_filter = None;
        }
    }
    ui.focus = Focus::Content;
}

/// The Enter key without modifiers.
pub open spec fn enter_key() -> KeyInput {
    KeyInput { code: KeyCode::Enter, control: false, plain: true }
}

/// Click item `index` of the active list: it is selected, keyboard focus
/// returns to content, and a second click on the same item within the
/// double-click window does exactly what Enter does there.
pub fn click_item<F, E, D>(
    ui: &mut KeyUi,
    last: &mut Option<LastClick>,
    home_section: HomeSection,
    index: usize,
    now_ms: u64,
    search_input: &str,
    channel: Option<&ChannelState>,
    view_binding: Option<Action<F, E, D>>,
) -> (outcome: Option<KeyOutcome<F, E, D>>)
    ensures
        ({
            let selected = left_text_focus(KeyUi { selected_index: index, ..*old(ui) });
            let target = ClickTarget {
                view: old(ui).view,
                pane: spec_pane_fingerprint(old(ui).view, home_section, old(ui).playing_pane),
                index,
            };
            if is_double_click(*old(last), target, now_ms) {
                &&& *final(last) is None
                &&& outcome matches Some(o) && key_effect(
                    selected,
                    *final(ui),
                    enter_key(),
                    search_input@,
                    match channel {
                        Some(c) => Some(*c),
                        None => None,
                    },
                    view_binding,
                    o,
                )
            } else {
                &&& *final(last) == Some(LastClick { at_ms: now_ms, target })
                &&& outcome is None
                &&& *final(ui) == selected
            }
        }),
{
    ui.selected_index = index;
    leave_text_focus(ui);
    let target = ClickTarget { view: ui.view, pane: pane_fingerprint(ui.view, home_section, ui.playing_pane), index };
    if register_click(last, target, now_ms) {
        let enter = KeyInput { code: KeyCode::Enter, control: false, plain: true };
        Some(handle_key(ui, &enter, search_input, channel, view_binding))
    } else {
        None
    }
}

/// A mouse event, as the application sees it.
#[derive(PartialEq, Eq, Structural, Clone, Copy, Debug)]
pub enum MouseInput {
    ScrollDown,
    ScrollUp,
    /// Left button pressed at a cell.
    LeftDown { column: u16, row: u16 },
    Other,
}

/// What a mouse event asks for.
pub enum MouseOutcome<F, E, D> {
    Ignore,
    /// Queue an action `times` times.
    Send { action: Action<F, E, D>, times: usize },
    /// Seek to `offset` cells into a timeline `width` cells wide.
    Seek { offset: u16, width: u16 },
    /// A click in the Home view, resolved against its item zones.
    ClickHome { column: u16, row: u16 },
    /// A click on the active list.
    ClickList { column: u16, row: u16 },
}

/// The tab whose header zone `[start, end)` contains `column`, if any.
pub open spec fn tab_at(tabs: Seq<(AppView, u16, u16)>, column: u16) -> Option<AppView> {
    if exists|i: int| 0 <= i < tabs.len() && tabs[i].1 <= column < #[trigger] tabs[i].2 {
        let i = choose|i: int|
            0 <= i < tabs.len() && tabs[i].1 <= column < #[trigger] tabs[i].2 && forall|k: int|
                0 <= k < i ==> !(tabs[k].1 <= column < #[trigger] tabs[k].2);
        Some(tabs[i].0)
    } else {
        None
    }
}

/// The tab whose header zone contains `column`.
pub fn tab_at_column(tabs: &Vec<(AppView, u16, u16)>, column: u16) -> (tab: Option<AppView>)
    ensures
        tab == tab_at(tabs@, column),
{
    let mut i: usize = 0;
    while i < tabs.len()
        invariant
            i <= tabs@.len(),
            forall|k: int| 0 <= k < i ==> !(tabs@[k].1 <= column < #[trigger] tabs@[k].2),
        decreases tabs@.len() - i,
    {
        let (tab, start, end) = tabs[i];
        if column >= start && column < end {
            proof {
                let j = choose|j: int|
                    0 <= j < tabs@.len() && tabs@[j].1 <= column < #[trigger] tabs@[j].2 && forall|k: int|
                        0 <= k < j ==> !(tabs@[k].1 <= column < #[trigger] tabs@[k].2);
                assert(0 <= i < tabs@.len() && tabs@[i as int].1 <= column < tabs@[i as int].2);
                if j < i {
                    assert(!(tabs@[j].1 <= column < tabs@[j].2));
                }
                if i < j {
                    assert(!(tabs@[i as int].1 <= column < tabs@[i as int].2));
                }
            }
            return Some(tab);
        }
        i = i + 1;
    }
    None
}

/// Whether the click lands on the timeline row of the now-playing bar.
pub open spec fn on_timeline(bar: Rect, column: u16, row: u16) -> bool {
    bar.height >= 4 && row == bar.y + 2 && bar.x <= column < bar.x + bar.width
}

/// Classify a mouse event. Overlays swallow the mouse; the wheel scrolls the
/// Playing view or moves the selection by three rows; the header row holds
/// the tab zones; the timeline row of the now-playing bar (when something
/// plays) seeks; other clicks go to the Home zones or the active list.
pub fn classify_mouse<F, E, D>(
    input: MouseInput,
    overlay_open: bool,
    view: AppView,
    tabs: &Vec<(AppView, u16, u16)>,
    now_playing_bar: Option<Rect>,
) -> (outcome: MouseOutcome<F, E, D>)
    ensures
        overlay_open ==> outcome is Ignore,
        !overlay_open ==> match input {
            MouseInput::ScrollDown => if view == AppView::NowPlaying {
                outcome == MouseOutcome::<F, E, D>::Send {
                    action: Action::Playback(PlaybackAction::ScrollNowPlaying(3)),
                    times: 1,
                }
            } else {
                outcome == MouseOutcome::<F, E, D>::Send {
                    action: Action::Navigation(NavigationAction::SelectNext),
                    times: 3,
                }
            },
            MouseInput::ScrollUp => if view == AppView::NowPlaying {
                outcome == MouseOutcome::<F, E, D>::Send {
                    action: Action::Playback(PlaybackAction::ScrollNowPlaying(-3i32)),
                    times: 1,
                }
            } else {
                outcome == MouseOutcome::<F, E, D>::Send {
                    action: Action::Navigation(NavigationAction::SelectPrevious),
                    times: 3,
                }
            },
            MouseInput::LeftDown { column, row } => if row == 0 {
                match tab_at(tabs@, column) {
                    Some(tab) => outcome == MouseOutcome::<F, E, D>::Send {
                        action: Action::Navigation(NavigationAction::Navigate(tab)),
                        times: 1,
                    },
                    None => outcome is Ignore,
                }
            } else if now_playing_bar matches Some(bar) && on_timeline(bar, column, row) {
                outcome == MouseOutcome::<F, E, D>::Seek {
                    offset: (column - now_playing_bar->Some_0.x) as u16,
                    width: now_playing_bar->Some_0.width,
                }
            } else if view == AppView::Home {
                outcome == MouseOutcome::<F, E, D>::ClickHome { column, row }
            } else {
                outcome == MouseOutcome::<F, E, D>::ClickList { column, row }
            },
            MouseInput::Other => outcome is Ignore,
        },
{
    if overlay_open {
        return MouseOutcome::Ignore;
    }
    match input {
        MouseInput::ScrollDown => if view == AppView::NowPlaying {
            MouseOutcome::Send { action: Action::Playback(PlaybackAction::ScrollNowPlaying(3)), times: 1 }
        } else {
            MouseOutcome::Send { action: Action::Navigation(NavigationAction::SelectNext), times: 3 }
        },
        MouseInput::ScrollUp => if view == AppView::NowPlaying {
            MouseOutcome::Send { action: Action::Playback(PlaybackAction::ScrollNowPlaying(-3)), times: 1 }
        } else {
            MouseOutcome::Send { action: Action::Navigation(NavigationAction::SelectPrevious), times: 3 }
        },
        MouseInput::LeftDown { column, row } => {
            if row == 0 {
                return match tab_at_column(tabs, column) {
                    Some(tab) => MouseOutcome::Send { action: Action::Navigation(NavigationAction::Navigate(tab)), times: 1 },
                    None => MouseOutcome::Ignore,
                };
            }
            match now_playing_bar {
                Some(bar) => {
                    if bar.height >= 4 && row as u32 == bar.y as u32 + 2 && column >= bar.x && (column as u32)
                        < bar.x as u32 + bar.width as u32 {
                        return MouseOutcome::Seek { offset: column - bar.x, width: bar.width };
                    }
                },
                None => {},
            }
            if view == AppView::Home {
                MouseOutcome::ClickHome { column, row }
            } else {
                MouseOutcome::ClickList { column, row }
            }
        },
        MouseInput::Other => MouseOutcome::Ignore,
    }
}

} // verus!
