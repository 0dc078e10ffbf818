//! Keyboard routing by focus: the search input, the list filter bar and
//! content views. Overlays take their keys first (see `keymap::modal_key`).

use vstd::prelude::*;

use crate::actions::{Action, NavigationAction, PlaylistAction};
use crate::attached::{notice_is, Notice};
use crate::media::watch_url;
use crate::channel::ChannelState;
use crate::keymap::{
    focuses_search, leaves_search, playing_pane_action, route, search_input_action,
    spec_global_action, spec_playing_pane_action, spec_search_input_action, submits_search, KeyCode,
    KeyInput,
};
use crate::state::{AppView, Focus, PlayingPane};
use crate::text::{is_blank, pop_char, push_char, trim_text, trimmed};

verus! {

/// The UI state keyboard routing reads and changes.
pub struct KeyUi {
    pub focus: Focus,
    pub view: AppView,
    /// Text of the list filter, while one is open.
    pub list_filter: Option<String>,
    pub selected_index: usize,
    pub playing_pane: PlayingPane,
    /// Whether the screen is wide enough for the split Playing layout.
    pub ultra_wide: bool,
}

/// What a key press asks of the application beyond the UI changes.
pub enum KeyOutcome<F, E, D> {
    /// Classify and submit the search input, trimmed.
    SubmitQuery(String),
    /// Queue an action.
    Send(Action<F, E, D>),
    /// Handle an action right away, before the next frame.
    HandleNow(Action<F, E, D>),
    /// The locked list filter was cleared; the filtered index mapping goes too.
    FilterCleared,
    /// Nothing beyond the UI changes.
    Done,
}

/// Views whose lists `/` filters in place.
pub open spec fn filters_in_place(view: AppView) -> bool {
    view == AppView::Queue || view == AppView::History || view == AppView::Playlists || view
        == AppView::PlaylistDetail
}

/// Whether Enter on the row after the last channel video loads the next page.
pub open spec fn loads_channel_page(ui: KeyUi, key: KeyInput, channel: Option<ChannelState>) -> bool {
    &&& ui.view == AppView::Channel
    &&& key.code == KeyCode::Enter
    &&& channel matches Some(c) && ui.selected_index == c.tracks@.len() && !c.exhausted && !c.loading
}

/// Whether a filter holds no text worth keeping.
pub open spec fn blank_filter(filter: Option<String>) -> bool {
    match filter {
        Some(text) => trimmed(text@).len() == 0,
        None => true,
    }
}

/// Whether the UI kept everything but the listed fields.
pub open spec fn same_ui_except_filter_focus_selection(after: KeyUi, before: KeyUi) -> bool {
    &&& after.view == before.view
    &&& after.playing_pane == before.playing_pane
    &&& after.ultra_wide == before.ultra_wide
}

/// What a key does while the search input has focus.
pub open spec fn search_key_effect<F, E, D>(
    before: KeyUi,
    after: KeyUi,
    key: KeyInput,
    search_input: Seq<char>,
    outcome: KeyOutcome<F, E, D>,
) -> bool {
    if key.code == KeyCode::Enter {
        &&& outcome matches KeyOutcome::SubmitQuery(query) && query@ == trimmed(search_input)
        &&& after == before
    } else if key.code == KeyCode::Esc {
        &&& outcome is Done
        &&& after == (KeyUi { focus: Focus::Content, ..before })
    } else {
        &&& after == before
        &&& match spec_search_input_action::<F, E, D>(key) {
            Some(action) => outcome == KeyOutcome::Send(action),
            None => outcome is Done,
        }
    }
}

/// What a key does while the list filter bar has focus.
pub open spec fn filter_key_effect<F, E, D>(
    before: KeyUi,
    after: KeyUi,
    key: KeyInput,
    outcome: KeyOutcome<F, E, D>,
) -> bool {
    &&& same_ui_except_filter_focus_selection(after, before)
    &&& match key.code {
        KeyCode::Enter => {
            &&& outcome is Done
            &&& after.focus == Focus::Content
            &&& after.selected_index == before.selected_index
            &&& after.list_filter == (if blank_filter(before.list_filter) {
                None
            } else {
                before.list_filter
            })
        },
        KeyCode::Esc => {
            &&& outcome is Done
            &&& after.focus == Focus::Content
            &&& after.selected_index == before.selected_index
            &&& after.list_filter is None
        },
        KeyCode::Backspace => {
            &&& outcome is Done
            &&& after.selected_index == 0
            &&& match before.list_filter {
                Some(text) => if text@.len() == 0 {
                    after.list_filter is None && after.focus == Focus::Content
                } else {
                    after.list_filter matches Some(t) && t@ == text@.drop_last() && after.focus
                        == before.focus
                },
                None => after.list_filter is None && after.focus == before.focus,
            }
        },
        KeyCode::Char(c) => {
            &&& outcome is Done
            &&& after.selected_index == 0
            &&& after.focus == before.focus
            &&& match before.list_filter {
                Some(text) => after.list_filter matches Some(t) && t@ == text@.push(c),
                None => after.list_filter is None,
            }
        },
        KeyCode::Down => {
            &&& outcome == KeyOutcome::<F, E, D>::Send(Action::Navigation(NavigationAction::SelectNext))
            &&& after == before
        },
        KeyCode::Up => {
            &&& outcome == KeyOutcome::<F, E, D>::Send(Action::Navigation(NavigationAction::SelectPrevious))
            &&& after == before
        },
        _ => outcome is Done && after == before,
    }
}

/// What a key does in a content view.
pub open spec fn content_key_effect<F, E, D>(
    before: KeyUi,
    after: KeyUi,
    key: KeyInput,
    channel: Option<ChannelState>,
    view_binding: Option<Action<F, E, D>>,
    outcome: KeyOutcome<F, E, D>,
) -> bool {
    if loads_channel_page(before, key, channel) {
        &&& after == before
        &&& outcome == KeyOutcome::<F, E, D>::Send(
            Action::Navigation(
                if channel->Some_0.error is Some {
                    NavigationAction::RetryChannel
                } else {
                    NavigationAction::LoadMoreChannel
                },
            ),
        )
    } else if key.code == KeyCode::Char('/') && key.plain {
        &&& outcome is Done
        &&& if filters_in_place(before.view) {
            &&& after.list_filter matches Some(t) && t@.len() == 0
            &&& after == (KeyUi {
                list_filter: after.list_filter,
                focus: Focus::ListFilter,
                selected_index: 0,
                ..before
            })
        } else {
            after == (KeyUi { view: AppView::Search, focus: Focus::SearchInput, ..before })
        }
    } else if key.code == KeyCode::Esc && before.list_filter is Some {
        &&& outcome is FilterCleared
        &&& after == (KeyUi { list_filter: None, ..before })
    } else {
        &&& after == before
        &&& match content_binding(before, key, view_binding) {
            Some(action) => if action == Action::<F, E, D>::Navigation(NavigationAction::OpenTrackContext) {
                outcome == KeyOutcome::HandleNow(action)
            } else {
                outcome == KeyOutcome::Send(action)
            },
            None => outcome is Done,
        }
    }
}

/// Route a key while the search input has focus.
fn search_focus_key<F, E, D>(ui: &mut KeyUi, key: &KeyInput, search_input: &str) -> (outcome: KeyOutcome<F, E, D>)
    ensures
        search_key_effect(*old(ui), *final(ui), *key, search_input@, outcome),
{
    if submits_search(key) {
        return KeyOutcome::SubmitQuery(trim_text(search_input));
    }
    if leaves_search(key) {
        ui.focus = Focus::Content;
        return KeyOutcome::Done;
    }
    match search_input_action(key) {
        Some(action) => KeyOutcome::Send(action),
        None => KeyOutcome::Done,
    }
}

/// Route a key while the list filter bar has focus. Enter locks the filter
/// so list keys operate on matches (an empty filter is dropped); Esc clears
/// it; typing edits it and restarts the selection; arrows move the selection.
fn filter_focus_key<F, E, D>(ui: &mut KeyUi, key: &KeyInput) -> (outcome: KeyOutcome<F, E, D>)
    ensures
        filter_key_effect(*old(ui), *final(ui), *key, outcome),
{
    match key.code {
        KeyCode::Enter => {
            let blank = match &ui.list_filter {
                Some(text) => is_blank(text.as_str()),
                None => true,
            };
            if blank {
                ui.list_filter = None;
            }
            ui.focus = Focus::Content;
            KeyOutcome::Done
        },
        KeyCode::Esc => {
            ui.list_filter = None;
            ui.focus = Focus::Content;
            KeyOutcome::Done
        },
        KeyCode::Backspace => {
            let mut emptied = false;
            match &mut ui.list_filter {
                Some(text) => {
                    if pop_char(text).is_none() {
                        emptied = true;
                    }
                },
                None => {},
            }
            if emptied {
                ui.list_filter = None;
                ui.focus = Focus::Content;
            }
            ui.selected_index = 0;
            KeyOutcome::Done
        },
        KeyCode::Char(c) => {
            match &mut ui.list_filter {
                Some(text) => push_char(text, c),
                None => {},
            }
            ui.selected_index = 0;
            KeyOutcome::Done
        },
        KeyCode::Down => KeyOutcome::Send(Action::Navigation(NavigationAction::SelectNext)),
        KeyCode::Up => KeyOutcome::Send(Action::Navigation(NavigationAction::SelectPrevious)),
        _ => KeyOutcome::Done,
    }
}

/// The action a content-view key resolves to, once the channel, search and
/// filter keys did not apply.
pub open spec fn content_binding<F, E, D>(
    ui: KeyUi,
    key: KeyInput,
    view_binding: Option<Action<F, E, D>>,
) -> Option<Action<F, E, D>> {
    if ui.view == AppView::NowPlaying && spec_playing_pane_action::<F, E, D>(key, ui.playing_pane, ui.ultra_wide) is Some {
        spec_playing_pane_action::<F, E, D>(key, ui.playing_pane, ui.ultra_wide)
    } else if view_binding is Some {
        view_binding
    } else {
        spec_global_action::<F, E, D>(key)
    }
}

/// Route a key in a content view.
fn content_key<F, E, D>(
    ui: &mut KeyUi,
    key: &KeyInput,
    channel: Option<&ChannelState>,
    view_binding: Option<Action<F, E, D>>,
) -> (outcome: KeyOutcome<F, E, D>)
    ensures
        content_key_effect(*old(ui), *final(ui), *key, match channel {
            Some(c) => Some(*c),
            None => None,
        }, view_binding, outcome),
{
    if ui.view == AppView::Channel && key.code == KeyCode::Enter {
        match channel {
            Some(c) => {
                if ui.selected_index == c.tracks.len() && !c.exhausted && !c.loading {
                    let action = if c.error.is_some() {
                        NavigationAction::RetryChannel
                    } else {
                        NavigationAction::LoadMoreChannel
                    };
                    return KeyOutcome::Send(Action::Navigation(action));
                }
            },
            None => {},
        }
    }
    if focuses_search(key) {
        if ui.view == AppView::Queue || ui.view == AppView::History || ui.view == AppView::Playlists || ui.view
            == AppView::PlaylistDetail {
            ui.list_filter = Some(String::new());
            ui.focus = Focus::ListFilter;
            ui.selected_index = 0;
        } else {
            ui.view = AppView::Search;
            ui.focus = Focus::SearchInput;
        }
        return KeyOutcome::Done;
    }
    if key.code == KeyCode::Esc && ui.list_filter.is_some() {
        ui.list_filter = None;
        return KeyOutcome::FilterCleared;
    }
    let pane_action = if ui.view == AppView::NowPlaying {
        playing_pane_action(key, ui.playing_pane, ui.ultra_wide)
    } else {
        None
    };
    let action = match pane_action {
        Some(action) => Some(action),
        None => route(key, Focus::Content, view_binding),
    };
    match action {
        Some(action) => match action {
            Action::Navigation(NavigationAction::OpenTrackContext) => KeyOutcome::HandleNow(action),
            _ => KeyOutcome::Send(action),
        },
        None => KeyOutcome::Done,
    }
}

/// What a key press does, by focus.
pub open spec fn key_effect<F, E, D>(
    before: KeyUi,
    after: KeyUi,
    key: KeyInput,
    search_input: Seq<char>,
    channel: Option<ChannelState>,
    view_binding: Option<Action<F, E, D>>,
    outcome: KeyOutcome<F, E, D>,
) -> bool {
    match before.focus {
        Focus::SearchInput => search_key_effect(before, after, key, search_input, outcome),
        Focus::ListFilter => filter_key_effect(before, after, key, outcome),
        Focus::Content => content_key_effect(before, after, key, channel, view_binding, outcome),
    }
}

/// Route a key press by focus. Overlays have already had their turn;
/// `search_input` is the text of the search box and `view_binding` the
/// active view's own binding for the key.
pub fn handle_key<F, E, D>(
    ui: &mut KeyUi,
    key: &KeyInput,
    search_input: &str,
    channel: Option<&ChannelState>,
    view_binding: Option<Action<F, E, D>>,
) -> (outcome: KeyOutcome<F, E, D>)
    ensures
        key_effect(*old(ui), *final(ui), *key, search_input@, match channel {
            Some(c) => Some(*c),
            None => None,
        }, view_binding, outcome),
{
    match ui.focus {
        Focus::SearchInput => search_focus_key(ui, key, search_input),
        Focus::ListFilter => filter_focus_key(ui, key),
        Focus::Content => content_key(ui, key, channel, view_binding),
    }
}

/// What a submitted search text is.
pub enum InputKind {
    /// Free text to search for.
    Query(String),
    /// A single video, by id.
    Video(String),
    /// A playlist URL to import.
    Playlist(String),
    /// A mix seeded by a video id.
    Mix(String),
}

/// What submitting the search text starts.
pub struct TextQueryPlan<F, E, D> {
    pub action: Option<Action<F, E, D>>,
    /// Play the first result once the search completes.
    pub autoplay_first_search: bool,
    /// Move keyboard focus back to content.
    pub focus_content: bool,
    pub notice: Option<Notice>,
    /// Fetch the mix seeded by this video id.
    pub mix_seed: Option<String>,
}

/// Dispatch a classified search text: free text searches, a video searches
/// its watch page and plays it, a playlist URL starts an import and a mix
/// is fetched in the background.
pub fn plan_text_query<F, E, D>(kind: InputKind, query: String) -> (plan: TextQueryPlan<F, E, D>)
    ensures
        match kind {
            InputKind::Query(value) => {
                &&& plan.action == Some(Action::<F, E, D>::Navigation(NavigationAction::SubmitSearch(value)))
                &&& !plan.autoplay_first_search && !plan.focus_content && plan.notice is None && plan.mix_seed is None
            },
            InputKind::Video(id) => {
                &&& plan.action matches Some(Action::Navigation(NavigationAction::SubmitExactVideo(url)))
                    && url@ == watch_url(id@)
                &&& plan.autoplay_first_search && !plan.focus_content && plan.notice is None && plan.mix_seed is None
            },
            InputKind::Playlist(_) => {
                &&& plan.action == Some(Action::<F, E, D>::Playlists(PlaylistAction::StartImport(query)))
                &&& !plan.autoplay_first_search && plan.focus_content && plan.notice is None && plan.mix_seed is None
            },
            InputKind::Mix(video_id) => {
                &&& plan.action is None
                &&& !plan.autoplay_first_search && plan.focus_content
                &&& plan.notice matches Some(n) && notice_is(n, "Loading mix..."@, false)
                &&& plan.mix_seed == Some(video_id)
            },
        },
{
    match kind {
        InputKind::Query(value) => TextQueryPlan {
            action: Some(Action::Navigation(NavigationAction::SubmitSearch(value))),
            autoplay_first_search: false,
            focus_content: false,
            notice: None,
            mix_seed: None,
        },
        InputKind::Video(id) => {
            proof {
                reveal_strlit("https://www.youtube.com/watch?v=");
            }
            let url = String::from_str("https://www.youtube.com/watch?v=").concat(id.as_str());
            TextQueryPlan {
                action: Some(Action::Navigation(NavigationAction::SubmitExactVideo(url))),
                autoplay_first_search: true,
                focus_content: false,
                notice: None,
                mix_seed: None,
            }
        },
        InputKind::Playlist(_) => TextQueryPlan {
            action: Some(Action::Playlists(PlaylistAction::StartImport(query))),
            autoplay_first_search: false,
            focus_content: true,
            notice: None,
            mix_seed: None,
        },
        InputKind::Mix(video_id) => {
            proof {
                reveal_strlit("Loading mix...");
            }
            TextQueryPlan {
                action: None,
                autoplay_first_search: false,
                focus_content: true,
                notice: Some(Notice { message: String::from_str("Loading mix..."), error: false }),
                mix_seed: Some(video_id),
            }
        },
    }
}

} // verus!
