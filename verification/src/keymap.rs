//! Default keybindings: global keys, search-input keys, the Playing view's
//! queue pane and modal overlays.

use vstd::prelude::*;

use crate::actions::{
    Action, HistoryAction, NavigationAction, PlaybackAction, PlaylistAction,
};
use crate::state::{AppView, Focus, PlayingPane};

verus! {

/// The key of a key press.
#[derive(PartialEq, Eq, Structural, Clone, Copy, Debug)]
pub enum KeyCode {
    Char(char),
    Enter,
    Esc,
    Tab,
    BackTab,
    Backspace,
    Up,
    Down,
    Left,
    Right,
    /// Any key no binding names.
    Other,
}

/// One key press.
#[derive(PartialEq, Eq, Structural, Clone, Copy, Debug)]
pub struct KeyInput {
    pub code: KeyCode,
    /// Control was held.
    pub control: bool,
    /// No modifier at all was held.
    pub plain: bool,
}

/// Global binding of a character key without control.
pub open spec fn global_char_action<F, E, D>(c: char) -> Option<Action<F, E, D>> {
    if c == '1' {
        Some(Action::Navigation(NavigationAction::Navigate(AppView::Home)))
    } else if c == '2' {
        Some(Action::Navigation(NavigationAction::Navigate(AppView::Search)))
    } else if c == '3' {
        Some(Action::Navigation(NavigationAction::Navigate(AppView::Queue)))
    } else if c == '4' {
        Some(Action::Navigation(NavigationAction::Navigate(AppView::Playlists)))
    } else if c == '5' {
        Some(Action::Navigation(NavigationAction::Navigate(AppView::History)))
    } else if c == '6' {
        Some(Action::Navigation(NavigationAction::Navigate(AppView::NowPlaying)))
    } else if c == ' ' {
        Some(Action::Playback(PlaybackAction::PlayPause))
    } else if c == 'n' {
        Some(Action::Playback(PlaybackAction::NextTrack))
    } else if c == 'b' {
        Some(Action::Playback(PlaybackAction::PreviousTrack))
    } else if c == '+' {
        Some(Action::Playback(PlaybackAction::VolumeUp))
    } else if c == '-' {
        Some(Action::Playback(PlaybackAction::VolumeDown))
    } else if c == 'm' {
        Some(Action::Playback(PlaybackAction::ToggleMute))
    } else if c == 's' {
        Some(Action::Playback(PlaybackAction::ToggleShuffle))
    } else if c == 'r' {
        Some(Action::Playback(PlaybackAction::CycleRepeat))
    } else if c == 'h' {
        Some(Action::Playback(PlaybackAction::SeekBackward))
    } else if c == 'l' {
        Some(Action::Playback(PlaybackAction::SeekForward))
    } else if c == 'H' {
        Some(Action::Playback(PlaybackAction::SeekBackwardLarge))
    } else if c == 'L' {
        Some(Action::Playback(PlaybackAction::SeekForwardLarge))
    } else if c == '.' {
        Some(Action::Playback(PlaybackAction::NextChapter))
    } else if c == ',' {
        Some(Action::Playback(PlaybackAction::PreviousChapter))
    } else if c == '>' {
        Some(Action::Playback(PlaybackAction::SpeedUp))
    } else if c == '<' {
        Some(Action::Playback(PlaybackAction::SpeedDown))
    } else if c == '=' {
        Some(Action::Playback(PlaybackAction::SpeedReset))
    } else if c == 'Z' {
        Some(Action::Playback(PlaybackAction::CycleSleepTimer))
    } else if c == 't' {
        Some(Action::Playback(PlaybackAction::ToggleRadio))
    } else if c == '!' {
        Some(Action::History(HistoryAction::ToggleNotificationLog))
    } else if c == '?' {
        Some(Action::Navigation(NavigationAction::OpenHelp))
    } else if c == 'q' {
        Some(Action::Navigation(NavigationAction::Quit))
    } else if c == 'j' {
        Some(Action::Navigation(NavigationAction::SelectNext))
    } else if c == 'k' {
        Some(Action::Navigation(NavigationAction::SelectPrevious))
    } else {
        None
    }
}

/// Global binding of a key, independent of the active view.
pub open spec fn spec_global_action<F, E, D>(key: KeyInput) -> Option<Action<F, E, D>> {
    if key.control {
        match key.code {
            KeyCode::Char(c) => if c == 'c' {
                Some(Action::Navigation(NavigationAction::Quit))
            } else if c == 'p' {
                Some(Action::Navigation(NavigationAction::OpenSettings))
            } else {
                None
            },
            _ => None,
        }
    } else {
        match key.code {
            KeyCode::Char(c) => global_char_action(c),
            KeyCode::Tab => Some(Action::Navigation(NavigationAction::NextView)),
            KeyCode::BackTab => Some(Action::Navigation(NavigationAction::PreviousView)),
            KeyCode::Down => Some(Action::Navigation(NavigationAction::SelectNext)),
            KeyCode::Up => Some(Action::Navigation(NavigationAction::SelectPrevious)),
            KeyCode::Enter => Some(Action::Playback(PlaybackAction::PlaySelected)),
            _ => None,
        }
    }
}

/// Global binding of a character key.
fn char_action<F, E, D>(c: char) -> (action: Option<Action<F, E, D>>)
    ensures
        action == global_char_action::<F, E, D>(c),
{
    if c == '1' {
        Some(Action::Navigation(NavigationAction::Navigate(AppView::Home)))
    } else if c == '2' {
        Some(Action::Navigation(NavigationAction::Navigate(AppView::Search)))
    } else if c == '3' {
        Some(Action::Navigation(NavigationAction::Navigate(AppView::Queue)))
    } else if c == '4' {
        Some(Action::Navigation(NavigationAction::Navigate(AppView::Playlists)))
    } else if c == '5' {
        Some(Action::Navigation(NavigationAction::Navigate(AppView::History)))
    } else if c == '6' {
        Some(Action::Navigation(NavigationAction::Navigate(AppView::NowPlaying)))
    } else if c == ' ' {
        Some(Action::Playback(PlaybackAction::PlayPause))
    } else if c == 'n' {
        Some(Action::Playback(PlaybackAction::NextTrack))
    } else if c == 'b' {
        Some(Action::Playback(PlaybackAction::PreviousTrack))
    } else if c == '+' {
        Some(Action::Playback(PlaybackAction::VolumeUp))
    } else if c == '-' {
        Some(Action::Playback(PlaybackAction::VolumeDown))
    } else if c == 'm' {
        Some(Action::Playback(PlaybackAction::ToggleMute))
    } else if c == 's' {
        Some(Action::Playback(PlaybackAction::ToggleShuffle))
    } else if c == 'r' {
        Some(Action::Playback(PlaybackAction::CycleRepeat))
    } else if c == 'h' {
        Some(Action::Playback(PlaybackAction::SeekBackward))
    } else if c == 'l' {
        Some(Action::Playback(PlaybackAction::SeekForward))
    } else if c == 'H' {
        Some(Action::Playback(PlaybackAction::SeekBackwardLarge))
    } else if c == 'L' {
        Some(Action::Playback(PlaybackAction::SeekForwardLarge))
    } else if c == '.' {
        Some(Action::Playback(PlaybackAction::NextChapter))
    } else if c == ',' {
        Some(Action::Playback(PlaybackAction::PreviousChapter))
    } else if c == '>' {
        Some(Action::Playback(PlaybackAction::SpeedUp))
    } else if c == '<' {
        Some(Action::Playback(PlaybackAction::SpeedDown))
    } else if c == '=' {
        Some(Action::Playback(PlaybackAction::SpeedReset))
    } else if c == 'Z' {
        Some(Action::Playback(PlaybackAction::CycleSleepTimer))
    } else if c == 't' {
        Some(Action::Playback(PlaybackAction::ToggleRadio))
    } else if c == '!' {
        Some(Action::History(HistoryAction::ToggleNotificationLog))
    } else if c == '?' {
        Some(Action::Navigation(NavigationAction::OpenHelp))
    } else if c == 'q' {
        Some(Action::Navigation(NavigationAction::Quit))
    } else if c == 'j' {
        Some(Action::Navigation(NavigationAction::SelectNext))
    } else if c == 'k' {
        Some(Action::Navigation(NavigationAction::SelectPrevious))
    } else {
        None
    }
}

/// Map a key to a global action, independent of the active view.
pub fn global_action<F, E, D>(key: &KeyInput) -> (action: Option<Action<F, E, D>>)
    ensures
        action == spec_global_action::<F, E, D>(*key),
{
    if key.control {
        return match key.code {
            KeyCode::Char(c) => if c == 'c' {
                Some(Action::Navigation(NavigationAction::Quit))
            } else if c == 'p' {
                Some(Action::Navigation(NavigationAction::OpenSettings))
            } else {
                None
            },
            _ => None,
        };
    }
    match key.code {
        KeyCode::Char(c) => char_action(c),
        KeyCode::Tab => Some(Action::Navigation(NavigationAction::NextView)),
        KeyCode::BackTab => Some(Action::Navigation(NavigationAction::PreviousView)),
        KeyCode::Down => Some(Action::Navigation(NavigationAction::SelectNext)),
        KeyCode::Up => Some(Action::Navigation(NavigationAction::SelectPrevious)),
        KeyCode::Enter => Some(Action::Playback(PlaybackAction::PlaySelected)),
        _ => None,
    }
}

/// Binding of a key while the search input has focus.
pub open spec fn spec_search_input_action<F, E, D>(key: KeyInput) -> Option<Action<F, E, D>> {
    if key.control {
        if key.code == KeyCode::Char('c') {
            Some(Action::Navigation(NavigationAction::Quit))
        } else {
            None
        }
    } else {
        match key.code {
            KeyCode::Backspace => Some(Action::Navigation(NavigationAction::SearchBackspace)),
            KeyCode::Char(c) => Some(Action::Navigation(NavigationAction::SearchInput(c))),
            _ => None,
        }
    }
}

/// Map a key while the search input has focus; Enter and Esc are handled
/// by the caller.
pub fn search_input_action<F, E, D>(key: &KeyInput) -> (action: Option<Action<F, E, D>>)
    ensures
        action == spec_search_input_action::<F, E, D>(*key),
{
    if key.control {
        return if key.code == KeyCode::Char('c') {
            Some(Action::Navigation(NavigationAction::Quit))
        } else {
            None
        };
    }
    match key.code {
        KeyCode::Backspace => Some(Action::Navigation(NavigationAction::SearchBackspace)),
        KeyCode::Char(c) => Some(Action::Navigation(NavigationAction::SearchInput(c))),
        _ => None,
    }
}

/// Whether `key` requests focusing the search input.
pub fn focuses_search(key: &KeyInput) -> (focus: bool)
    ensures
        focus == (key.code == KeyCode::Char('/') && key.plain),
{
    key.code == KeyCode::Char('/') && key.plain
}

/// Whether `key` leaves search-input focus without submitting.
pub fn leaves_search(key: &KeyInput) -> (leave: bool)
    ensures
        leave == (key.code == KeyCode::Esc),
{
    key.code == KeyCode::Esc
}

/// Whether `key` submits the search input.
pub fn submits_search(key: &KeyInput) -> (submit: bool)
    ensures
        submit == (key.code == KeyCode::Enter),
{
    key.code == KeyCode::Enter
}

/// Binding of a key owned by the Playing view's panes in the ultra-wide layout.
pub open spec fn spec_playing_pane_action<F, E, D>(
    key: KeyInput,
    pane: PlayingPane,
    ultra_wide: bool,
) -> Option<Action<F, E, D>> {
    if !ultra_wide || key.control {
        None
    } else if key.code == KeyCode::Char('h') || key.code == KeyCode::Char('l') || key.code == KeyCode::Left
        || key.code == KeyCode::Right {
        Some(Action::Playback(PlaybackAction::CyclePlayingPane))
    } else if pane != PlayingPane::Queue {
        None
    } else if key.code == KeyCode::Char('j') || key.code == KeyCode::Down {
        Some(Action::Navigation(NavigationAction::SelectNext))
    } else if key.code == KeyCode::Char('k') || key.code == KeyCode::Up {
        Some(Action::Navigation(NavigationAction::SelectPrevious))
    } else if key.code == KeyCode::Enter {
        Some(Action::Playback(PlaybackAction::PlaySelected))
    } else {
        None
    }
}

/// Route keys owned by the queue pane in the ultra-wide Playing layout.
pub fn playing_pane_action<F, E, D>(key: &KeyInput, pane: PlayingPane, ultra_wide: bool) -> (action: Option<
    Action<F, E, D>,
>)
    ensures
        action == spec_playing_pane_action::<F, E, D>(*key, pane, ultra_wide),
{
    if !ultra_wide || key.control {
        return None;
    }
    let code = key.code;
    if code == KeyCode::Char('h') || code == KeyCode::Char('l') || code == KeyCode::Left || code == KeyCode::Right {
        return Some(Action::Playback(PlaybackAction::CyclePlayingPane));
    }
    if pane != PlayingPane::Queue {
        return None;
    }
    if code == KeyCode::Char('j') || code == KeyCode::Down {
        Some(Action::Navigation(NavigationAction::SelectNext))
    } else if code == KeyCode::Char('k') || code == KeyCode::Up {
        Some(Action::Navigation(NavigationAction::SelectPrevious))
    } else if code == KeyCode::Enter {
        Some(Action::Playback(PlaybackAction::PlaySelected))
    } else {
        None
    }
}

/// Route a key by focus. `view_binding` is the active view's own binding
/// for the key, which takes precedence over the global one.
pub fn route<F, E, D>(key: &KeyInput, focus: Focus, view_binding: Option<Action<F, E, D>>) -> (action: Option<
    Action<F, E, D>,
>)
    ensures
        action == match focus {
            Focus::SearchInput => spec_search_input_action::<F, E, D>(*key),
            Focus::ListFilter => None,
            Focus::Content => if view_binding is Some {
                view_binding
            } else {
                spec_global_action::<F, E, D>(*key)
            },
        },
{
    match focus {
        Focus::SearchInput => search_input_action(key),
        Focus::ListFilter => None,
        Focus::Content => match view_binding {
            Some(action) => Some(action),
            None => global_action(key),
        },
    }
}

/// The overlay that owns keyboard input while it is open.
#[derive(PartialEq, Eq, Structural, Clone, Copy, Debug)]
pub enum ModalCapture {
    TrackContext,
    TrackDetails,
    NotificationLog,
    Settings,
    SearchDetails,
    Import,
    Confirm,
    PlaylistEditor,
    Prompt,
    Picker,
}

/// What a key does inside an overlay.
pub enum ModalKey<F, E, D> {
    Send(Action<F, E, D>),
    /// Close the notification log.
    CloseNotificationLog,
    Nothing,
}

/// Whether the key is Esc, or `j`/Down, `k`/Up and the like.
pub open spec fn is_down(code: KeyCode) -> bool {
    code == KeyCode::Char('j') || code == KeyCode::Down
}

pub open spec fn is_up(code: KeyCode) -> bool {
    code == KeyCode::Char('k') || code == KeyCode::Up
}

/// Binding of a key inside an overlay. `import_ready` is whether the
/// import overlay shows a fetched playlist ready to confirm, when an import is open.
pub open spec fn spec_modal_key<F, E, D>(
    capture: ModalCapture,
    key: KeyInput,
    import_ready: Option<bool>,
) -> ModalKey<F, E, D> {
    let code = key.code;
    match capture {
        ModalCapture::TrackContext => if code == KeyCode::Esc {
            ModalKey::Send(Action::Navigation(NavigationAction::CloseTrackContext))
        } else if is_down(code) {
            ModalKey::Send(Action::Navigation(NavigationAction::MoveTrackContext(1)))
        } else if is_up(code) {
            ModalKey::Send(Action::Navigation(NavigationAction::MoveTrackContext(-1i32)))
        } else if code == KeyCode::Enter {
            ModalKey::Send(Action::Navigation(NavigationAction::SubmitTrackContext))
        } else {
            ModalKey::Nothing
        },
        ModalCapture::TrackDetails => if code == KeyCode::Esc {
            ModalKey::Send(Action::Navigation(NavigationAction::CloseTrackDetails))
        } else {
            ModalKey::Nothing
        },
        ModalCapture::NotificationLog => if code == KeyCode::Esc || code == KeyCode::Char('!') || code
            == KeyCode::Char('q') || code == KeyCode::Enter {
            ModalKey::CloseNotificationLog
        } else {
            ModalKey::Nothing
        },
        ModalCapture::Settings => if code == KeyCode::Char('p') && key.control {
            ModalKey::Send(Action::Navigation(NavigationAction::CloseSettings))
        } else if code == KeyCode::Esc {
            ModalKey::Send(Action::Navigation(NavigationAction::CloseSettings))
        } else if code == KeyCode::Tab || code == KeyCode::BackTab {
            ModalKey::Send(Action::Navigation(NavigationAction::SettingsCycleTab))
        } else if is_down(code) {
            ModalKey::Send(Action::Navigation(NavigationAction::SettingsMove(1)))
        } else if is_up(code) {
            ModalKey::Send(Action::Navigation(NavigationAction::SettingsMove(-1i32)))
        } else if code == KeyCode::Char('l') || code == KeyCode::Right {
            ModalKey::Send(Action::Navigation(NavigationAction::SettingsAdjust(1)))
        } else if code == KeyCode::Char('h') || code == KeyCode::Left {
            ModalKey::Send(Action::Navigation(NavigationAction::SettingsAdjust(-1i32)))
        } else if code == KeyCode::Enter {
            ModalKey::Send(Action::Navigation(NavigationAction::SettingsSubmit))
        } else {
            ModalKey::Nothing
        },
        ModalCapture::SearchDetails => if code == KeyCode::Esc || code == KeyCode::Char('i') {
            ModalKey::Send(Action::Navigation(NavigationAction::ToggleSearchDetail))
        } else {
            ModalKey::Nothing
        },
        ModalCapture::Import => match import_ready {
            Some(ready) => if ready && code == KeyCode::Enter {
                ModalKey::Send(Action::Playlists(PlaylistAction::ConfirmImport))
            } else if code == KeyCode::Esc {
                ModalKey::Send(Action::Playlists(PlaylistAction::CancelImport))
            } else {
                ModalKey::Nothing
            },
            None => ModalKey::Nothing,
        },
        ModalCapture::Confirm => if code == KeyCode::Char('y') || code == KeyCode::Char('Y') {
            ModalKey::Send(Action::Playlists(PlaylistAction::ConfirmYes))
        } else if code == KeyCode::Char('n') || code == KeyCode::Char('N') || code == KeyCode::Esc {
            ModalKey::Send(Action::Playlists(PlaylistAction::ConfirmNo))
        } else {
            ModalKey::Nothing
        },
        ModalCapture::PlaylistEditor => match code {
            KeyCode::Enter => ModalKey::Send(Action::Playlists(PlaylistAction::PlaylistEditorSubmit)),
            KeyCode::Esc => ModalKey::Send(Action::Playlists(PlaylistAction::PlaylistEditorCancel)),
            KeyCode::Tab => ModalKey::Send(Action::Playlists(PlaylistAction::PlaylistEditorNextField)),
            KeyCode::BackTab => ModalKey::Send(Action::Playlists(PlaylistAction::PlaylistEditorNextField)),
            KeyCode::Backspace => ModalKey::Send(Action::Playlists(PlaylistAction::PlaylistEditorBackspace)),
            KeyCode::Char(c) => ModalKey::Send(Action::Playlists(PlaylistAction::PlaylistEditorInput(c))),
            _ => ModalKey::Nothing,
        },
        ModalCapture::Prompt => match code {
            KeyCode::Enter => ModalKey::Send(Action::Playlists(PlaylistAction::PromptSubmit)),
            KeyCode::Esc => ModalKey::Send(Action::Playlists(PlaylistAction::PromptCancel)),
            KeyCode::Backspace => ModalKey::Send(Action::Playlists(PlaylistAction::PromptBackspace)),
            KeyCode::Char(c) => ModalKey::Send(Action::Playlists(PlaylistAction::PromptInput(c))),
            _ => ModalKey::Nothing,
        },
        ModalCapture::Picker => match code {
            KeyCode::Enter => ModalKey::Send(Action::Playlists(PlaylistAction::PickerSubmit)),
            KeyCode::Esc => ModalKey::Send(Action::Playlists(PlaylistAction::PickerCancel)),
            KeyCode::Backspace => ModalKey::Send(Action::Playlists(PlaylistAction::PickerBackspace)),
            KeyCode::Down => ModalKey::Send(Action::Playlists(PlaylistAction::PickerNext)),
            KeyCode::Up => ModalKey::Send(Action::Playlists(PlaylistAction::PickerPrevious)),
            KeyCode::Char(c) => ModalKey::Send(Action::Playlists(PlaylistAction::PickerInput(c))),
            _ => ModalKey::Nothing,
        },
    }
}

/// Route one overlay-owned key.
pub fn modal_key<F, E, D>(capture: ModalCapture, key: &KeyInput, import_ready: Option<bool>) -> (outcome: ModalKey<F, E, D>)
    ensures
        outcome == spec_modal_key::<F, E, D>(capture, *key, import_ready),
{
    let code = key.code;
    let down = code == KeyCode::Char('j') || code == KeyCode::Down;
    let up = code == KeyCode::Char('k') || code == KeyCode::Up;
    match capture {
        ModalCapture::TrackContext => if code == KeyCode::Esc {
            ModalKey::Send(Action::Navigation(NavigationAction::CloseTrackContext))
        } else if down {
            ModalKey::Send(Action::Navigation(NavigationAction::MoveTrackContext(1)))
        } else if up {
            ModalKey::Send(Action::Navigation(NavigationAction::MoveTrackContext(-1)))
        } else if code == KeyCode::Enter {
            ModalKey::Send(Action::Navigation(NavigationAction::SubmitTrackContext))
        } else {
            ModalKey::Nothing
        },
        ModalCapture::TrackDetails => if code == KeyCode::Esc {
            ModalKey::Send(Action::Navigation(NavigationAction::CloseTrackDetails))
        } else {
            ModalKey::Nothing
        },
        ModalCapture::NotificationLog => if code == KeyCode::Esc || code == KeyCode::Char('!') || code
            == KeyCode::Char('q') || code == KeyCode::Enter {
            ModalKey::CloseNotificationLog
        } else {
            ModalKey::Nothing
        },
        ModalCapture::Settings => if code == KeyCode::Char('p') && key.control {
            ModalKey::Send(Action::Navigation(NavigationAction::CloseSettings))
        } else if code == KeyCode::Esc {
            ModalKey::Send(Action::Navigation(NavigationAction::CloseSettings))
        } else if code == KeyCode::Tab || code == KeyCode::BackTab {
            ModalKey::Send(Action::Navigation(NavigationAction::SettingsCycleTab))
        } else if down {
            ModalKey::Send(Action::Navigation(NavigationAction::SettingsMove(1)))
        } else if up {
            ModalKey::Send(Action::Navigation(NavigationAction::SettingsMove(-1)))
        } else if code == KeyCode::Char('l') || code == KeyCode::Right {
            ModalKey::Send(Action::Navigation(NavigationAction::SettingsAdjust(1)))
        } else if code == KeyCode::Char('h') || code == KeyCode::Left {
            ModalKey::Send(Action::Navigation(NavigationAction::SettingsAdjust(-1)))
        } else if code == KeyCode::Enter {
            ModalKey::Send(Action::Navigation(NavigationAction::SettingsSubmit))
        } else {
            ModalKey::Nothing
        },
        ModalCapture::SearchDetails => if code == KeyCode::Esc || code == KeyCode::Char('i') {
            ModalKey::Send(Action::Navigation(NavigationAction::ToggleSearchDetail))
        } else {
            ModalKey::Nothing
        },
        ModalCapture::Import => match import_ready {
            Some(ready) => if ready && code == KeyCode::Enter {
                ModalKey::Send(Action::Playlists(PlaylistAction::ConfirmImport))
            } else if code == KeyCode::Esc {
                ModalKey::Send(Action::Playlists(PlaylistAction::CancelImport))
            } else {
                ModalKey::Nothing
            },
            None => ModalKey::Nothing,
        },
        ModalCapture::Confirm => if code == KeyCode::Char('y') || code == KeyCode::Char('Y') {
            ModalKey::Send(Action::Playlists(PlaylistAction::ConfirmYes))
        } else if code == KeyCode::Char('n') || code == KeyCode::Char('N') || code == KeyCode::Esc {
            ModalKey::Send(Action::Playlists(PlaylistAction::ConfirmNo))
        } else {
            ModalKey::Nothing
        },
        ModalCapture::PlaylistEditor => match code {
            KeyCode::Enter => ModalKey::Send(Action::Playlists(PlaylistAction::PlaylistEditorSubmit)),
            KeyCode::Esc => ModalKey::Send(Action::Playlists(PlaylistAction::PlaylistEditorCancel)),
            KeyCode::Tab | KeyCode::BackTab => ModalKey::Send(Action::Playlists(PlaylistAction::PlaylistEditorNextField)),
            KeyCode::Backspace => ModalKey::Send(Action::Playlists(PlaylistAction::PlaylistEditorBackspace)),
            KeyCode::Char(c) => ModalKey::Send(Action::Playlists(PlaylistAction::PlaylistEditorInput(c))),
            _ => ModalKey::Nothing,
        },
        ModalCapture::Prompt => match code {
            KeyCode::Enter => ModalKey::Send(Action::Playlists(PlaylistAction::PromptSubmit)),
            KeyCode::Esc => ModalKey::Send(Action::Playlists(PlaylistAction::PromptCancel)),
            KeyCode::Backspace => ModalKey::Send(Action::Playlists(PlaylistAction::PromptBackspace)),
            KeyCode::Char(c) => ModalKey::Send(Action::Playlists(PlaylistAction::PromptInput(c))),
            _ => ModalKey::Nothing,
        },
        ModalCapture::Picker => match code {
            KeyCode::Enter => ModalKey::Send(Action::Playlists(PlaylistAction::PickerSubmit)),
            KeyCode::Esc => ModalKey::Send(Action::Playlists(PlaylistAction::PickerCancel)),
            KeyCode::Backspace => ModalKey::Send(Action::Playlists(PlaylistAction::PickerBackspace)),
            KeyCode::Down => ModalKey::Send(Action::Playlists(PlaylistAction::PickerNext)),
            KeyCode::Up => ModalKey::Send(Action::Playlists(PlaylistAction::PickerPrevious)),
            KeyCode::Char(c) => ModalKey::Send(Action::Playlists(PlaylistAction::PickerInput(c))),
            _ => ModalKey::Nothing,
        },
    }
}

/// Route bracketed paste: only a text prompt on top takes it.
pub fn paste_action<F, E, D>(capture: Option<ModalCapture>, text: String) -> (action: Option<Action<F, E, D>>)
    ensures
        action == (if capture == Some(ModalCapture::Prompt) {
            Some(Action::<F, E, D>::Playlists(PlaylistAction::PromptPaste(text)))
        } else {
            None
        }),
{
    match capture {
        Some(ModalCapture::Prompt) => Some(Action::Playlists(PlaylistAction::PromptPaste(text))),
        _ => None,
    }
}

/// Esc always leaves an overlay that takes text or a choice: it closes or
/// cancels every overlay except an import with nothing to cancel.
pub proof fn lemma_escape_leaves_overlays<F, E, D>(capture: ModalCapture, key: KeyInput, import_ready: Option<bool>)
    requires
        key.code == KeyCode::Esc,
        capture == ModalCapture::Import ==> import_ready is Some,
    ensures
        !(spec_modal_key::<F, E, D>(capture, key, import_ready) is Nothing),
{
}

/// Control-C quits from content and from the search input alike.
pub proof fn lemma_control_c_quits<F, E, D>(key: KeyInput)
    requires
        key.control,
        key.code == KeyCode::Char('c'),
    ensures
        spec_global_action::<F, E, D>(key) == Some(Action::<F, E, D>::Navigation(NavigationAction::Quit)),
        spec_search_input_action::<F, E, D>(key) == Some(Action::<F, E, D>::Navigation(NavigationAction::Quit)),
{
}

/// The key a global action is bound to, read back from the action; a space
/// for actions no character key is bound to.
pub open spec fn bound_char<F, E, D>(action: Action<F, E, D>) -> char {
    match action {
        Action::Navigation(NavigationAction::Navigate(AppView::Home)) => '1',
        Action::Navigation(NavigationAction::Navigate(AppView::Search)) => '2',
        Action::Navigation(NavigationAction::Navigate(AppView::Queue)) => '3',
        Action::Navigation(NavigationAction::Navigate(AppView::Playlists)) => '4',
        Action::Navigation(NavigationAction::Navigate(AppView::History)) => '5',
        Action::Navigation(NavigationAction::Navigate(AppView::NowPlaying)) => '6',
        Action::Playback(PlaybackAction::PlayPause) => ' ',
        Action::Playback(PlaybackAction::NextTrack) => 'n',
        Action::Playback(PlaybackAction::PreviousTrack) => 'b',
        Action::Playback(PlaybackAction::VolumeUp) => '+',
        Action::Playback(PlaybackAction::VolumeDown) => '-',
        Action::Playback(PlaybackAction::ToggleMute) => 'm',
        Action::Playback(PlaybackAction::ToggleShuffle) => 's',
        Action::Playback(PlaybackAction::CycleRepeat) => 'r',
        Action::Playback(PlaybackAction::SeekBackward) => 'h',
        Action::Playback(PlaybackAction::SeekForward) => 'l',
        Action::Playback(PlaybackAction::SeekBackwardLarge) => 'H',
        Action::Playback(PlaybackAction::SeekForwardLarge) => 'L',
        Action::Playback(PlaybackAction::NextChapter) => '.',
        Action::Playback(PlaybackAction::PreviousChapter) => ',',
        Action::Playback(PlaybackAction::SpeedUp) => '>',
        Action::Playback(PlaybackAction::SpeedDown) => '<',
        Action::Playback(PlaybackAction::SpeedReset) => '=',
        Action::Playback(PlaybackAction::CycleSleepTimer) => 'Z',
        Action::Playback(PlaybackAction::ToggleRadio) => 't',
        Action::History(HistoryAction::ToggleNotificationLog) => '!',
        Action::Navigation(NavigationAction::OpenHelp) => '?',
        Action::Navigation(NavigationAction::Quit) => 'q',
        Action::Navigation(NavigationAction::SelectNext) => 'j',
        Action::Navigation(NavigationAction::SelectPrevious) => 'k',
        _ => ' ',
    }
}

/// Distinct keys are bound to distinct global actions: every character
/// key's binding reads back as that key, so no two keys share an action
/// (`b` goes back while `n` skips ahead, `h` and `l` seek opposite ways).
pub proof fn lemma_global_keys_are_distinct<F, E, D>(c: char, d: char)
    ensures
        global_char_action::<F, E, D>(c) matches Some(action) ==> bound_char(action) == c,
        global_char_action::<F, E, D>(c) is Some && global_char_action::<F, E, D>(c) == global_char_action::<F, E, D>(d)
            ==> c == d,
{
}

/// The playback keys: space plays or pauses, `n` skips to the next track and
/// `b` goes back to the previous one, with or without other modifiers as
/// long as control is not held; with control held `b` and `n` do nothing.
pub proof fn lemma_playback_keys<F, E, D>(plain: bool)
    ensures
        spec_global_action::<F, E, D>(KeyInput { code: KeyCode::Char('n'), control: false, plain: plain })
            == Some(Action::<F, E, D>::Playback(PlaybackAction::NextTrack)),
        spec_global_action::<F, E, D>(KeyInput { code: KeyCode::Char('b'), control: false, plain: plain })
            == Some(Action::<F, E, D>::Playback(PlaybackAction::PreviousTrack)),
        spec_global_action::<F, E, D>(KeyInput { code: KeyCode::Char(' '), control: false, plain: plain })
            == Some(Action::<F, E, D>::Playback(PlaybackAction::PlayPause)),
        spec_global_action::<F, E, D>(KeyInput { code: KeyCode::Char('n'), control: true, plain: plain }) is None,
        spec_global_action::<F, E, D>(KeyInput { code: KeyCode::Char('b'), control: true, plain: plain }) is None,
{
}

} // verus!
