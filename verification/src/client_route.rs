//! Client-mode action routing: every action either stays a local UI
//! transition, becomes a daemon command with its selected context
//! resolved against the mirror, or is explicitly deferred or ignored.

use vstd::prelude::*;

use crate::actions::{
    Action, HistoryAction, NavigationAction, PlaybackAction, PlaylistAction, QueueAction,
};
use crate::media::{Playlist, Track};
use crate::mirror::DomainState;
use crate::state::{AppView, HistoryViewMode, PlayingPane};

verus! {

/// Commands a client sends to the daemon. `F` is the type of real-valued seconds.
#[derive(Debug)]
pub enum Command<F> {
    Status,
    Shutdown,
    PlayPause,
    Stop,
    Next,
    Previous,
    Seek { seconds: i32 },
    SeekAbsolute { seconds: F },
    Volume { delta: i32 },
    ToggleMute,
    ToggleShuffle,
    CycleRepeat,
    SpeedUp,
    SpeedDown,
    SpeedReset,
    CycleSleepTimer,
    ToggleRadio,
    PlayTrack { track: Track },
    PlayQueuePosition { position: usize },
    Resume { track: Track, position_seconds: F },
    PlayQuery { query: String },
    QueueAdd { track: Track, next: bool },
    QueueRemove { order_index: usize, expected_revision: u64 },
    QueueMove { from: usize, to: usize },
    QueueClear,
    QueueUndo,
    PlaylistLoad { id: String, append: bool },
    PlaylistDelete { id: String },
    PlaylistCreate { name: String },
    SaveQueueAsPlaylist { name: String },
    PlaylistRemoveTrack { playlist_id: String, track_index: usize, expected_revision: u64 },
    PlaylistRename { id: String, name: String },
    PlaylistAddTrack { playlist_id: String, track: Track },
    PlaylistAddTrackNew { name: String, track: Track },
    PlaylistEdit { id: String, name: String, description: String },
    PlaylistMoveTrack { id: String, from: usize, to: usize },
    ImportStart { url: String },
    ImportConfirm,
    ImportCancel,
    ImportJson { json: String },
    HistoryClear,
    ActivityClear,
    HistoryDelete { index: usize, expected_track_id: String },
    ChannelPage,
    Search { query: String },
    SearchExact { url: String },
}

/// Where a client-mode action goes.
#[derive(Debug)]
pub enum Route<F> {
    /// Apply through the local reducer/service path (UI-only work).
    Local,
    /// End the client loop without persisting anything.
    Quit,
    /// Send to the daemon; the mirror updates via broadcast events.
    Send(Command<F>),
    /// Client-owned search: mark the mirror as searching, then send.
    Search { query: String, exact: bool },
    /// Prompt submission is purpose-dependent; the runtime resolves it.
    PromptSubmit,
    /// Picker submission resolves its candidate list in the runtime.
    PickerSubmit,
    /// Playlist-editor submission resolves the selected id in the runtime.
    EditorSubmit,
    /// Open the channel browser: the runtime records the return snapshot.
    OpenChannel(Track),
    /// Leave the channel browser: the runtime restores its snapshot.
    ChannelBack,
    /// Blocked by a state guard; the runtime shows the message.
    Deferred(&'static str),
    /// Daemon-internal completion or no-op in client mode.
    Ignore,
}

/// The UI facts routing reads.
pub struct RouteUi {
    pub view: AppView,
    pub playing_pane: PlayingPane,
    /// Whether the screen is wide enough for the split Playing layout.
    pub ultra_wide: bool,
    /// Selected row of the visible list.
    pub selected_index: usize,
    /// Store indices of the rows a list filter shows, when one is active.
    pub visible_indices: Option<Vec<usize>>,
    /// Playlist opened in the detail view.
    pub selected_playlist: Option<usize>,
    pub history_view_mode: HistoryViewMode,
}

/// Message shown when reordering is blocked by an active filter.
pub const FILTER_BLOCKS_REORDER: &'static str = "Clear the filter (Esc) to reorder";
/// Message shown when history deletion needs the recent view.
pub const RECENT_VIEW_REQUIRED: &'static str = "Switch to recent (g) to delete entries";

/// Store index of a visible row: through the filter mapping when one is
/// active and covers the row, else the row itself.
pub open spec fn spec_resolve_index(ui: RouteUi, index: usize) -> usize {
    match ui.visible_indices {
        Some(visible) => if index < visible@.len() {
            visible@[index as int]
        } else {
            index
        },
        None => index,
    }
}

/// Store index of a visible row.
pub fn resolve_index(ui: &RouteUi, index: usize) -> (resolved: usize)
    ensures
        resolved == spec_resolve_index(*ui, index),
{
    match &ui.visible_indices {
        Some(visible) => if index < visible.len() {
            visible[index]
        } else {
            index
        },
        None => index,
    }
}

/// `from + delta`, saturated to the range of `usize`.
pub open spec fn offset_saturating(from: usize, delta: i32) -> usize {
    if from + delta < 0 {
        0
    } else if from + delta > usize::MAX {
        usize::MAX
    } else {
        (from + delta) as usize
    }
}

/// `from + delta`, saturated to the range of `usize`.
pub fn add_signed_saturating(from: usize, delta: i32) -> (moved: usize)
    ensures
        moved == offset_saturating(from, delta),
{
    if delta >= 0 {
        from.saturating_add(delta as usize)
    } else {
        let back: usize = (0 - (delta as i64)) as usize;
        from.saturating_sub(back)
    }
}

/// Target row of moving row `from` by `delta` in a list of `len` rows.
pub open spec fn move_target(from: usize, delta: i32, len: usize) -> usize {
    let last: usize = if len == 0 {
        0
    } else {
        (len - 1) as usize
    };
    let moved = offset_saturating(from, delta);
    if moved < last {
        moved
    } else {
        last
    }
}

/// Target row of moving row `from` by `delta` in a list of `len` rows.
pub fn move_target_index(from: usize, delta: i32, len: usize) -> (to: usize)
    ensures
        to == move_target(from, delta, len),
{
    let last = len.saturating_sub(1);
    let moved = add_signed_saturating(from, delta);
    if moved < last {
        moved
    } else {
        last
    }
}

/// Route of a navigation action.
pub open spec fn spec_route_navigation<F>(action: NavigationAction) -> Route<F> {
    match action {
        NavigationAction::Quit => Route::Quit,
        NavigationAction::SubmitSearch(query) => Route::Search { query: query, exact: false },
        NavigationAction::SubmitExactVideo(url) => Route::Search { query: url, exact: true },
        NavigationAction::VisitChannel(track) => Route::OpenChannel(track),
        NavigationAction::LoadMoreChannel => Route::Send(Command::ChannelPage),
        NavigationAction::RetryChannel => Route::Send(Command::ChannelPage),
        NavigationAction::BackFromChannel => Route::ChannelBack,
        NavigationAction::ChannelResolved { .. } => Route::Ignore,
        NavigationAction::ChannelPageLoaded { .. } => Route::Ignore,
        NavigationAction::SearchCompleted { .. } => Route::Ignore,
        NavigationAction::SearchFailed { .. } => Route::Ignore,
        _ => Route::Local,
    }
}

/// Route a navigation action.
pub fn route_navigation<F>(action: &NavigationAction) -> (route: Route<F>)
    ensures
        route == spec_route_navigation::<F>(*action),
{
    match action {
        NavigationAction::Quit => Route::Quit,
        NavigationAction::SubmitSearch(query) => Route::Search { query: query.clone(), exact: false },
        NavigationAction::SubmitExactVideo(url) => Route::Search { query: url.clone(), exact: true },
        NavigationAction::VisitChannel(track) => Route::OpenChannel(track.duplicate()),
        NavigationAction::LoadMoreChannel | NavigationAction::RetryChannel => Route::Send(Command::ChannelPage),
        NavigationAction::BackFromChannel => Route::ChannelBack,
        NavigationAction::ChannelResolved { .. }
        | NavigationAction::ChannelPageLoaded { .. }
        | NavigationAction::SearchCompleted { .. }
        | NavigationAction::SearchFailed { .. } => Route::Ignore,
        NavigationAction::Navigate(_)
        | NavigationAction::OpenHelp
        | NavigationAction::CloseHelp
        | NavigationAction::ScrollHelp(_)
        | NavigationAction::NextView
        | NavigationAction::PreviousView
        | NavigationAction::CycleHomeSection(_)
        | NavigationAction::SearchInput(_)
        | NavigationAction::SearchBackspace
        | NavigationAction::ClearSearch
        | NavigationAction::ToggleSearchDetail
        | NavigationAction::OpenInBrowser
        | NavigationAction::ExternalCommandCompleted { .. }
        | NavigationAction::OpenTrackContext
        | NavigationAction::CloseTrackContext
        | NavigationAction::MoveTrackContext(_)
        | NavigationAction::SubmitTrackContext
        | NavigationAction::ShowTrackDetails(_)
        | NavigationAction::CloseTrackDetails
        | NavigationAction::OpenSettings
        | NavigationAction::CloseSettings
        | NavigationAction::SettingsCycleTab
        | NavigationAction::SettingsMove(_)
        | NavigationAction::SettingsAdjust(_)
        | NavigationAction::SettingsSubmit
        | NavigationAction::SelectNext
        | NavigationAction::SelectPrevious => Route::Local,
    }
}

/// Whether Enter in the current view plays a queue position.
pub open spec fn spec_queue_pane(ui: RouteUi) -> bool {
    ui.view == AppView::Queue || (ui.view == AppView::NowPlaying && ui.playing_pane
        == PlayingPane::Queue && ui.ultra_wide)
}

/// Route of playing the selection; `selected` is the track the selection resolves to.
pub open spec fn spec_route_play_selected<F, P, D, I>(
    ui: RouteUi,
    domain: DomainState<P, D, I>,
    selected: Option<Track>,
) -> Route<F> {
    if spec_queue_pane(ui) {
        let position = spec_resolve_index(ui, ui.selected_index);
        if position < domain.queue.order@.len() {
            Route::Send(Command::PlayQueuePosition { position: position })
        } else {
            Route::Ignore
        }
    } else {
        match selected {
            Some(track) => Route::Send(Command::PlayTrack { track: track }),
            None => Route::Ignore,
        }
    }
}

/// Route playing the selection: queue views jump by play-order position,
/// other views play the track the selection resolves to.
pub fn route_play_selected<F, P, D, I>(
    ui: &RouteUi,
    domain: &DomainState<P, D, I>,
    selected: Option<Track>,
) -> (route: Route<F>)
    ensures
        route == spec_route_play_selected::<F, P, D, I>(*ui, *domain, selected),
{
    let queue_pane = ui.view == AppView::Queue || (ui.view == AppView::NowPlaying && ui.playing_pane
        == PlayingPane::Queue && ui.ultra_wide);
    if queue_pane {
        let position = resolve_index(ui, ui.selected_index);
        if position < domain.queue.order.len() {
            return Route::Send(Command::PlayQueuePosition { position });
        }
        return Route::Ignore;
    }
    match selected {
        Some(track) => Route::Send(Command::PlayTrack { track }),
        None => Route::Ignore,
    }
}

/// Route of a playback action; `seek_target` is the absolute position the
/// timeline or chapter actions resolve to, when there is one.
pub open spec fn spec_route_playback<F, E, D, P, I, DD>(
    action: PlaybackAction<F, E, D>,
    ui: RouteUi,
    domain: DomainState<P, DD, I>,
    selected: Option<Track>,
    seek_target: Option<F>,
) -> Route<F> {
    match action {
        PlaybackAction::PlayPause => Route::Send(Command::PlayPause),
        PlaybackAction::Stop => Route::Send(Command::Stop),
        PlaybackAction::NextTrack => Route::Send(Command::Next),
        PlaybackAction::PreviousTrack => Route::Send(Command::Previous),
        PlaybackAction::SeekForward => Route::Send(Command::Seek { seconds: 5 }),
        PlaybackAction::SeekBackward => Route::Send(Command::Seek { seconds: -5i32 }),
        PlaybackAction::SeekForwardLarge => Route::Send(Command::Seek { seconds: 30 }),
        PlaybackAction::SeekBackwardLarge => Route::Send(Command::Seek { seconds: -30i32 }),
        PlaybackAction::SeekBy(seconds) => Route::Send(Command::Seek { seconds: seconds }),
        PlaybackAction::SeekToSeconds(seconds) => Route::Send(Command::SeekAbsolute { seconds: seconds }),
        PlaybackAction::SeekToFraction(_) => seek_route(seek_target),
        PlaybackAction::NextChapter => seek_route(seek_target),
        PlaybackAction::PreviousChapter => seek_route(seek_target),
        PlaybackAction::VolumeUp => Route::Send(Command::Volume { delta: 2 }),
        PlaybackAction::VolumeDown => Route::Send(Command::Volume { delta: -2i32 }),
        PlaybackAction::VolumeBy(delta) => Route::Send(Command::Volume { delta: delta }),
        PlaybackAction::ToggleMute => Route::Send(Command::ToggleMute),
        PlaybackAction::ToggleShuffle => Route::Send(Command::ToggleShuffle),
        PlaybackAction::CycleRepeat => Route::Send(Command::CycleRepeat),
        PlaybackAction::SpeedUp => Route::Send(Command::SpeedUp),
        PlaybackAction::SpeedDown => Route::Send(Command::SpeedDown),
        PlaybackAction::SpeedReset => Route::Send(Command::SpeedReset),
        PlaybackAction::CycleSleepTimer => Route::Send(Command::CycleSleepTimer),
        PlaybackAction::ToggleRadio => Route::Send(Command::ToggleRadio),
        PlaybackAction::PlayTrack(track) => Route::Send(Command::PlayTrack { track: track }),
        PlaybackAction::PlayQueuePosition(position) => Route::Send(
            Command::PlayQueuePosition { position: position },
        ),
        PlaybackAction::ResumeTrack { track, position_seconds } => Route::Send(
            Command::Resume { track: track, position_seconds: position_seconds },
        ),
        PlaybackAction::PlaySelected => spec_route_play_selected(ui, domain, selected),
        PlaybackAction::ScrollNowPlaying(_) => Route::Local,
        PlaybackAction::ToggleNowPlayingPane => Route::Local,
        PlaybackAction::CyclePlayingPane => Route::Local,
        PlaybackAction::ThumbnailLoaded { .. } => Route::Local,
        PlaybackAction::SearchThumbnailLoaded { .. } => Route::Local,
        _ => Route::Ignore,
    }
}

/// A seek to the resolved target, or nothing when there is none.
pub open spec fn seek_route<F>(seek_target: Option<F>) -> Route<F> {
    match seek_target {
        Some(seconds) => Route::Send(Command::SeekAbsolute { seconds: seconds }),
        None => Route::Ignore,
    }
}

/// Route a playback action. Timeline clicks and chapter jumps need the
/// position they resolve to against the mirrored playhead, given as
/// `seek_target`; every other action ignores it.
pub fn route_playback<F, E, D, P, I, DD>(
    action: PlaybackAction<F, E, D>,
    ui: &RouteUi,
    domain: &DomainState<P, DD, I>,
    selected: Option<Track>,
    seek_target: Option<F>,
) -> (route: Route<F>)
    ensures
        route == spec_route_playback(action, *ui, *domain, selected, seek_target),
{
    match action {
        PlaybackAction::PlayPause => Route::Send(Command::PlayPause),
        PlaybackAction::Stop => Route::Send(Command::Stop),
        PlaybackAction::NextTrack => Route::Send(Command::Next),
        PlaybackAction::PreviousTrack => Route::Send(Command::Previous),
        PlaybackAction::SeekForward => Route::Send(Command::Seek { seconds: 5 }),
        PlaybackAction::SeekBackward => Route::Send(Command::Seek { seconds: -5 }),
        PlaybackAction::SeekForwardLarge => Route::Send(Command::Seek { seconds: 30 }),
        PlaybackAction::SeekBackwardLarge => Route::Send(Command::Seek { seconds: -30 }),
        PlaybackAction::SeekBy(seconds) => Route::Send(Command::Seek { seconds }),
        PlaybackAction::SeekToSeconds(seconds) => Route::Send(Command::SeekAbsolute { seconds }),
        PlaybackAction::SeekToFraction(_) | PlaybackAction::NextChapter | PlaybackAction::PreviousChapter => {
            match seek_target {
                Some(seconds) => Route::Send(Command::SeekAbsolute { seconds }),
                None => Route::Ignore,
            }
        },
        PlaybackAction::VolumeUp => Route::Send(Command::Volume { delta: 2 }),
        PlaybackAction::VolumeDown => Route::Send(Command::Volume { delta: -2 }),
        PlaybackAction::VolumeBy(delta) => Route::Send(Command::Volume { delta }),
        PlaybackAction::ToggleMute => Route::Send(Command::ToggleMute),
        PlaybackAction::ToggleShuffle => Route::Send(Command::ToggleShuffle),
        PlaybackAction::CycleRepeat => Route::Send(Command::CycleRepeat),
        PlaybackAction::SpeedUp => Route::Send(Command::SpeedUp),
        PlaybackAction::SpeedDown => Route::Send(Command::SpeedDown),
        PlaybackAction::SpeedReset => Route::Send(Command::SpeedReset),
        PlaybackAction::CycleSleepTimer => Route::Send(Command::CycleSleepTimer),
        PlaybackAction::ToggleRadio => Route::Send(Command::ToggleRadio),
        PlaybackAction::PlayTrack(track) => Route::Send(Command::PlayTrack { track }),
        PlaybackAction::PlayQueuePosition(position) => Route::Send(Command::PlayQueuePosition { position }),
        PlaybackAction::ResumeTrack { track, position_seconds } => Route::Send(
            Command::Resume { track, position_seconds },
        ),
        PlaybackAction::PlaySelected => route_play_selected(ui, domain, selected),
        // Presentation-only transitions and local thumbnail completions.
        PlaybackAction::ScrollNowPlaying(_)
        | PlaybackAction::ToggleNowPlayingPane
        | PlaybackAction::CyclePlayingPane
        | PlaybackAction::ThumbnailLoaded { .. }
        | PlaybackAction::SearchThumbnailLoaded { .. } => Route::Local,
        // Daemon-internal completions and supervision results never arise
        // from client input.
        PlaybackAction::SessionStreamResolved { .. }
        | PlaybackAction::SessionResolveFailed { .. }
        | PlaybackAction::PlaybackResolveStarted { .. }
        | PlaybackAction::PlaybackResolved { .. }
        | PlaybackAction::PlaybackResolveFailed { .. }
        | PlaybackAction::PlaybackEvent(_)
        | PlaybackAction::DetailsStarted { .. }
        | PlaybackAction::DetailsLoaded { .. }
        | PlaybackAction::DetailsFailed { .. }
        | PlaybackAction::PrefetchResolved { .. }
        | PlaybackAction::RadioRefillStarted { .. }
        | PlaybackAction::RadioTracksLoaded { .. }
        | PlaybackAction::MixLoaded { .. }
        | PlaybackAction::RepeatChanged(_) => Route::Ignore,
    }
}

/// Route of loading the selected playlist into the queue.
pub open spec fn spec_selected_playlist_load<F, P, D, I>(
    ui: RouteUi,
    domain: DomainState<P, D, I>,
    append: bool,
) -> Route<F> {
    let index = spec_resolve_index(ui, ui.selected_index);
    if index < domain.playlists@.len() {
        Route::Send(Command::PlaylistLoad { id: domain.playlists@[index as int].id, append: append })
    } else {
        Route::Ignore
    }
}

/// Route loading (or appending) the selected playlist into the queue.
pub fn selected_playlist_load<F, P, D, I>(
    ui: &RouteUi,
    domain: &DomainState<P, D, I>,
    append: bool,
) -> (route: Route<F>)
    ensures
        route == spec_selected_playlist_load::<F, P, D, I>(*ui, *domain, append),
{
    let index = resolve_index(ui, ui.selected_index);
    if index < domain.playlists.len() {
        Route::Send(Command::PlaylistLoad { id: domain.playlists[index].id.clone(), append })
    } else {
        Route::Ignore
    }
}

/// Route of a queue action; `selected` is the track the selection resolves to.
pub open spec fn spec_route_queue<F, P, D, I>(
    action: QueueAction,
    ui: RouteUi,
    domain: DomainState<P, D, I>,
    selected: Option<Track>,
) -> Route<F> {
    match action {
        QueueAction::AddToQueue(track) => Route::Send(Command::QueueAdd { track: track, next: false }),
        QueueAction::AddNext(track) => Route::Send(Command::QueueAdd { track: track, next: true }),
        QueueAction::AddSelectedToQueue => match selected {
            Some(track) => Route::Send(Command::QueueAdd { track: track, next: false }),
            None => Route::Ignore,
        },
        QueueAction::AddSelectedAsNext => match selected {
            Some(track) => Route::Send(Command::QueueAdd { track: track, next: true }),
            None => Route::Ignore,
        },
        QueueAction::RemoveSelectedFromQueue => if ui.view != AppView::Queue {
            Route::Ignore
        } else {
            Route::Send(
                Command::QueueRemove {
                    order_index: spec_resolve_index(ui, ui.selected_index),
                    expected_revision: domain.queue_revision,
                },
            )
        },
        QueueAction::RemoveTrackOccurrence { order_index, expected_revision, .. } => Route::Send(
            Command::QueueRemove { order_index: order_index, expected_revision: expected_revision },
        ),
        QueueAction::UndoQueueRemoval => Route::Send(Command::QueueUndo),
        QueueAction::MoveSelectedInQueue(delta) => if ui.visible_indices is Some {
            Route::Deferred(FILTER_BLOCKS_REORDER)
        } else {
            let len = domain.queue.order@.len() as usize;
            let from = ui.selected_index;
            let to = move_target(from, delta, len);
            if ui.view == AppView::Queue && len > 1 && from != to {
                Route::Send(Command::QueueMove { from: from, to: to })
            } else {
                Route::Ignore
            }
        },
        QueueAction::MoveTrack { from, to } => Route::Send(Command::QueueMove { from: from, to: to }),
        QueueAction::ClearQueue => Route::Local,
        QueueAction::ClearQueueConfirmed => Route::Send(Command::QueueClear),
        QueueAction::LoadSelectedPlaylistIntoQueue => spec_selected_playlist_load(ui, domain, false),
        QueueAction::AppendSelectedPlaylistToQueue => spec_selected_playlist_load(ui, domain, true),
        QueueAction::QueueLoaded(_) => Route::Ignore,
        QueueAction::QueueExhausted => Route::Ignore,
    }
}

/// Route a queue action against the mirrored queue.
pub fn route_queue<F, P, D, I>(
    action: &QueueAction,
    ui: &RouteUi,
    domain: &DomainState<P, D, I>,
    selected: Option<Track>,
) -> (route: Route<F>)
    ensures
        route == spec_route_queue::<F, P, D, I>(*action, *ui, *domain, selected),
{
    match action {
        QueueAction::AddToQueue(track) => Route::Send(Command::QueueAdd { track: track.duplicate(), next: false }),
        QueueAction::AddNext(track) => Route::Send(Command::QueueAdd { track: track.duplicate(), next: true }),
        QueueAction::AddSelectedToQueue => match selected {
            Some(track) => Route::Send(Command::QueueAdd { track, next: false }),
            None => Route::Ignore,
        },
        QueueAction::AddSelectedAsNext => match selected {
            Some(track) => Route::Send(Command::QueueAdd { track, next: true }),
            None => Route::Ignore,
        },
        QueueAction::RemoveSelectedFromQueue => {
            if ui.view != AppView::Queue {
                return Route::Ignore;
            }
            Route::Send(
                Command::QueueRemove {
                    order_index: resolve_index(ui, ui.selected_index),
                    expected_revision: domain.queue_revision,
                },
            )
        },
        QueueAction::RemoveTrackOccurrence { order_index, expected_revision, .. } => Route::Send(
            Command::QueueRemove { order_index: *order_index, expected_revision: *expected_revision },
        ),
        QueueAction::UndoQueueRemoval => Route::Send(Command::QueueUndo),
        QueueAction::MoveSelectedInQueue(delta) => {
            if ui.visible_indices.is_some() {
                return Route::Deferred(FILTER_BLOCKS_REORDER);
            }
            let len = domain.queue.order.len();
            let from = ui.selected_index;
            let to = move_target_index(from, *delta, len);
            if ui.view == AppView::Queue && len > 1 && from != to {
                Route::Send(Command::QueueMove { from, to })
            } else {
                Route::Ignore
            }
        },
        QueueAction::MoveTrack { from, to } => Route::Send(Command::QueueMove { from: *from, to: *to }),
        QueueAction::ClearQueue => Route::Local,
        QueueAction::ClearQueueConfirmed => Route::Send(Command::QueueClear),
        QueueAction::LoadSelectedPlaylistIntoQueue => selected_playlist_load(ui, domain, false),
        QueueAction::AppendSelectedPlaylistToQueue => selected_playlist_load(ui, domain, true),
        QueueAction::QueueLoaded(_) | QueueAction::QueueExhausted => Route::Ignore,
    }
}

/// The playlist opened in the detail view, when it exists.
pub open spec fn detail_playlist<P, D, I>(ui: RouteUi, domain: DomainState<P, D, I>) -> Option<Playlist> {
    match ui.selected_playlist {
        Some(index) => if index < domain.playlists@.len() {
            Some(domain.playlists@[index as int])
        } else {
            None
        },
        None => None,
    }
}

/// Route of a playlist action.
pub open spec fn spec_route_playlists<F, P, D, I>(
    action: PlaylistAction,
    ui: RouteUi,
    domain: DomainState<P, D, I>,
) -> Route<F> {
    match action {
        PlaylistAction::LoadPlaylistIntoQueue(id) => Route::Send(Command::PlaylistLoad { id: id, append: false }),
        PlaylistAction::AppendPlaylistToQueue(id) => Route::Send(Command::PlaylistLoad { id: id, append: true }),
        PlaylistAction::DeletePlaylistConfirmed(id) => Route::Send(Command::PlaylistDelete { id: id }),
        PlaylistAction::CreatePlaylist(name) => Route::Send(Command::PlaylistCreate { name: name }),
        PlaylistAction::SaveQueueAsPlaylist(name) => Route::Send(Command::SaveQueueAsPlaylist { name: name }),
        PlaylistAction::RemoveTrackOccurrence { playlist_id, track_index, expected_revision } => Route::Send(
            Command::PlaylistRemoveTrack {
                playlist_id: playlist_id,
                track_index: track_index,
                expected_revision: expected_revision,
            },
        ),
        PlaylistAction::RemoveSelectedFromPlaylist => if ui.view != AppView::PlaylistDetail {
            Route::Ignore
        } else {
            match detail_playlist(ui, domain) {
                Some(playlist) => Route::Send(
                    Command::PlaylistRemoveTrack {
                        playlist_id: playlist.id,
                        track_index: spec_resolve_index(ui, ui.selected_index),
                        expected_revision: domain.playlists_revision,
                    },
                ),
                None => Route::Ignore,
            }
        },
        PlaylistAction::PromptSubmit => Route::PromptSubmit,
        PlaylistAction::PickerSubmit => Route::PickerSubmit,
        PlaylistAction::PlaylistEditorSubmit => Route::EditorSubmit,
        PlaylistAction::RenameSelectedPlaylist(name) => {
            let index = spec_resolve_index(ui, ui.selected_index);
            if index < domain.playlists@.len() {
                Route::Send(Command::PlaylistRename { id: domain.playlists@[index as int].id, name: name })
            } else {
                Route::Ignore
            }
        },
        PlaylistAction::AddTrackToPlaylist { playlist_id, track } => Route::Send(
            Command::PlaylistAddTrack { playlist_id: playlist_id, track: track },
        ),
        PlaylistAction::AddTrackToNewPlaylist { name, track } => Route::Send(
            Command::PlaylistAddTrackNew { name: name, track: track },
        ),
        PlaylistAction::RenamePlaylist { id, name } => Route::Send(Command::PlaylistRename { id: id, name: name }),
        PlaylistAction::EditPlaylist { id, name, description } => Route::Send(
            Command::PlaylistEdit { id: id, name: name, description: description },
        ),
        PlaylistAction::MoveTrackInPlaylist { id, from, to } => Route::Send(
            Command::PlaylistMoveTrack { id: id, from: from, to: to },
        ),
        PlaylistAction::MoveSelectedInPlaylist(delta) => if ui.view != AppView::PlaylistDetail {
            Route::Ignore
        } else if ui.visible_indices is Some {
            Route::Deferred(FILTER_BLOCKS_REORDER)
        } else {
            match detail_playlist(ui, domain) {
                Some(playlist) => {
                    let len = playlist.tracks@.len() as usize;
                    let from = ui.selected_index;
                    let to = move_target(from, delta, len);
                    if len > 1 && from < len && from != to {
                        Route::Send(Command::PlaylistMoveTrack { id: playlist.id, from: from, to: to })
                    } else {
                        Route::Ignore
                    }
                },
                None => Route::Ignore,
            }
        },
        PlaylistAction::StartImport(url) => Route::Send(Command::ImportStart { url: url }),
        PlaylistAction::ConfirmImport => Route::Send(Command::ImportConfirm),
        PlaylistAction::CancelImport => Route::Send(Command::ImportCancel),
        PlaylistAction::ImportPlaylistsJson(json) => Route::Send(Command::ImportJson { json: json }),
        PlaylistAction::ImportStarted { .. } => Route::Ignore,
        PlaylistAction::ImportCompleted { .. } => Route::Ignore,
        PlaylistAction::ImportFailed { .. } => Route::Ignore,
        PlaylistAction::PlaylistSaved(_) => Route::Ignore,
        _ => Route::Local,
    }
}

/// Route a playlist action against the mirrored playlists.
pub fn route_playlists<F, P, D, I>(
    action: &PlaylistAction,
    ui: &RouteUi,
    domain: &DomainState<P, D, I>,
) -> (route: Route<F>)
    ensures
        route == spec_route_playlists::<F, P, D, I>(*action, *ui, *domain),
{
    match action {
        PlaylistAction::LoadPlaylistIntoQueue(id) => Route::Send(Command::PlaylistLoad { id: id.clone(), append: false }),
        PlaylistAction::AppendPlaylistToQueue(id) => Route::Send(Command::PlaylistLoad { id: id.clone(), append: true }),
        PlaylistAction::DeletePlaylistConfirmed(id) => Route::Send(Command::PlaylistDelete { id: id.clone() }),
        PlaylistAction::CreatePlaylist(name) => Route::Send(Command::PlaylistCreate { name: name.clone() }),
        PlaylistAction::SaveQueueAsPlaylist(name) => Route::Send(Command::SaveQueueAsPlaylist { name: name.clone() }),
        PlaylistAction::RemoveTrackOccurrence { playlist_id, track_index, expected_revision } => Route::Send(
            Command::PlaylistRemoveTrack {
                playlist_id: playlist_id.clone(),
                track_index: *track_index,
                expected_revision: *expected_revision,
            },
        ),
        PlaylistAction::RemoveSelectedFromPlaylist => {
            if ui.view != AppView::PlaylistDetail {
                return Route::Ignore;
            }
            let index = match ui.selected_playlist {
                Some(index) => index,
                None => return Route::Ignore,
            };
            if index >= domain.playlists.len() {
                return Route::Ignore;
            }
            let playlist = &domain.playlists[index];
            Route::Send(
                Command::PlaylistRemoveTrack {
                    playlist_id: playlist.id.clone(),
                    track_index: resolve_index(ui, ui.selected_index),
                    expected_revision: domain.playlists_revision,
                },
            )
        },
        PlaylistAction::PromptSubmit => Route::PromptSubmit,
        PlaylistAction::PickerSubmit => Route::PickerSubmit,
        PlaylistAction::PlaylistEditorSubmit => Route::EditorSubmit,
        PlaylistAction::RenameSelectedPlaylist(name) => {
            let index = resolve_index(ui, ui.selected_index);
            if index < domain.playlists.len() {
                Route::Send(Command::PlaylistRename { id: domain.playlists[index].id.clone(), name: name.clone() })
            } else {
                Route::Ignore
            }
        },
        PlaylistAction::AddTrackToPlaylist { playlist_id, track } => Route::Send(
            Command::PlaylistAddTrack { playlist_id: playlist_id.clone(), track: track.duplicate() },
        ),
        PlaylistAction::AddTrackToNewPlaylist { name, track } => Route::Send(
            Command::PlaylistAddTrackNew { name: name.clone(), track: track.duplicate() },
        ),
        PlaylistAction::RenamePlaylist { id, name } => Route::Send(
            Command::PlaylistRename { id: id.clone(), name: name.clone() },
        ),
        PlaylistAction::EditPlaylist { id, name, description } => Route::Send(
            Command::PlaylistEdit { id: id.clone(), name: name.clone(), description: description.clone() },
        ),
        PlaylistAction::MoveTrackInPlaylist { id, from, to } => Route::Send(
            Command::PlaylistMoveTrack { id: id.clone(), from: *from, to: *to },
        ),
        PlaylistAction::MoveSelectedInPlaylist(delta) => {
            if ui.view != AppView::PlaylistDetail {
                return Route::Ignore;
            }
            if ui.visible_indices.is_some() {
                return Route::Deferred(FILTER_BLOCKS_REORDER);
            }
            let index = match ui.selected_playlist {
                Some(index) => index,
                None => return Route::Ignore,
            };
            if index >= domain.playlists.len() {
                return Route::Ignore;
            }
            let playlist = &domain.playlists[index];
            let len = playlist.tracks.len();
            let from = ui.selected_index;
            let to = move_target_index(from, *delta, len);
            if len > 1 && from < len && from != to {
                Route::Send(Command::PlaylistMoveTrack { id: playlist.id.clone(), from, to })
            } else {
                Route::Ignore
            }
        },
        PlaylistAction::StartImport(url) => Route::Send(Command::ImportStart { url: url.clone() }),
        PlaylistAction::ConfirmImport => Route::Send(Command::ImportConfirm),
        PlaylistAction::CancelImport => Route::Send(Command::ImportCancel),
        PlaylistAction::ImportPlaylistsJson(json) => Route::Send(Command::ImportJson { json: json.clone() }),
        PlaylistAction::ImportStarted { .. }
        | PlaylistAction::ImportCompleted { .. }
        | PlaylistAction::ImportFailed { .. } => Route::Ignore,
        PlaylistAction::PlaylistSaved(_) => Route::Ignore,
        PlaylistAction::DeleteSelectedPlaylist
        | PlaylistAction::OpenPlaylistDetail
        | PlaylistAction::DeletePlaylist(_)
        | PlaylistAction::OpenPrompt(_)
        | PlaylistAction::PromptInput(_)
        | PlaylistAction::PromptPaste(_)
        | PlaylistAction::PromptBackspace
        | PlaylistAction::PromptCancel
        | PlaylistAction::OpenPlaylistEditor
        | PlaylistAction::PlaylistEditorInput(_)
        | PlaylistAction::PlaylistEditorBackspace
        | PlaylistAction::PlaylistEditorNextField
        | PlaylistAction::PlaylistEditorCancel
        | PlaylistAction::ConfirmYes
        | PlaylistAction::ConfirmNo
        | PlaylistAction::OpenPlaylistPicker
        | PlaylistAction::OpenPlaylistPickerForTrack(_)
        | PlaylistAction::PickerInput(_)
        | PlaylistAction::PickerBackspace
        | PlaylistAction::PickerNext
        | PlaylistAction::PickerPrevious
        | PlaylistAction::PickerCancel => Route::Local,
    }
}

/// Route of a history action; `history_track_ids` lists the track id of each
/// stored history entry, when history is loaded.
pub open spec fn spec_route_history<F>(
    action: HistoryAction,
    ui: RouteUi,
    history_track_ids: Option<Seq<String>>,
) -> Route<F> {
    match action {
        HistoryAction::ClearHistoryConfirmed => Route::Send(Command::HistoryClear),
        HistoryAction::ClearActivity => Route::Send(Command::ActivityClear),
        HistoryAction::DeleteSelectedHistoryEntry => if ui.view != AppView::History
            || ui.history_view_mode != HistoryViewMode::Recent {
            Route::Deferred(RECENT_VIEW_REQUIRED)
        } else {
            let index = spec_resolve_index(ui, ui.selected_index);
            match history_track_ids {
                Some(ids) => if index < ids.len() {
                    Route::Send(Command::HistoryDelete { index: index, expected_track_id: ids[index as int] })
                } else {
                    Route::Ignore
                },
                None => Route::Ignore,
            }
        },
        HistoryAction::DeleteHistoryEntry { index, expected_track_id } => Route::Send(
            Command::HistoryDelete { index: index, expected_track_id: expected_track_id },
        ),
        _ => Route::Local,
    }
}

/// Route a history action against the loaded history.
pub fn route_history<F>(
    action: &HistoryAction,
    ui: &RouteUi,
    history_track_ids: Option<&Vec<String>>,
) -> (route: Route<F>)
    ensures
        route == spec_route_history::<F>(
            *action,
            *ui,
            match history_track_ids {
                Some(ids) => Some(ids@),
                None => None,
            },
        ),
{
    match action {
        HistoryAction::ClearHistoryConfirmed => Route::Send(Command::HistoryClear),
        HistoryAction::ClearActivity => Route::Send(Command::ActivityClear),
        HistoryAction::DeleteSelectedHistoryEntry => {
            if ui.view != AppView::History || ui.history_view_mode != HistoryViewMode::Recent {
                return Route::Deferred(RECENT_VIEW_REQUIRED);
            }
            let index = resolve_index(ui, ui.selected_index);
            match history_track_ids {
                Some(ids) => if index < ids.len() {
                    Route::Send(Command::HistoryDelete { index, expected_track_id: ids[index].clone() })
                } else {
                    Route::Ignore
                },
                None => Route::Ignore,
            }
        },
        HistoryAction::DeleteHistoryEntry { index, expected_track_id } => Route::Send(
            Command::HistoryDelete { index: *index, expected_track_id: expected_track_id.clone() },
        ),
        HistoryAction::ClearHistory
        | HistoryAction::ToggleHistoryViewMode
        | HistoryAction::Notify(_)
        | HistoryAction::DismissNotification
        | HistoryAction::ToggleNotificationLog => Route::Local,
    }
}

/// Route of any action.
pub open spec fn spec_route<F, E, D, P, I, DD>(
    action: Action<F, E, D>,
    ui: RouteUi,
    domain: DomainState<P, DD, I>,
    history_track_ids: Option<Seq<String>>,
    selected: Option<Track>,
    seek_target: Option<F>,
) -> Route<F> {
    match action {
        Action::Navigation(action) => spec_route_navigation(action),
        Action::Playback(action) => spec_route_playback(action, ui, domain, selected, seek_target),
        Action::Queue(action) => spec_route_queue(action, ui, domain, selected),
        Action::Playlists(action) => spec_route_playlists(action, ui, domain),
        Action::History(action) => spec_route_history(action, ui, history_track_ids),
    }
}

/// Classify one action for the client runtime. `selected` is the track the
/// current selection resolves to; `seek_target` is the position a timeline
/// click or chapter jump resolves to.
pub fn route<F, E, D, P, I, DD>(
    action: Action<F, E, D>,
    ui: &RouteUi,
    domain: &DomainState<P, DD, I>,
    history_track_ids: Option<&Vec<String>>,
    selected: Option<Track>,
    seek_target: Option<F>,
) -> (route: Route<F>)
    ensures
        route == spec_route(
            action,
            *ui,
            *domain,
            match history_track_ids {
                Some(ids) => Some(ids@),
                None => None,
            },
            selected,
            seek_target,
        ),
{
    match action {
        Action::Navigation(action) => route_navigation(&action),
        Action::Playback(action) => route_playback(action, ui, domain, selected, seek_target),
        Action::Queue(action) => route_queue(&action, ui, domain, selected),
        Action::Playlists(action) => route_playlists(&action, ui, domain),
        Action::History(action) => route_history(&action, ui, history_track_ids),
    }
}

/// A move request always targets a row inside the list it reorders.
pub proof fn lemma_move_target_in_list(from: usize, delta: i32, len: usize)
    requires
        len > 0,
    ensures
        move_target(from, delta, len) < len,
{
}

/// Quitting never reaches the daemon, and a submitted search is client-owned.
pub proof fn lemma_quit_and_search_stay_local<F>(query: String)
    ensures
        spec_route_navigation::<F>(NavigationAction::Quit) is Quit,
        spec_route_navigation::<F>(NavigationAction::SubmitSearch(query)) == (Route::<F>::Search {
            query: query,
            exact: false,
        }),
{
}

/// A routed queue removal carries the mirror's queue revision, so the daemon
/// can refuse it when its queue has moved on.
pub proof fn lemma_queue_removal_carries_revision<F, P, D, I>(
    ui: RouteUi,
    domain: DomainState<P, D, I>,
    selected: Option<Track>,
)
    requires
        ui.view == AppView::Queue,
    ensures
        spec_route_queue::<F, P, D, I>(QueueAction::RemoveSelectedFromQueue, ui, domain, selected)
            matches Route::Send(Command::QueueRemove { expected_revision, .. })
            && expected_revision == domain.queue_revision,
{
}

/// Queue additions keep their placement. "Play next" on the selected track
/// sends the same request as adding that track next: it goes right after the
/// current track. "Add to queue" on the selected track sends the same request
/// as adding that track: it goes to the end. Without a selection neither
/// sends anything.
pub proof fn lemma_queue_additions_keep_their_placement<F, P, D, I>(
    ui: RouteUi,
    domain: DomainState<P, D, I>,
    track: Track,
    any_selection: Option<Track>,
)
    ensures
        spec_route_queue::<F, P, D, I>(QueueAction::AddSelectedAsNext, ui, domain, Some(track))
            == (Route::<F>::Send(Command::QueueAdd { track: track, next: true })),
        spec_route_queue::<F, P, D, I>(QueueAction::AddSelectedAsNext, ui, domain, Some(track))
            == spec_route_queue::<F, P, D, I>(QueueAction::AddNext(track), ui, domain, any_selection),
        spec_route_queue::<F, P, D, I>(QueueAction::AddSelectedToQueue, ui, domain, Some(track))
            == (Route::<F>::Send(Command::QueueAdd { track: track, next: false })),
        spec_route_queue::<F, P, D, I>(QueueAction::AddSelectedToQueue, ui, domain, Some(track))
            == spec_route_queue::<F, P, D, I>(QueueAction::AddToQueue(track), ui, domain, any_selection),
        spec_route_queue::<F, P, D, I>(QueueAction::AddSelectedAsNext, ui, domain, Some(track))
            != spec_route_queue::<F, P, D, I>(QueueAction::AddSelectedToQueue, ui, domain, Some(track)),
        spec_route_queue::<F, P, D, I>(QueueAction::AddSelectedAsNext, ui, domain, None) is Ignore,
        spec_route_queue::<F, P, D, I>(QueueAction::AddSelectedToQueue, ui, domain, None) is Ignore,
{
}

} // verus!
