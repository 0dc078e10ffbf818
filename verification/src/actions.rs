//! Application actions, grouped by the responsibility that handles them.
//!
//! Playback actions are generic over the types of their real-valued
//! payloads: `F` for seconds and fractions, `E` for player events and `D`
//! for extended track details. The library routes them without reading
//! those payloads.

use vstd::prelude::*;

use crate::channel::ChannelPage;
use crate::media::{Playlist, Track};
use crate::operations::OperationId;
use crate::queue::RepeatMode;
use crate::state::AppView;

verus! {

/// Which external helper a detached command ran.
#[derive(PartialEq, Eq, Structural, Clone, Copy, Debug)]
pub enum ExternalCommandKind {
    Browser,
    Clipboard,
}

/// What an external command acted for.
pub enum ExternalCommandTarget {
    /// The track context menu opened for `track_id` in menu `generation`.
    TrackContext { track_id: String, generation: u64 },
    /// The selected search result or the playing track.
    Selection,
}

/// Videos a playlist import skipped.
#[derive(PartialEq, Eq, Structural, Clone, Copy, Debug)]
pub struct ImportRejections {
    pub skipped: usize,
}

/// What a text prompt collects.
#[derive(PartialEq, Eq, Structural, Clone, Copy, Debug)]
pub enum PromptPurpose {
    SaveQueueAsPlaylist,
    NewPlaylist,
    RenamePlaylist,
    ImportPlaylistUrl,
    ImportPlaylistJson,
}

/// An intent that changes the active view, search, or list selection.
pub enum NavigationAction {
    Navigate(AppView),
    /// Open help while remembering the current view.
    OpenHelp,
    /// Return from help to the view that opened it.
    CloseHelp,
    /// Scroll the help document by signed rows.
    ScrollHelp(i32),
    NextView,
    PreviousView,
    /// Move Home section focus forward/backward.
    CycleHomeSection(i32),
    Quit,
    SearchInput(char),
    SearchBackspace,
    SubmitSearch(String),
    /// Fetch one exact video URL without routing it through search.
    SubmitExactVideo(String),
    SearchCompleted { generation: u64, tracks: Vec<Track> },
    SearchFailed { generation: u64, message: String },
    ClearSearch,
    /// Toggle the selected-result detail overlay on narrow Search layouts.
    ToggleSearchDetail,
    /// Open the selected Search result or current Playing track in a browser.
    OpenInBrowser,
    SelectNext,
    SelectPrevious,
    /// Open the channel browser for a track's channel.
    VisitChannel(Track),
    LoadMoreChannel,
    RetryChannel,
    BackFromChannel,
    ChannelResolved {
        operation_id: OperationId,
        source_track_id: String,
        result: Result<Track, String>,
    },
    ChannelPageLoaded {
        operation_id: OperationId,
        channel_url: String,
        page: usize,
        result: Result<ChannelPage, String>,
    },
    ExternalCommandCompleted {
        operation_id: OperationId,
        command: ExternalCommandKind,
        target: ExternalCommandTarget,
        result: Result<(), String>,
    },
    OpenTrackContext,
    CloseTrackContext,
    MoveTrackContext(i32),
    SubmitTrackContext,
    ShowTrackDetails(Track),
    CloseTrackDetails,
    /// Open the settings menu.
    OpenSettings,
    CloseSettings,
    /// Switch to the next settings tab.
    SettingsCycleTab,
    /// Move the settings row selection by signed rows.
    SettingsMove(i32),
    /// Step the selected setting's value down or up.
    SettingsAdjust(i32),
    SettingsSubmit,
}

/// An intent that controls playback or reports playback-related background work.
pub enum PlaybackAction<F, E, D> {
    /// The previous session's stream URL arrived.
    SessionStreamResolved { operation_id: OperationId, track_id: String, url: String },
    /// Previous-session stream resolution failed.
    SessionResolveFailed { operation_id: OperationId, track_id: String, message: String },
    PlayPause,
    Stop,
    PlaySelected,
    PlayTrack(Track),
    /// Jump to a position of the play order.
    PlayQueuePosition(usize),
    /// Resume a known track at a persisted per-track position.
    ResumeTrack { track: Track, position_seconds: F },
    PlaybackResolveStarted { operation_id: OperationId, queue_position: usize, track_id: String },
    PlaybackResolved {
        operation_id: OperationId,
        queue_position: usize,
        track_id: String,
        url: String,
    },
    PlaybackResolveFailed {
        operation_id: OperationId,
        queue_position: usize,
        track_id: String,
        message: String,
    },
    NextTrack,
    PreviousTrack,
    SeekForward,
    SeekBackward,
    SeekForwardLarge,
    SeekBackwardLarge,
    /// Seek relative to the playhead by whole seconds.
    SeekBy(i32),
    /// Seek to an absolute position.
    SeekToSeconds(F),
    /// Seek to a fraction (0.0-1.0) of the duration, such as a timeline click.
    SeekToFraction(F),
    VolumeUp,
    VolumeDown,
    /// Change the volume by a signed step.
    VolumeBy(i32),
    ToggleMute,
    ToggleShuffle,
    CycleRepeat,
    PlaybackEvent(E),
    DetailsStarted { operation_id: OperationId, track_id: String },
    DetailsLoaded { operation_id: OperationId, track_id: String, details: D },
    DetailsFailed { operation_id: OperationId, track_id: String, message: String },
    ThumbnailLoaded { operation_id: OperationId, track_id: String, bytes: Vec<u8> },
    SearchThumbnailLoaded { operation_id: OperationId, track_id: String, bytes: Vec<u8> },
    /// Scroll the now-playing description panel.
    ScrollNowPlaying(i32),
    NextChapter,
    PreviousChapter,
    ToggleNowPlayingPane,
    CyclePlayingPane,
    SpeedUp,
    SpeedDown,
    SpeedReset,
    CycleSleepTimer,
    ToggleRadio,
    PrefetchResolved { operation_id: OperationId, track_id: String, url: String },
    RadioRefillStarted { operation_id: OperationId },
    RadioTracksLoaded { operation_id: OperationId, tracks: Vec<Track> },
    MixLoaded { operation_id: OperationId, title: String, tracks: Vec<Track> },
    RepeatChanged(RepeatMode),
}

/// An intent that mutates the queue or resolves selected content into it.
pub enum QueueAction {
    AddToQueue(Track),
    AddNext(Track),
    RemoveSelectedFromQueue,
    /// Remove the occurrence at `order_index`, if it is still `expected_track`
    /// in the queue revision the request was computed against.
    RemoveTrackOccurrence { order_index: usize, expected_track: Track, expected_revision: u64 },
    UndoQueueRemoval,
    /// Move the selected queue item up or down in play order.
    MoveSelectedInQueue(i32),
    MoveTrack { from: usize, to: usize },
    ClearQueue,
    ClearQueueConfirmed,
    QueueLoaded(Track),
    QueueExhausted,
    AddSelectedToQueue,
    AddSelectedAsNext,
    LoadSelectedPlaylistIntoQueue,
    AppendSelectedPlaylistToQueue,
}

/// An intent that manages playlists, imports, or their modal workflows.
pub enum PlaylistAction {
    DeleteSelectedPlaylist,
    OpenPlaylistDetail,
    SaveQueueAsPlaylist(String),
    CreatePlaylist(String),
    RenameSelectedPlaylist(String),
    LoadPlaylistIntoQueue(String),
    AppendPlaylistToQueue(String),
    DeletePlaylist(String),
    DeletePlaylistConfirmed(String),
    PlaylistSaved(Playlist),
    StartImport(String),
    ImportStarted { operation_id: OperationId, url: String },
    ImportCompleted {
        operation_id: OperationId,
        url: String,
        title: String,
        remote_id: Option<String>,
        tracks: Vec<Track>,
        rejections: ImportRejections,
    },
    ImportFailed { operation_id: OperationId, url: String, message: String },
    ConfirmImport,
    CancelImport,
    /// Import playlists from pasted JSON.
    ImportPlaylistsJson(String),
    OpenPrompt(PromptPurpose),
    PromptInput(char),
    /// Insert bracketed-paste content without treating newlines as submit.
    PromptPaste(String),
    PromptBackspace,
    PromptSubmit,
    PromptCancel,
    OpenPlaylistEditor,
    PlaylistEditorInput(char),
    PlaylistEditorBackspace,
    PlaylistEditorNextField,
    PlaylistEditorSubmit,
    PlaylistEditorCancel,
    ConfirmYes,
    ConfirmNo,
    OpenPlaylistPicker,
    OpenPlaylistPickerForTrack(Track),
    PickerInput(char),
    PickerBackspace,
    PickerNext,
    PickerPrevious,
    PickerSubmit,
    PickerCancel,
    RemoveSelectedFromPlaylist,
    /// Remove entry `track_index` of a playlist, guarded by the playlist revision.
    RemoveTrackOccurrence { playlist_id: String, track_index: usize, expected_revision: u64 },
    AddTrackToPlaylist { playlist_id: String, track: Track },
    AddTrackToNewPlaylist { name: String, track: Track },
    RenamePlaylist { id: String, name: String },
    EditPlaylist { id: String, name: String, description: String },
    MoveTrackInPlaylist { id: String, from: usize, to: usize },
    /// Move the selected playlist track up or down.
    MoveSelectedInPlaylist(i32),
}

/// An intent that changes persisted activity/history or visible notifications.
pub enum HistoryAction {
    /// Clear the persisted Activity panel.
    ClearActivity,
    ClearHistory,
    /// Clear history after explicit confirmation.
    ClearHistoryConfirmed,
    /// Delete one history entry in Recent mode.
    DeleteSelectedHistoryEntry,
    /// Delete one history entry by store index, guarded by its track id.
    DeleteHistoryEntry { index: usize, expected_track_id: String },
    Notify(String),
    ToggleHistoryViewMode,
    DismissNotification,
    ToggleNotificationLog,
}

/// A state-changing intent, grouped by the responsibility that handles it.
pub enum Action<F, E, D> {
    Navigation(NavigationAction),
    Playback(PlaybackAction<F, E, D>),
    Queue(QueueAction),
    Playlists(PlaylistAction),
    History(HistoryAction),
}

} // verus!
