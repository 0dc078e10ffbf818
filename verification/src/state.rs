//! Navigation vocabulary shared by the views: which view is active, where
//! keyboard focus sits, and which pane of a split view is selected.

use vstd::prelude::*;

verus! {

/// Top-level views.
#[derive(PartialEq, Eq, Structural, Clone, Copy, Debug)]
pub enum AppView {
    Home,
    Search,
    Queue,
    Playlists,
    PlaylistDetail,
    History,
    NowPlaying,
    Channel,
    Help,
}

/// Where keyboard input goes.
#[derive(PartialEq, Eq, Structural, Clone, Copy, Debug)]
pub enum Focus {
    Content,
    SearchInput,
    ListFilter,
}

/// Focused pane of the ultra-wide Playing layout.
#[derive(PartialEq, Eq, Structural, Clone, Copy, Debug)]
pub enum PlayingPane {
    Info,
    Queue,
}

/// Focused section of the Home view.
#[derive(PartialEq, Eq, Structural, Clone, Copy, Debug)]
pub enum HomeSection {
    Resume,
    Recent,
    Playlists,
}

/// Presentation of the History view.
#[derive(PartialEq, Eq, Structural, Clone, Copy, Debug)]
pub enum HistoryViewMode {
    Recent,
    MostPlayed,
}

/// What the daemon does once it is up, as asked on its command line.
pub enum StartupIntent {
    /// Restore the previous session and start playing immediately.
    Resume,
    /// Search for a query and play the first result.
    PlayQuery(String),
}

} // verus!
