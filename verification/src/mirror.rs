//! Client-side mirror of the daemon's domain state: hydrated from the
//! daemon's snapshot and kept fresh by broadcast events. Search and channel
//! fields stay client-owned and are never overwritten by the daemon.
//!
//! The playback snapshot (`P`), track details (`D`) and import progress
//! (`I`) are carried through unchanged; the mirror never inspects them.

use vstd::prelude::*;

use crate::channel::ChannelState;
use crate::media::{Playlist, Track};
use crate::queue::{queue_valid, Queue};

verus! {

/// Client-owned search progress.
pub enum SearchState {
    Idle,
    Searching { query: String, generation: u64 },
    Results { query: String, tracks: Vec<Track> },
    Failed { query: String, message: String },
}

/// Readiness of the external tools.
#[derive(PartialEq, Eq, Structural, Clone, Copy, Debug)]
pub struct Health {
    pub mpv_ready: bool,
    pub yt_dlp_ready: bool,
}

/// The domain half of the application state.
pub struct DomainState<P, D, I> {
    pub queue: Queue,
    /// Version tag of the queue held in `queue`.
    pub queue_revision: u64,
    pub playback: P,
    pub current_track: Option<Track>,
    pub current_details: Option<D>,
    pub playlists: Vec<Playlist>,
    /// Version tag of `playlists`.
    pub playlists_revision: u64,
    pub mpv_ready: bool,
    pub yt_dlp_ready: bool,
    pub import: Option<I>,
    /// Client-owned search state.
    pub search: SearchState,
    pub search_generation: u64,
    /// Client-owned channel browser.
    pub channel: Option<ChannelState>,
}

impl<P, D, I> DomainState<P, D, I> {
    /// Empty state holding the given playback snapshot.
    pub fn new(playback: P) -> (state: DomainState<P, D, I>)
        ensures
            state.queue.tracks@.len() == 0,
            state.queue.order@.len() == 0,
            state.queue.position is None,
            queue_valid(state.queue),
            state.queue_revision == 0,
            state.playback == playback,
            state.current_track is None,
            state.current_details is None,
            state.playlists@.len() == 0,
            state.playlists_revision == 0,
            !state.mpv_ready,
            !state.yt_dlp_ready,
            state.import is None,
            state.search is Idle,
            state.search_generation == 0,
            state.channel is None,
    {
        DomainState {
            queue: Queue::new(),
            queue_revision: 0,
            playback,
            current_track: None,
            current_details: None,
            playlists: Vec::new(),
            playlists_revision: 0,
            mpv_ready: false,
            yt_dlp_ready: false,
            import: None,
            search: SearchState::Idle,
            search_generation: 0,
            channel: None,
        }
    }
}

/// Full copy of the daemon-owned fields, sent on connect.
pub struct Snapshot<P, D> {
    pub queue: Queue,
    pub queue_revision: u64,
    pub playback: P,
    pub current_track: Option<Track>,
    pub current_details: Option<D>,
    pub playlists: Vec<Playlist>,
    pub playlists_revision: u64,
    pub health: Health,
}

/// One broadcast change of daemon-owned state.
pub enum WireEvent<P, D, I> {
    QueueChanged { queue: Queue, queue_revision: u64 },
    PlaybackProgress { playback: P },
    TrackChanged { track: Option<Track> },
    TrackDetailsChanged { details: Option<D> },
    PlaylistsChanged { playlists: Vec<Playlist>, playlists_revision: u64 },
    Health { health: Health },
    ImportChanged { import: Option<I> },
    /// History lives in the shared on-disk store; the client reloads it.
    HistoryChanged,
    /// Channel data needs the client's navigation stack; applied elsewhere.
    ChannelChanged,
}

/// The mirror after offering it a queue from the daemon: a valid queue is
/// installed with its revision; an invalid one leaves queue and revision as they were.
pub open spec fn spec_install_queue<P, D, I>(
    domain: DomainState<P, D, I>,
    queue: Queue,
    queue_revision: u64,
) -> DomainState<P, D, I> {
    if queue_valid(queue) {
        DomainState { queue: queue, queue_revision: queue_revision, ..domain }
    } else {
        domain
    }
}

/// The mirror after a full snapshot.
pub open spec fn spec_apply_snapshot<P, D, I>(
    domain: DomainState<P, D, I>,
    snapshot: Snapshot<P, D>,
) -> DomainState<P, D, I> {
    let installed = spec_install_queue(domain, snapshot.queue, snapshot.queue_revision);
    DomainState {
        playback: snapshot.playback,
        current_track: snapshot.current_track,
        current_details: snapshot.current_details,
        playlists: snapshot.playlists,
        playlists_revision: snapshot.playlists_revision,
        mpv_ready: snapshot.health.mpv_ready,
        yt_dlp_ready: snapshot.health.yt_dlp_ready,
        ..installed
    }
}

/// The mirror after one broadcast event.
pub open spec fn spec_apply_event<P, D, I>(
    domain: DomainState<P, D, I>,
    event: WireEvent<P, D, I>,
) -> DomainState<P, D, I> {
    match event {
        WireEvent::QueueChanged { queue, queue_revision } => spec_install_queue(
            domain,
            queue,
            queue_revision,
        ),
        WireEvent::PlaybackProgress { playback } => DomainState { playback: playback, ..domain },
        WireEvent::TrackChanged { track } => DomainState {
            current_track: track,
            current_details: None,
            ..domain
        },
        WireEvent::TrackDetailsChanged { details } => DomainState {
            current_details: details,
            ..domain
        },
        WireEvent::PlaylistsChanged { playlists, playlists_revision } => DomainState {
            playlists: playlists,
            playlists_revision: playlists_revision,
            ..domain
        },
        WireEvent::Health { health } => DomainState {
            mpv_ready: health.mpv_ready,
            yt_dlp_ready: health.yt_dlp_ready,
            ..domain
        },
        WireEvent::ImportChanged { import } => DomainState { import: import, ..domain },
        WireEvent::HistoryChanged => domain,
        WireEvent::ChannelChanged => domain,
    }
}

/// Install a queue that arrived over the wire, or refuse it.
///
/// A peer can be version-skewed, buggy or hostile, and renderers index
/// `tracks` by `order` entries unguarded, so an invalid queue is refused.
/// The revision is the version tag of the queue the mirror actually holds,
/// so it is not advanced for a refused queue.
pub fn install_queue<P, D, I>(domain: &mut DomainState<P, D, I>, queue: Queue, queue_revision: u64)
    ensures
        *final(domain) == spec_install_queue(*old(domain), queue, queue_revision),
{
    match queue.validate() {
        Err(_) => {},
        Ok(()) => {
            domain.queue = queue;
            domain.queue_revision = queue_revision;
        },
    }
}

/// Replace the mirrored daemon-owned fields from a full snapshot.
pub fn apply_snapshot<P, D, I>(domain: &mut DomainState<P, D, I>, snapshot: Snapshot<P, D>)
    ensures
        *final(domain) == spec_apply_snapshot(*old(domain), snapshot),
{
    let Snapshot {
        queue,
        queue_revision,
        playback,
        current_track,
        current_details,
        playlists,
        playlists_revision,
        health,
    } = snapshot;
    install_queue(domain, queue, queue_revision);
    domain.playback = playback;
    domain.current_track = current_track;
    domain.current_details = current_details;
    domain.playlists = playlists;
    domain.playlists_revision = playlists_revision;
    domain.mpv_ready = health.mpv_ready;
    domain.yt_dlp_ready = health.yt_dlp_ready;
}

/// Apply one broadcast event to the mirror.
pub fn apply_event<P, D, I>(domain: &mut DomainState<P, D, I>, event: WireEvent<P, D, I>)
    ensures
        *final(domain) == spec_apply_event(*old(domain), event),
{
    match event {
        WireEvent::QueueChanged { queue, queue_revision } => install_queue(domain, queue, queue_revision),
        WireEvent::PlaybackProgress { playback } => domain.playback = playback,
        WireEvent::TrackChanged { track } => {
            // Details of the previous track are stale until new ones arrive.
            domain.current_track = track;
            domain.current_details = None;
        },
        WireEvent::TrackDetailsChanged { details } => domain.current_details = details,
        WireEvent::PlaylistsChanged { playlists, playlists_revision } => {
            domain.playlists = playlists;
            domain.playlists_revision = playlists_revision;
        },
        WireEvent::Health { health } => {
            domain.mpv_ready = health.mpv_ready;
            domain.yt_dlp_ready = health.yt_dlp_ready;
        },
        WireEvent::ImportChanged { import } => domain.import = import,
        WireEvent::HistoryChanged => {},
        WireEvent::ChannelChanged => {},
    }
}

/// A mirror whose queue is safe to index stays so under every event and
/// snapshot: refused queues never replace a valid one.
pub proof fn lemma_mirror_queue_stays_valid<P, D, I>(
    domain: DomainState<P, D, I>,
    event: WireEvent<P, D, I>,
    snapshot: Snapshot<P, D>,
)
    requires
        queue_valid(domain.queue),
    ensures
        queue_valid(spec_apply_event(domain, event).queue),
        queue_valid(spec_apply_snapshot(domain, snapshot).queue),
{
}

/// The queue revision only moves together with an installed valid queue, so
/// the revision always tags the queue the mirror holds.
pub proof fn lemma_revision_tags_installed_queue<P, D, I>(
    domain: DomainState<P, D, I>,
    event: WireEvent<P, D, I>,
    snapshot: Snapshot<P, D>,
)
    ensures
        spec_apply_event(domain, event).queue_revision != domain.queue_revision ==> (
        event matches WireEvent::QueueChanged { queue, queue_revision } && queue_valid(queue)
            && spec_apply_event(domain, event).queue == queue
            && spec_apply_event(domain, event).queue_revision == queue_revision),
        spec_apply_snapshot(domain, snapshot).queue_revision != domain.queue_revision ==> (
        queue_valid(snapshot.queue) && spec_apply_snapshot(domain, snapshot).queue == snapshot.queue
            && spec_apply_snapshot(domain, snapshot).queue_revision == snapshot.queue_revision),
{
}

/// Events and snapshots never touch the client-owned search and channel state.
pub proof fn lemma_daemon_never_touches_client_state<P, D, I>(
    domain: DomainState<P, D, I>,
    event: WireEvent<P, D, I>,
    snapshot: Snapshot<P, D>,
)
    ensures
        spec_apply_event(domain, event).search == domain.search,
        spec_apply_event(domain, event).search_generation == domain.search_generation,
        spec_apply_event(domain, event).channel == domain.channel,
        spec_apply_snapshot(domain, snapshot).search == domain.search,
        spec_apply_snapshot(domain, snapshot).search_generation == domain.search_generation,
        spec_apply_snapshot(domain, snapshot).channel == domain.channel,
{
}

/// A playlists broadcast replaces the mirror's playlists with the ones it
/// carries, tagged with its revision, and touches nothing else; so two
/// mirrors that receive the same broadcast hold the same playlists under the
/// same revision afterwards, whatever they held before.
pub proof fn lemma_playlists_broadcast_installs_its_playlists<P, D, I>(
    mirror: DomainState<P, D, I>,
    other: DomainState<P, D, I>,
    playlists: Vec<Playlist>,
    playlists_revision: u64,
)
    ensures
        ({
            let after = spec_apply_event(
                mirror,
                WireEvent::PlaylistsChanged { playlists: playlists, playlists_revision: playlists_revision },
            );
            &&& after.playlists == playlists
            &&& after.playlists@ == playlists@
            &&& after.playlists_revision == playlists_revision
            &&& after.queue == mirror.queue
            &&& after.queue_revision == mirror.queue_revision
            &&& after.playback == mirror.playback
            &&& after.current_track == mirror.current_track
            &&& after.current_details == mirror.current_details
            &&& after.mpv_ready == mirror.mpv_ready
            &&& after.yt_dlp_ready == mirror.yt_dlp_ready
            &&& after.import == mirror.import
            &&& after.search == mirror.search
            &&& after.search_generation == mirror.search_generation
            &&& after.channel == mirror.channel
        }),
        spec_apply_event(
            mirror,
            WireEvent::PlaylistsChanged { playlists: playlists, playlists_revision: playlists_revision },
        ).playlists@ == spec_apply_event(
            other,
            WireEvent::PlaylistsChanged { playlists: playlists, playlists_revision: playlists_revision },
        ).playlists@,
{
}

} // verus!
