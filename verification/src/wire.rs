//! Daemon/client wire vocabulary: which domain changes are broadcast, with
//! which fresh payloads, and how clients map them back for their UI.

use vstd::prelude::*;

use crate::media::{Playlist, PlaylistTrack, Track};
use crate::mirror::{spec_apply_snapshot, DomainState, Health, Snapshot, WireEvent};
use crate::queue::{order_in_range, queue_valid};

verus! {

/// A change of domain state, as observed around one action.
#[derive(PartialEq, Eq, Structural, Clone, Copy, Debug)]
pub enum DomainEvent {
    QueueChanged,
    PlaybackChanged,
    TrackChanged,
    TrackDetailsChanged,
    PlaylistsChanged,
    HistoryChanged,
    ImportChanged,
    Health,
    SearchChanged,
    ChannelChanged,
}

/// Body of a successful reply.
pub enum ReplyBody<P, D> {
    Ack,
    Status { snapshot: Snapshot<P, D> },
    Tracks { tracks: Vec<Track> },
}

/// Outcome of one client command.
pub enum ReplyResult<P, D> {
    Result(ReplyBody<P, D>),
    Error(String),
}

/// Frames the daemon sends to a client.
pub enum DaemonFrame<P, D, I> {
    Welcome { protocol: u32, snapshot: Snapshot<P, D> },
    Reply { id: u64, result: ReplyResult<P, D> },
    Event { event: WireEvent<P, D, I> },
}

/// Exact copy of a playlist.
pub fn duplicate_playlist(playlist: &Playlist) -> (copy: Playlist)
    ensures
        copy.id == playlist.id,
        copy.name == playlist.name,
        copy.description == playlist.description,
        copy.tracks@ == playlist.tracks@,
        copy.updated_at == playlist.updated_at,
{
    let mut tracks: Vec<PlaylistTrack> = Vec::new();
    let mut i: usize = 0;
    while i < playlist.tracks.len()
        invariant
            i <= playlist.tracks@.len(),
            tracks@ == playlist.tracks@.take(i as int),
        decreases playlist.tracks@.len() - i,
    {
        tracks.push(playlist.tracks[i].duplicate());
        assert(playlist.tracks@.take(i + 1) == playlist.tracks@.take(i as int).push(playlist.tracks@[i as int]));
        i = i + 1;
    }
    assert(playlist.tracks@.take(playlist.tracks@.len() as int) == playlist.tracks@);
    Playlist {
        id: playlist.id.clone(),
        name: playlist.name.clone(),
        description: playlist.description.clone(),
        tracks,
        updated_at: playlist.updated_at,
    }
}

/// Two playlists hold the same values.
pub open spec fn same_playlist(a: Playlist, b: Playlist) -> bool {
    a.id == b.id && a.name == b.name && a.description == b.description && a.tracks@ == b.tracks@
        && a.updated_at == b.updated_at
}

/// Two playlist lists hold the same values in the same order.
pub open spec fn same_playlists(a: Seq<Playlist>, b: Seq<Playlist>) -> bool {
    a.len() == b.len() && forall|i: int| 0 <= i < a.len() ==> same_playlist(#[trigger] a[i], b[i])
}

/// Copy of a playlist list.
pub fn duplicate_playlists(playlists: &Vec<Playlist>) -> (copy: Vec<Playlist>)
    ensures
        same_playlists(copy@, playlists@),
{
    let mut copy: Vec<Playlist> = Vec::new();
    let mut i: usize = 0;
    while i < playlists.len()
        invariant
            i <= playlists@.len(),
            copy@.len() == i,
            forall|k: int| 0 <= k < i ==> same_playlist(#[trigger] copy@[k], playlists@[k]),
        decreases playlists@.len() - i,
    {
        copy.push(duplicate_playlist(&playlists[i]));
        i = i + 1;
    }
    copy
}

/// Copy of an optional track.
pub fn duplicate_optional_track(track: &Option<Track>) -> (copy: Option<Track>)
    ensures
        copy == *track,
{
    match track {
        Some(track) => Some(track.duplicate()),
        None => None,
    }
}

/// The health event for the current tool readiness.
pub fn health_event<P, D, I>(domain: &DomainState<P, D, I>) -> (event: WireEvent<P, D, I>)
    ensures
        event == (WireEvent::<P, D, I>::Health {
            health: Health { mpv_ready: domain.mpv_ready, yt_dlp_ready: domain.yt_dlp_ready },
        }),
{
    WireEvent::Health {
        health: Health { mpv_ready: domain.mpv_ready, yt_dlp_ready: domain.yt_dlp_ready },
    }
}

/// The health event wrapped as a broadcast frame.
pub fn health_frame<P, D, I>(domain: &DomainState<P, D, I>) -> (frame: DaemonFrame<P, D, I>)
    ensures
        frame == (DaemonFrame::<P, D, I>::Event {
            event: WireEvent::Health {
                health: Health { mpv_ready: domain.mpv_ready, yt_dlp_ready: domain.yt_dlp_ready },
            },
        }),
{
    DaemonFrame::Event { event: health_event(domain) }
}

/// Whether `wire` carries the current payload of `domain` for `event`.
pub open spec fn carries_fresh_payload<P, D, I>(
    domain: DomainState<P, D, I>,
    event: DomainEvent,
    wire: WireEvent<P, D, I>,
) -> bool where P: Clone, D: Clone, I: Clone {
    match event {
        DomainEvent::QueueChanged => wire matches WireEvent::QueueChanged { queue, queue_revision }
            && queue.tracks@ == domain.queue.tracks@ && queue.order@ == domain.queue.order@
            && queue.position == domain.queue.position && queue.shuffle == domain.queue.shuffle
            && queue.repeat == domain.queue.repeat && queue_revision == domain.queue_revision,
        DomainEvent::PlaybackChanged => wire matches WireEvent::PlaybackProgress { playback }
            && cloned(domain.playback, playback),
        DomainEvent::TrackChanged => wire matches WireEvent::TrackChanged { track }
            && track == domain.current_track,
        DomainEvent::TrackDetailsChanged => wire matches WireEvent::TrackDetailsChanged { details }
            && (details is Some <==> domain.current_details is Some)
            && (details is Some ==> cloned(domain.current_details->Some_0, details->Some_0)),
        DomainEvent::PlaylistsChanged => wire matches WireEvent::PlaylistsChanged {
            playlists,
            playlists_revision,
        } && same_playlists(playlists@, domain.playlists@)
            && playlists_revision == domain.playlists_revision,
        DomainEvent::HistoryChanged => wire is HistoryChanged,
        DomainEvent::ImportChanged => wire matches WireEvent::ImportChanged { import }
            && (import is Some <==> domain.import is Some)
            && (import is Some ==> cloned(domain.import->Some_0, import->Some_0)),
        DomainEvent::Health => wire == (WireEvent::<P, D, I>::Health {
            health: Health { mpv_ready: domain.mpv_ready, yt_dlp_ready: domain.yt_dlp_ready },
        }),
        DomainEvent::SearchChanged => false,
        DomainEvent::ChannelChanged => false,
    }
}

/// Whether a domain event is broadcast to every client. Search and channel
/// data are per-client request/reply concerns and never broadcast.
pub open spec fn is_broadcast(event: DomainEvent) -> bool {
    !(event is SearchChanged || event is ChannelChanged)
}

/// Map a domain event to the wire event with a fresh payload, if it is broadcast.
pub fn wire_event<P: Clone, D: Clone, I: Clone>(
    domain: &DomainState<P, D, I>,
    event: DomainEvent,
) -> (wire: Option<WireEvent<P, D, I>>)
    ensures
        wire is Some <==> is_broadcast(event),
        wire matches Some(w) ==> carries_fresh_payload(*domain, event, w),
{
    match event {
        DomainEvent::QueueChanged => Some(WireEvent::QueueChanged {
            queue: domain.queue.duplicate(),
            queue_revision: domain.queue_revision,
        }),
        DomainEvent::PlaybackChanged => Some(WireEvent::PlaybackProgress { playback: domain.playback.clone() }),
        DomainEvent::TrackChanged => Some(WireEvent::TrackChanged {
            track: duplicate_optional_track(&domain.current_track),
        }),
        DomainEvent::TrackDetailsChanged => Some(WireEvent::TrackDetailsChanged {
            details: domain.current_details.clone(),
        }),
        DomainEvent::PlaylistsChanged => Some(WireEvent::PlaylistsChanged {
            playlists: duplicate_playlists(&domain.playlists),
            playlists_revision: domain.playlists_revision,
        }),
        DomainEvent::HistoryChanged => Some(WireEvent::HistoryChanged),
        DomainEvent::ImportChanged => Some(WireEvent::ImportChanged { import: domain.import.clone() }),
        DomainEvent::Health => Some(health_event(domain)),
        DomainEvent::SearchChanged => None,
        DomainEvent::ChannelChanged => None,
    }
}

/// The domain event a client raises for a received wire event.
pub open spec fn spec_domain_event_for<P, D, I>(event: WireEvent<P, D, I>) -> DomainEvent {
    match event {
        WireEvent::QueueChanged { .. } => DomainEvent::QueueChanged,
        WireEvent::PlaybackProgress { .. } => DomainEvent::PlaybackChanged,
        WireEvent::TrackChanged { .. } => DomainEvent::TrackChanged,
        WireEvent::TrackDetailsChanged { .. } => DomainEvent::TrackDetailsChanged,
        WireEvent::PlaylistsChanged { .. } => DomainEvent::PlaylistsChanged,
        WireEvent::HistoryChanged => DomainEvent::HistoryChanged,
        WireEvent::ImportChanged { .. } => DomainEvent::ImportChanged,
        WireEvent::Health { .. } => DomainEvent::Health,
        WireEvent::ChannelChanged => DomainEvent::ChannelChanged,
    }
}

/// Map a wire event onto the domain event used for client UI invariants.
pub fn domain_event_for<P, D, I>(event: &WireEvent<P, D, I>) -> (domain_event: Option<DomainEvent>)
    ensures
        domain_event == Some(spec_domain_event_for(*event)),
{
    match event {
        WireEvent::QueueChanged { .. } => Some(DomainEvent::QueueChanged),
        WireEvent::PlaybackProgress { .. } => Some(DomainEvent::PlaybackChanged),
        WireEvent::TrackChanged { .. } => Some(DomainEvent::TrackChanged),
        WireEvent::TrackDetailsChanged { .. } => Some(DomainEvent::TrackDetailsChanged),
        WireEvent::PlaylistsChanged { .. } => Some(DomainEvent::PlaylistsChanged),
        WireEvent::HistoryChanged => Some(DomainEvent::HistoryChanged),
        WireEvent::ImportChanged { .. } => Some(DomainEvent::ImportChanged),
        WireEvent::Health { .. } => Some(DomainEvent::Health),
        WireEvent::ChannelChanged => Some(DomainEvent::ChannelChanged),
    }
}

/// A broadcast event reaches clients as the same domain event the daemon
/// observed: mapping to the wire and back is the identity.
pub proof fn lemma_broadcast_round_trip<P: Clone, D: Clone, I: Clone>(
    domain: DomainState<P, D, I>,
    event: DomainEvent,
    wire: WireEvent<P, D, I>,
)
    requires
        is_broadcast(event),
        carries_fresh_payload(domain, event, wire),
    ensures
        spec_domain_event_for(wire) == event,
{
}

/// Whether `snapshot` carries the daemon-owned part of `domain`.
pub open spec fn carries_state<P, D, I>(domain: DomainState<P, D, I>, snapshot: Snapshot<P, D>) -> bool where
    P: Clone,
    D: Clone,
 {
    &&& snapshot.queue.tracks@ == domain.queue.tracks@
    &&& snapshot.queue.order@ == domain.queue.order@
    &&& snapshot.queue.position == domain.queue.position
    &&& snapshot.queue.shuffle == domain.queue.shuffle
    &&& snapshot.queue.repeat == domain.queue.repeat
    &&& snapshot.queue_revision == domain.queue_revision
    &&& cloned(domain.playback, snapshot.playback)
    &&& snapshot.current_track == domain.current_track
    &&& (snapshot.current_details is Some <==> domain.current_details is Some)
    &&& (snapshot.current_details is Some ==> cloned(
        domain.current_details->Some_0,
        snapshot.current_details->Some_0,
    ))
    &&& same_playlists(snapshot.playlists@, domain.playlists@)
    &&& snapshot.playlists_revision == domain.playlists_revision
    &&& snapshot.health == (Health { mpv_ready: domain.mpv_ready, yt_dlp_ready: domain.yt_dlp_ready })
}

/// A full copy of the daemon-owned state, as a welcome or a status reply carries it.
pub fn snapshot_of<P: Clone, D: Clone, I>(domain: &DomainState<P, D, I>) -> (snapshot: Snapshot<P, D>)
    ensures
        carries_state(*domain, snapshot),
{
    Snapshot {
        queue: domain.queue.duplicate(),
        queue_revision: domain.queue_revision,
        playback: domain.playback.clone(),
        current_track: duplicate_optional_track(&domain.current_track),
        current_details: domain.current_details.clone(),
        playlists: duplicate_playlists(&domain.playlists),
        playlists_revision: domain.playlists_revision,
        health: Health { mpv_ready: domain.mpv_ready, yt_dlp_ready: domain.yt_dlp_ready },
    }
}

/// The welcome a newly connected client receives.
pub fn welcome_frame<P: Clone, D: Clone, I>(domain: &DomainState<P, D, I>, protocol: u32) -> (frame: DaemonFrame<P, D, I>)
    ensures
        frame matches DaemonFrame::Welcome { protocol: p, snapshot } && p == protocol && carries_state(
            *domain,
            snapshot,
        ),
{
    DaemonFrame::Welcome { protocol, snapshot: snapshot_of(domain) }
}

/// The reply to a status command.
pub fn status_reply<P: Clone, D: Clone, I>(domain: &DomainState<P, D, I>) -> (reply: ReplyResult<P, D>)
    ensures
        reply matches ReplyResult::Result(ReplyBody::Status { snapshot }) && carries_state(*domain, snapshot),
{
    ReplyResult::Result(ReplyBody::Status { snapshot: snapshot_of(domain) })
}

/// A client hydrated from the daemon's snapshot holds the daemon's queue,
/// revisions, current track, playlists and tool health, and keeps its own
/// search state, whatever it held before.
pub proof fn lemma_welcome_hydrates_the_mirror<P: Clone, D: Clone, I>(
    mirror: DomainState<P, D, I>,
    daemon: DomainState<P, D, I>,
    snapshot: Snapshot<P, D>,
)
    requires
        carries_state(daemon, snapshot),
        queue_valid(daemon.queue),
    ensures
        ({
            let after = spec_apply_snapshot(mirror, snapshot);
            &&& after.queue.tracks@ == daemon.queue.tracks@
            &&& after.queue.order@ == daemon.queue.order@
            &&& after.queue.position == daemon.queue.position
            &&& after.queue_revision == daemon.queue_revision
            &&& after.current_track == daemon.current_track
            &&& same_playlists(after.playlists@, daemon.playlists@)
            &&& after.playlists_revision == daemon.playlists_revision
            &&& after.mpv_ready == daemon.mpv_ready
            &&& after.yt_dlp_ready == daemon.yt_dlp_ready
            &&& after.search == mirror.search
            &&& after.channel == mirror.channel
        }),
{
    assert(order_in_range(snapshot.queue.tracks@.len(), snapshot.queue.order@));
}

} // verus!
