use ratatube::media::Track;
use ratatube::mirror::{apply_event, apply_snapshot, DomainState, Health, SearchState, Snapshot, WireEvent};
use ratatube::queue::Queue;

/// Stand-in for the details payload the mirror carries.
#[derive(Clone, Copy, Debug, PartialEq)]
struct Details;

type Mirror = DomainState<(), Details, ()>;

fn mirror() -> Mirror {
    DomainState::new(())
}

fn snapshot_of(domain: &Mirror) -> Snapshot<(), Details> {
    Snapshot {
        queue: domain.queue.duplicate(),
        queue_revision: domain.queue_revision,
        playback: (),
        current_track: domain.current_track.as_ref().map(|track| track.duplicate()),
        current_details: domain.current_details,
        playlists: Vec::new(),
        playlists_revision: domain.playlists_revision,
        health: Health {
            mpv_ready: domain.mpv_ready,
            yt_dlp_ready: domain.yt_dlp_ready,
        },
    }
}

fn snapshot_with_track() -> Snapshot<(), Details> {
    let mut domain = mirror();
    domain.queue.push(Track::new("a", "Title A", "Channel"));
    domain.current_track = Some(Track::new("a", "Title A", "Channel"));
    domain.mpv_ready = true;
    snapshot_of(&domain)
}

/// A queue whose single `order` entry points past the end of `tracks`.
fn queue_with_out_of_range_order() -> Queue {
    let mut queue = Queue::new();
    queue.push(Track::new("z", "Title Z", "Channel"));
    queue.order = vec![9];
    queue
}

/// A mirror already holding one valid track at a known revision.
fn hydrated_mirror() -> Mirror {
    let mut mirror = mirror();
    let mut queue = Queue::new();
    queue.push(Track::new("a", "Title A", "Channel"));
    apply_event(&mut mirror, WireEvent::QueueChanged { queue, queue_revision: 3 });
    mirror
}

fn ids(domain: &Mirror) -> Vec<&str> {
    domain.queue.tracks.iter().map(|track| track.id.as_str()).collect()
}

#[test]
fn snapshot_hydrates_the_mirror() {
    let mut mirror = mirror();
    apply_snapshot(&mut mirror, snapshot_with_track());
    assert_eq!(mirror.queue.tracks.len(), 1);
    assert_eq!(mirror.current_track.as_ref().map(|t| t.id.as_str()), Some("a"));
    assert!(mirror.mpv_ready);
}

#[test]
fn queue_event_replaces_queue_and_revision() {
    let mut mirror = mirror();
    let mut queue = Queue::new();
    queue.push(Track::new("b", "Title B", "Channel"));
    apply_event(&mut mirror, WireEvent::QueueChanged { queue, queue_revision: 7 });
    assert_eq!(mirror.queue.tracks.len(), 1);
    assert_eq!(mirror.queue_revision, 7);
}

#[test]
fn snapshot_with_invalid_queue_keeps_the_mirrored_queue() {
    let mut mirror = hydrated_mirror();
    let mut daemon = DomainState::new(());
    daemon.queue = queue_with_out_of_range_order();
    daemon.queue_revision = 42;

    apply_snapshot(&mut mirror, snapshot_of(&daemon));

    assert_eq!(ids(&mirror), vec!["a"]);
    assert_eq!(mirror.queue.order, vec![0]);
    assert_eq!(mirror.queue_revision, 3);
}

#[test]
fn queue_event_with_invalid_queue_keeps_the_mirrored_queue() {
    let mut mirror = hydrated_mirror();
    apply_event(
        &mut mirror,
        WireEvent::QueueChanged { queue: queue_with_out_of_range_order(), queue_revision: 42 },
    );
    assert_eq!(ids(&mirror), vec!["a"]);
    assert_eq!(mirror.queue_revision, 3);
}

#[test]
fn a_valid_queue_still_applies_after_a_rejection() {
    let mut mirror = hydrated_mirror();
    apply_event(
        &mut mirror,
        WireEvent::QueueChanged { queue: queue_with_out_of_range_order(), queue_revision: 42 },
    );
    let mut queue = Queue::new();
    queue.push(Track::new("b", "Title B", "Channel"));
    queue.push(Track::new("c", "Title C", "Channel"));
    apply_event(&mut mirror, WireEvent::QueueChanged { queue, queue_revision: 43 });
    assert_eq!(ids(&mirror), vec!["b", "c"]);
    assert_eq!(mirror.queue_revision, 43);
}

#[test]
fn track_change_clears_stale_details() {
    let mut mirror = mirror();
    mirror.current_details = Some(Details);
    apply_event(
        &mut mirror,
        WireEvent::TrackChanged { track: Some(Track::new("c", "Title C", "Channel")) },
    );
    assert_eq!(mirror.current_track.as_ref().map(|t| t.id.as_str()), Some("c"));
    assert!(mirror.current_details.is_none());
}

#[test]
fn events_never_touch_client_owned_search_state() {
    let mut mirror = mirror();
    mirror.search = SearchState::Results {
        query: "local".into(),
        tracks: vec![Track::new("s", "Search hit", "Channel")],
    };
    apply_event(
        &mut mirror,
        WireEvent::Health { health: Health { mpv_ready: true, yt_dlp_ready: true } },
    );
    assert!(matches!(mirror.search, SearchState::Results { .. }));
}

#[test]
fn queue_with_position_past_the_order_is_refused() {
    let mut mirror = hydrated_mirror();
    let mut queue = Queue::new();
    queue.push(Track::new("b", "Title B", "Channel"));
    queue.position = Some(1);
    apply_event(&mut mirror, WireEvent::QueueChanged { queue, queue_revision: 9 });
    assert_eq!(ids(&mirror), vec!["a"]);
    assert_eq!(mirror.queue_revision, 3);
}

#[test]
fn playlists_and_health_events_update_their_fields_only() {
    let mut mirror = hydrated_mirror();
    apply_event(&mut mirror, WireEvent::PlaylistsChanged { playlists: Vec::new(), playlists_revision: 5 });
    apply_event(&mut mirror, WireEvent::Health { health: Health { mpv_ready: true, yt_dlp_ready: false } });
    apply_event(&mut mirror, WireEvent::HistoryChanged);
    assert_eq!(mirror.playlists_revision, 5);
    assert!(mirror.mpv_ready);
    assert!(!mirror.yt_dlp_ready);
    assert_eq!(mirror.queue_revision, 3);
}
