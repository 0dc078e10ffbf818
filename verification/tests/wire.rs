use ratatube::media::Track;
use ratatube::mirror::{apply_snapshot, DomainState, Health, WireEvent};
use ratatube::queue::{Queue, QueueError};
use ratatube::wire::{
    domain_event_for, health_event, status_reply, welcome_frame, wire_event, DaemonFrame, DomainEvent, ReplyBody,
    ReplyResult,
};

type Domain = DomainState<u32, u32, u32>;

#[test]
fn broadcast_events_round_trip_to_the_same_domain_event() {
    let mut domain: Domain = DomainState::new(7);
    domain.queue.push(Track::new("a", "A", "C"));
    domain.queue_revision = 4;
    let events = [
        DomainEvent::QueueChanged,
        DomainEvent::PlaybackChanged,
        DomainEvent::TrackChanged,
        DomainEvent::TrackDetailsChanged,
        DomainEvent::PlaylistsChanged,
        DomainEvent::HistoryChanged,
        DomainEvent::ImportChanged,
        DomainEvent::Health,
    ];
    for event in events {
        let wire = wire_event(&domain, event).expect("broadcast");
        assert_eq!(domain_event_for(&wire), Some(event));
    }
}

#[test]
fn search_and_channel_changes_are_never_broadcast() {
    let domain: Domain = DomainState::new(0);
    assert!(wire_event(&domain, DomainEvent::SearchChanged).is_none());
    assert!(wire_event(&domain, DomainEvent::ChannelChanged).is_none());
}

#[test]
fn queue_events_carry_the_current_queue_and_revision() {
    let mut domain: Domain = DomainState::new(0);
    domain.queue.push(Track::new("a", "A", "C"));
    domain.queue_revision = 11;
    match wire_event(&domain, DomainEvent::QueueChanged) {
        Some(WireEvent::QueueChanged { queue, queue_revision }) => {
            assert_eq!(queue_revision, 11);
            assert_eq!(queue.tracks[0].id, "a");
            assert_eq!(queue.order, vec![0]);
        }
        _ => panic!("expected a queue event"),
    }
}

#[test]
fn health_events_report_tool_readiness() {
    let mut domain: Domain = DomainState::new(0);
    domain.mpv_ready = true;
    match health_event(&domain) {
        WireEvent::Health { health: Health { mpv_ready, yt_dlp_ready } } => {
            assert!(mpv_ready);
            assert!(!yt_dlp_ready);
        }
        _ => panic!("expected a health event"),
    }
}

#[test]
fn queue_validation_names_the_first_bad_entry() {
    let mut queue = Queue::new();
    queue.push(Track::new("a", "A", "C"));
    assert_eq!(queue.validate(), Ok(()));
    queue.order = vec![0, 5, 9];
    assert_eq!(
        queue.validate(),
        Err(QueueError::OrderEntryOutOfRange { order_index: 1, track_index: 5 })
    );
    queue.order = vec![0];
    queue.position = Some(1);
    assert_eq!(queue.validate(), Err(QueueError::PositionOutOfRange { position: 1 }));
}

#[test]
fn track_at_follows_the_play_order() {
    let mut queue = Queue::new();
    queue.push(Track::new("a", "A", "C"));
    queue.push(Track::new("b", "B", "C"));
    queue.order = vec![1, 0];
    assert_eq!(queue.track_at(0).map(|t| t.id), Some("b".to_string()));
    assert_eq!(queue.track_at(1).map(|t| t.id), Some("a".to_string()));
    assert!(queue.track_at(2).is_none());
}

#[test]
fn welcome_and_status_carry_the_daemon_state() {
    let mut daemon: Domain = DomainState::new(5);
    daemon.queue.push(Track::new("a", "A", "C"));
    daemon.queue_revision = 8;
    daemon.current_track = Some(Track::new("a", "A", "C"));
    daemon.yt_dlp_ready = true;
    let snapshot = match welcome_frame(&daemon, 3) {
        DaemonFrame::Welcome { protocol, snapshot } => {
            assert_eq!(protocol, 3);
            snapshot
        }
        _ => panic!("expected a welcome"),
    };
    let mut mirror: Domain = DomainState::new(0);
    apply_snapshot(&mut mirror, snapshot);
    assert_eq!(mirror.queue.tracks[0].id, "a");
    assert_eq!(mirror.queue_revision, 8);
    assert_eq!(mirror.playback, 5);
    assert!(mirror.yt_dlp_ready);
    match status_reply(&daemon) {
        ReplyResult::Result(ReplyBody::Status { snapshot }) => assert_eq!(snapshot.queue_revision, 8),
        _ => panic!("expected a status"),
    }
}
