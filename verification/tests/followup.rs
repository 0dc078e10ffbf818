use ratatube::followup::{plan_after_track_started, plan_resolution, Prefetched};
use ratatube::media::Track;
use ratatube::queue::{Queue, RepeatMode};

fn queue(ids: &[&str]) -> Queue {
    let mut q = Queue::new();
    for id in ids {
        q.push(Track::new(id, id, "C"));
    }
    q
}

#[test]
fn the_next_track_is_prefetched() {
    let mut q = queue(&["a", "b"]);
    q.position = Some(0);
    let plan = plan_after_track_started(&q, false, false, None, None);
    assert_eq!(plan.prefetch.map(|t| t.id), Some("b".to_string()));
    assert!(plan.refill_seed.is_none());
}

#[test]
fn an_already_prefetched_track_is_not_fetched_again() {
    let mut q = queue(&["a", "b"]);
    q.position = Some(0);
    let id = "b".to_string();
    let plan = plan_after_track_started(&q, false, false, None, Some(&id));
    assert!(plan.prefetch.is_none());
}

#[test]
fn repeating_the_queue_wraps_and_repeating_a_track_prefetches_nothing() {
    let mut q = queue(&["a", "b"]);
    q.position = Some(1);
    assert!(plan_after_track_started(&q, false, false, None, None).prefetch.is_none());
    q.repeat = RepeatMode::Queue;
    let plan = plan_after_track_started(&q, false, false, None, None);
    assert_eq!(plan.prefetch.map(|t| t.id), Some("a".to_string()));
    q.repeat = RepeatMode::Track;
    assert!(plan_after_track_started(&q, false, false, None, None).prefetch.is_none());
}

#[test]
fn radio_refills_at_the_end_unless_already_fetching() {
    let mut q = queue(&["a", "b"]);
    q.position = Some(1);
    let current = Track::new("b", "b", "C");
    let plan = plan_after_track_started(&q, true, false, Some(&current), None);
    assert_eq!(plan.refill_seed.as_deref(), Some("b"));
    let plan = plan_after_track_started(&q, true, true, Some(&current), None);
    assert!(plan.refill_seed.is_none());
    q.position = Some(0);
    let plan = plan_after_track_started(&q, true, false, Some(&current), None);
    assert!(plan.refill_seed.is_none());
}

#[test]
fn nothing_follows_without_a_position() {
    let q = queue(&["a"]);
    let plan = plan_after_track_started(&q, true, false, None, None);
    assert!(plan.prefetch.is_none() && plan.refill_seed.is_none());
}

#[test]
fn resolution_reuses_a_fresh_prefetch_of_the_same_track() {
    let q = queue(&["a", "b"]);
    let fresh = Prefetched { track_id: "b".into(), url: "https://stream".into(), age_secs: 10 };
    let plan = plan_resolution(&q, 1, Some(fresh)).expect("plan");
    assert_eq!(plan.track.id, "b");
    assert_eq!(plan.ready_url.as_deref(), Some("https://stream"));
    assert_eq!(plan.notice, "Resolving: b");
    let stale = Prefetched { track_id: "b".into(), url: "u".into(), age_secs: 7200 };
    assert!(plan_resolution(&q, 1, Some(stale)).expect("plan").ready_url.is_none());
    let other = Prefetched { track_id: "a".into(), url: "u".into(), age_secs: 1 };
    assert!(plan_resolution(&q, 1, Some(other)).expect("plan").ready_url.is_none());
    assert!(plan_resolution(&q, 2, None).is_none());
}
