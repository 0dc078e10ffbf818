use ratatube::actions::{Action, NavigationAction, PlaybackAction, QueueAction};
use ratatube::client_route::Command;
use ratatube::daemon::{
    daemon_step, no_queue_entry_text, plan_command, settle_pending_search, CommandPlan, LoopEffect,
    LoopEvent, LoopState, PendingSearch,
};
use ratatube::operations::{OperationId, OperationKind, OperationRegistry};
use ratatube::media::Track;
use ratatube::mirror::DomainState;
use ratatube::wire::{ReplyBody, ReplyResult};

type Domain = DomainState<(), (), ()>;
type Plan = CommandPlan<f64, (), ()>;
type Act = Action<f64, (), ()>;

fn plan(command: Command<f64>, domain: &Domain) -> Plan {
    plan_command(command, domain)
}

#[test]
fn status_replies_with_a_snapshot() {
    assert!(matches!(plan(Command::Status, &DomainState::new(())), CommandPlan::Status));
}

#[test]
fn shutdown_quits() {
    match plan(Command::Shutdown, &DomainState::new(())) {
        CommandPlan::Dispatch { action: Action::Navigation(NavigationAction::Quit), autoplay_first_search: false } => {}
        _ => panic!("expected quit"),
    }
}

#[test]
fn queue_removal_resolves_the_track_at_the_position() {
    let mut domain: Domain = DomainState::new(());
    domain.queue.push(Track::new("a", "A", "C"));
    domain.queue.push(Track::new("b", "B", "C"));
    match plan(Command::QueueRemove { order_index: 1, expected_revision: 4 }, &domain) {
        CommandPlan::Dispatch {
            action: Action::Queue(QueueAction::RemoveTrackOccurrence { order_index, expected_track, expected_revision }),
            ..
        } => {
            assert_eq!(order_index, 1);
            assert_eq!(expected_track.id, "b");
            assert_eq!(expected_revision, 4);
        }
        _ => panic!("expected a removal"),
    }
}

#[test]
fn queue_removal_past_the_end_is_refused() {
    let domain: Domain = DomainState::new(());
    match plan(Command::QueueRemove { order_index: 12, expected_revision: 0 }, &domain) {
        CommandPlan::Refuse { message } => assert_eq!(message, "no queue entry at position 12"),
        _ => panic!("expected a refusal"),
    }
    assert_eq!(no_queue_entry_text(0), "no queue entry at position 0");
}

#[test]
fn searches_defer_their_reply_and_play_query_autoplays() {
    let domain: Domain = DomainState::new(());
    match plan(Command::Search { query: "q".into() }, &domain) {
        CommandPlan::DeferredSearch { action: Action::Navigation(NavigationAction::SubmitSearch(q)) } => assert_eq!(q, "q"),
        _ => panic!("expected a deferred search"),
    }
    match plan(Command::SearchExact { url: "u".into() }, &domain) {
        CommandPlan::DeferredSearch { action: Action::Navigation(NavigationAction::SubmitExactVideo(u)) } => assert_eq!(u, "u"),
        _ => panic!("expected a deferred exact search"),
    }
    match plan(Command::PlayQuery { query: "song".into() }, &domain) {
        CommandPlan::Dispatch { action: Action::Navigation(NavigationAction::SubmitSearch(q)), autoplay_first_search: true } => {
            assert_eq!(q, "song")
        }
        _ => panic!("expected an autoplaying search"),
    }
}

#[test]
fn relative_commands_map_to_their_actions() {
    let domain: Domain = DomainState::new(());
    assert!(matches!(
        plan(Command::Seek { seconds: -5 }, &domain),
        CommandPlan::Dispatch { action: Action::Playback(PlaybackAction::SeekBy(-5)), .. }
    ));
    assert!(matches!(
        plan(Command::Volume { delta: 2 }, &domain),
        CommandPlan::Dispatch { action: Action::Playback(PlaybackAction::VolumeBy(2)), .. }
    ));
    assert!(matches!(
        plan(Command::QueueAdd { track: Track::new("a", "A", "C"), next: true }, &domain),
        CommandPlan::Dispatch { action: Action::Queue(QueueAction::AddNext(_)), .. }
    ));
}

#[test]
fn a_completion_answers_the_pending_search_once() {
    let mut pending = Some(PendingSearch { client_id: 3, reply_id: 9, generation: 2 });
    let done: Act = Action::Navigation(NavigationAction::SearchCompleted {
        generation: 2,
        tracks: vec![Track::new("a", "A", "C")],
    });
    let reply = settle_pending_search::<f64, (), (), (), ()>(&done, &mut pending, 2).expect("reply");
    assert_eq!(reply.client_id, 3);
    assert_eq!(reply.reply_id, 9);
    match reply.result {
        ReplyResult::Result(ReplyBody::Tracks { tracks }) => assert_eq!(tracks[0].id, "a"),
        _ => panic!("expected tracks"),
    }
    assert!(pending.is_none());
    assert!(settle_pending_search::<f64, (), (), (), ()>(&done, &mut pending, 2).is_none());
}

#[test]
fn a_failure_answers_with_its_message() {
    let mut pending = Some(PendingSearch { client_id: 1, reply_id: 5, generation: 7 });
    let failed: Act = Action::Navigation(NavigationAction::SearchFailed { generation: 7, message: "offline".into() });
    let reply = settle_pending_search::<f64, (), (), (), ()>(&failed, &mut pending, 7).expect("reply");
    assert!(matches!(reply.result, ReplyResult::Error(message) if message == "offline"));
    assert!(pending.is_none());
}

#[test]
fn superseded_searches_are_dropped_and_stale_completions_ignored() {
    let mut pending = Some(PendingSearch { client_id: 1, reply_id: 5, generation: 7 });
    let stale: Act = Action::Navigation(NavigationAction::SearchCompleted { generation: 6, tracks: vec![] });
    assert!(settle_pending_search::<f64, (), (), (), ()>(&stale, &mut pending, 7).is_none());
    assert_eq!(pending, Some(PendingSearch { client_id: 1, reply_id: 5, generation: 7 }));
    let unrelated: Act = Action::Navigation(NavigationAction::Quit);
    assert!(settle_pending_search::<f64, (), (), (), ()>(&unrelated, &mut pending, 8).is_none());
    assert!(pending.is_none());
}

fn loop_state(deadline: Option<u64>) -> LoopState {
    LoopState { sleep_deadline_ms: deadline, recovering: false, player_configured: true }
}

#[test]
fn a_lost_player_is_restarted_once_and_only_its_own_completion_counts() {
    let mut registry = OperationRegistry::new();
    let mut state = loop_state(None);
    let quiet = daemon_step(&mut state, &mut registry, true, LoopEvent::Player { shutdown: false });
    assert_eq!(quiet, LoopEffect::Nothing);

    let operation = match daemon_step(&mut state, &mut registry, true, LoopEvent::Player { shutdown: true }) {
        LoopEffect::BeginRestart(operation) => operation,
        other => panic!("expected a restart, got {other:?}"),
    };
    assert!(state.recovering);
    assert!(registry.is_current(OperationKind::PlaybackRecovery, operation));
    let again = daemon_step(&mut state, &mut registry, true, LoopEvent::Player { shutdown: true });
    assert_eq!(again, LoopEffect::Nothing);

    let stale = LoopEvent::RestartFinished { operation: OperationId(operation.0 + 1), restarted: true };
    assert_eq!(daemon_step(&mut state, &mut registry, true, stale), LoopEffect::Nothing);
    assert!(state.recovering);

    let done = LoopEvent::RestartFinished { operation, restarted: true };
    assert_eq!(daemon_step(&mut state, &mut registry, true, done), LoopEffect::InstallRestarted);
    assert!(!state.recovering);
    assert!(!registry.is_current(OperationKind::PlaybackRecovery, operation));
    let late = LoopEvent::RestartFinished { operation, restarted: true };
    assert_eq!(daemon_step(&mut state, &mut registry, true, late), LoopEffect::Nothing);
}

#[test]
fn a_failed_restart_is_reported_and_no_restart_runs_when_stopping_or_unconfigured() {
    let mut registry = OperationRegistry::new();
    let mut state = loop_state(None);
    assert_eq!(
        daemon_step(&mut state, &mut registry, false, LoopEvent::Player { shutdown: true }),
        LoopEffect::Nothing
    );
    let mut unconfigured = LoopState { player_configured: false, ..loop_state(None) };
    assert_eq!(
        daemon_step(&mut unconfigured, &mut registry, true, LoopEvent::Player { shutdown: true }),
        LoopEffect::Nothing
    );
    let LoopEffect::BeginRestart(operation) =
        daemon_step(&mut state, &mut registry, true, LoopEvent::Player { shutdown: true })
    else {
        panic!("expected a restart");
    };
    let failed = LoopEvent::RestartFinished { operation, restarted: false };
    assert_eq!(daemon_step(&mut state, &mut registry, true, failed), LoopEffect::RestartFailed);
    assert!(!state.recovering);
}

#[test]
fn the_sleep_timer_stops_playback_once_at_its_deadline() {
    let mut registry = OperationRegistry::new();
    let mut state = loop_state(Some(5_000));
    assert_eq!(daemon_step(&mut state, &mut registry, true, LoopEvent::Tick { now_ms: 4_999 }), LoopEffect::Nothing);
    assert_eq!(state.sleep_deadline_ms, Some(5_000));
    assert_eq!(
        daemon_step(&mut state, &mut registry, true, LoopEvent::Tick { now_ms: 5_000 }),
        LoopEffect::StopPlayback
    );
    assert_eq!(state.sleep_deadline_ms, None);
    assert_eq!(daemon_step(&mut state, &mut registry, true, LoopEvent::Tick { now_ms: 9_000 }), LoopEffect::Nothing);
}
