use ratatube::actions::{Action, NavigationAction, PlaybackAction, PlaylistAction, QueueAction};
use ratatube::dispatch::{action_changes_filterable_data, admit_action, completion, pre_reduce, PreReduce};
use ratatube::media::Track;
use ratatube::operations::{OperationId, OperationKind, OperationRegistry};

type Act = Action<f64, (), ()>;

fn resolved(id: OperationId) -> Act {
    Action::Playback(PlaybackAction::PlaybackResolved {
        operation_id: id,
        queue_position: 0,
        track_id: "a".into(),
        url: "u".into(),
    })
}

#[test]
fn current_completions_are_admitted_once() {
    let mut registry = OperationRegistry::new();
    let id = registry.start(OperationKind::Playback);
    assert!(admit_action(&mut registry, &resolved(id), false));
    assert!(!admit_action(&mut registry, &resolved(id), false));
}

#[test]
fn superseded_completions_are_rejected() {
    let mut registry = OperationRegistry::new();
    let old = registry.start(OperationKind::Playback);
    let new = registry.start(OperationKind::Playback);
    assert!(!admit_action(&mut registry, &resolved(old), false));
    assert!(registry.is_current(OperationKind::Playback, new));
}

#[test]
fn cancelling_an_import_releases_it() {
    let mut registry = OperationRegistry::new();
    let id = registry.start(OperationKind::Import);
    let cancel: Act = Action::Playlists(PlaylistAction::CancelImport);
    assert!(admit_action(&mut registry, &cancel, false));
    assert!(!registry.is_current(OperationKind::Import, id));
}

#[test]
fn turning_radio_off_cancels_its_refill_only_while_on() {
    let mut registry = OperationRegistry::new();
    let id = registry.start(OperationKind::Radio);
    let toggle: Act = Action::Playback(PlaybackAction::ToggleRadio);
    assert!(admit_action(&mut registry, &toggle, false));
    assert!(registry.is_current(OperationKind::Radio, id));
    assert!(admit_action(&mut registry, &toggle, true));
    assert!(!registry.is_current(OperationKind::Radio, id));
}

#[test]
fn completions_name_their_operation_family() {
    let a: Act = Action::Navigation(NavigationAction::ChannelPageLoaded {
        operation_id: OperationId(5),
        channel_url: "c".into(),
        page: 0,
        result: Err("x".into()),
    });
    assert_eq!(completion(&a), Some((OperationKind::ChannelPage, OperationId(5))));
    let quit: Act = Action::Navigation(NavigationAction::Quit);
    assert_eq!(completion(&quit), None);
}

#[test]
fn list_changing_actions_invalidate_filters() {
    let add: Act = Action::Queue(QueueAction::AddToQueue(Track::new("a", "A", "C")));
    assert!(action_changes_filterable_data(&add));
    let pause: Act = Action::Playback(PlaybackAction::PlayPause);
    assert!(!action_changes_filterable_data(&pause));
}

#[test]
fn pre_reduce_work_is_classified() {
    let next: Act = Action::Playback(PlaybackAction::NextTrack);
    assert_eq!(pre_reduce(&next), PreReduce::RecordSkip);
    let stop: Act = Action::Playback(PlaybackAction::Stop);
    assert_eq!(pre_reduce(&stop), PreReduce::CaptureResume);
    let seek: Act = Action::Playback(PlaybackAction::SeekToFraction(0.5));
    assert_eq!(pre_reduce(&seek), PreReduce::Seeking);
    let quit: Act = Action::Navigation(NavigationAction::Quit);
    assert_eq!(pre_reduce(&quit), PreReduce::Nothing);
}
