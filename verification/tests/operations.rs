use ratatube::operations::{
    cancellation_teardown, kind_slot, OperationId, OperationKind, OperationRegistry, Teardown,
    KIND_COUNT,
};

#[test]
fn starting_same_kind_cancels_and_invalidates_previous_operation() {
    let mut registry = OperationRegistry::new();
    let first = registry.start(OperationKind::Playback);
    let second = registry.start(OperationKind::Playback);
    assert_ne!(first, second);
    assert!(!registry.is_current(OperationKind::Playback, first));
    assert!(registry.is_current(OperationKind::Playback, second));
    assert!(!registry.complete(OperationKind::Playback, first));
    assert!(registry.complete(OperationKind::Playback, second));
}

#[test]
fn delayed_operation_does_not_block_independent_actions() {
    let mut registry = OperationRegistry::new();
    let details = registry.start(OperationKind::Details);
    let search = registry.start(OperationKind::Search);
    assert!(registry.complete(OperationKind::Search, search));
    assert!(registry.is_current(OperationKind::Details, details));
}

#[test]
fn cancel_all_aborts_every_owned_task() {
    let mut registry = OperationRegistry::new();
    let a = registry.start(OperationKind::Import);
    let b = registry.start(OperationKind::Radio);
    let cancelled = registry.cancel_all();
    assert_eq!(cancelled.len(), 2);
    assert!(cancelled.contains(&(OperationKind::Import, a)));
    assert!(cancelled.contains(&(OperationKind::Radio, b)));
    assert!(!registry.is_current(OperationKind::Import, a));
    assert!(!registry.is_current(OperationKind::Radio, b));
}

#[test]
fn a_completion_is_accepted_once() {
    let mut registry = OperationRegistry::new();
    let id = registry.start(OperationKind::Thumbnail);
    assert!(registry.attach(OperationKind::Thumbnail, id));
    assert!(registry.complete(OperationKind::Thumbnail, id));
    assert!(!registry.complete(OperationKind::Thumbnail, id));
    assert!(!registry.attach(OperationKind::Thumbnail, id));
}

#[test]
fn cancel_reports_the_running_operation() {
    let mut registry = OperationRegistry::new();
    assert_eq!(registry.cancel(OperationKind::Mix), None);
    let id = registry.start(OperationKind::Mix);
    assert_eq!(registry.cancel(OperationKind::Mix), Some(id));
    assert_eq!(registry.cancel(OperationKind::Mix), None);
}

#[test]
fn issued_identities_never_collide_with_the_mirror_placeholder() {
    let mut registry = OperationRegistry::new();
    let first = registry.start(OperationKind::Session);
    assert_eq!(first, OperationId(1));
    assert_ne!(first, OperationId::mirror_placeholder());
    assert_eq!(OperationId::mirror_placeholder(), OperationId(0));
}

#[test]
fn every_family_has_its_own_slot() {
    let kinds = [
        OperationKind::Playback,
        OperationKind::Import,
        OperationKind::Radio,
        OperationKind::Details,
        OperationKind::Thumbnail,
        OperationKind::SearchThumbnail,
        OperationKind::Search,
        OperationKind::Prefetch,
        OperationKind::Mix,
        OperationKind::Session,
        OperationKind::PlaybackRecovery,
        OperationKind::ExternalCommand,
        OperationKind::ChannelResolve,
        OperationKind::ChannelPage,
    ];
    let mut slots: Vec<usize> = kinds.iter().map(|kind| kind_slot(*kind)).collect();
    slots.sort();
    slots.dedup();
    assert_eq!(slots.len(), KIND_COUNT);
    assert!(slots.iter().all(|slot| *slot < KIND_COUNT));
}

#[test]
fn only_external_commands_finish_cooperatively_when_cancelled() {
    assert_eq!(cancellation_teardown(OperationKind::ExternalCommand), Teardown::Cooperative);
    for kind in [
        OperationKind::Playback,
        OperationKind::Import,
        OperationKind::Search,
        OperationKind::ChannelPage,
        OperationKind::PlaybackRecovery,
    ] {
        assert_eq!(cancellation_teardown(kind), Teardown::Abort);
    }
}
