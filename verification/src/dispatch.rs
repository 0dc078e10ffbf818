//! Action admission before the reducer: completions of superseded
//! operations are rejected, cancellations release their operation, and the
//! work that must happen before the reducer runs is classified.

use vstd::prelude::*;

use crate::actions::{
    Action, ExternalCommandKind, ExternalCommandTarget, HistoryAction, ImportRejections, NavigationAction,
    PlaybackAction, PlaylistAction, QueueAction,
};
use crate::channel::ChannelPage;
use crate::media::Track;
use crate::operations::{OperationId, OperationKind, OperationRegistry};

verus! {

/// The operation a completion action reports back to, when it is one.
pub open spec fn completion_of<F, E, D>(action: Action<F, E, D>) -> Option<(OperationKind, OperationId)> {
    match action {
        Action::Playback(PlaybackAction::PlaybackResolved { operation_id, .. }) => Some((OperationKind::Playback, operation_id)),
        Action::Playback(PlaybackAction::PlaybackResolveFailed { operation_id, .. }) => Some((OperationKind::Playback, operation_id)),
        Action::Playlists(PlaylistAction::ImportCompleted { operation_id, .. }) => Some((OperationKind::Import, operation_id)),
        Action::Playlists(PlaylistAction::ImportFailed { operation_id, .. }) => Some((OperationKind::Import, operation_id)),
        Action::Playback(PlaybackAction::RadioTracksLoaded { operation_id, .. }) => Some((OperationKind::Radio, operation_id)),
        Action::Playback(PlaybackAction::DetailsLoaded { operation_id, .. }) => Some((OperationKind::Details, operation_id)),
        Action::Playback(PlaybackAction::DetailsFailed { operation_id, .. }) => Some((OperationKind::Details, operation_id)),
        Action::Playback(PlaybackAction::PrefetchResolved { operation_id, .. }) => Some((OperationKind::Prefetch, operation_id)),
        Action::Playback(PlaybackAction::ThumbnailLoaded { operation_id, .. }) => Some((OperationKind::Thumbnail, operation_id)),
        Action::Playback(PlaybackAction::SearchThumbnailLoaded { operation_id, .. }) => Some((OperationKind::SearchThumbnail, operation_id)),
        Action::Playback(PlaybackAction::SessionStreamResolved { operation_id, .. }) => Some((OperationKind::Session, operation_id)),
        Action::Playback(PlaybackAction::SessionResolveFailed { operation_id, .. }) => Some((OperationKind::Session, operation_id)),
        Action::Playback(PlaybackAction::MixLoaded { operation_id, .. }) => Some((OperationKind::Mix, operation_id)),
        Action::Navigation(NavigationAction::ExternalCommandCompleted { operation_id, .. }) => Some((OperationKind::ExternalCommand, operation_id)),
        Action::Navigation(NavigationAction::ChannelResolved { operation_id, .. }) => Some((OperationKind::ChannelResolve, operation_id)),
        Action::Navigation(NavigationAction::ChannelPageLoaded { operation_id, .. }) => Some((OperationKind::ChannelPage, operation_id)),
        _ => None,
    }
}

/// The operation family an action cancels before it is reduced, when it
/// cancels one: cancelling an import, or turning radio off while it is on.
pub open spec fn cancellation_of<F, E, D>(action: Action<F, E, D>, radio_on: bool) -> Option<OperationKind> {
    match action {
        Action::Playlists(PlaylistAction::CancelImport) => Some(OperationKind::Import),
        Action::Playback(PlaybackAction::ToggleRadio) => if radio_on {
            Some(OperationKind::Radio)
        } else {
            None
        },
        _ => None,
    }
}

/// Whether an action reaches the reducer, and the ownership map after it.
pub open spec fn spec_admission<F, E, D>(
    owned: Map<OperationKind, OperationId>,
    action: Action<F, E, D>,
    radio_on: bool,
) -> (bool, Map<OperationKind, OperationId>) {
    match completion_of(action) {
        Some((kind, id)) => if owned.dom().contains(kind) && owned[kind] == id {
            (true, owned.remove(kind))
        } else {
            (false, owned)
        },
        None => match cancellation_of(action, radio_on) {
            Some(kind) => (true, owned.remove(kind)),
            None => (true, owned),
        },
    }
}

/// The completion an action carries, read at run time.
pub fn completion<F, E, D>(action: &Action<F, E, D>) -> (reported: Option<(OperationKind, OperationId)>)
    ensures
        reported == completion_of(*action),
{
    match action {
        Action::Playback(PlaybackAction::PlaybackResolved { operation_id, .. })
        | Action::Playback(PlaybackAction::PlaybackResolveFailed { operation_id, .. }) => Some((OperationKind::Playback, *operation_id)),
        Action::Playlists(PlaylistAction::ImportCompleted { operation_id, .. })
        | Action::Playlists(PlaylistAction::ImportFailed { operation_id, .. }) => Some((OperationKind::Import, *operation_id)),
        Action::Playback(PlaybackAction::RadioTracksLoaded { operation_id, .. }) => Some((OperationKind::Radio, *operation_id)),
        Action::Playback(PlaybackAction::DetailsLoaded { operation_id, .. })
        | Action::Playback(PlaybackAction::DetailsFailed { operation_id, .. }) => Some((OperationKind::Details, *operation_id)),
        Action::Playback(PlaybackAction::PrefetchResolved { operation_id, .. }) => Some((OperationKind::Prefetch, *operation_id)),
        Action::Playback(PlaybackAction::ThumbnailLoaded { operation_id, .. }) => Some((OperationKind::Thumbnail, *operation_id)),
        Action::Playback(PlaybackAction::SearchThumbnailLoaded { operation_id, .. }) => Some((OperationKind::SearchThumbnail, *operation_id)),
        Action::Playback(PlaybackAction::SessionStreamResolved { operation_id, .. })
        | Action::Playback(PlaybackAction::SessionResolveFailed { operation_id, .. }) => Some((OperationKind::Session, *operation_id)),
        Action::Playback(PlaybackAction::MixLoaded { operation_id, .. }) => Some((OperationKind::Mix, *operation_id)),
        Action::Navigation(NavigationAction::ExternalCommandCompleted { operation_id, .. }) => Some((OperationKind::ExternalCommand, *operation_id)),
        Action::Navigation(NavigationAction::ChannelResolved { operation_id, .. }) => Some((OperationKind::ChannelResolve, *operation_id)),
        Action::Navigation(NavigationAction::ChannelPageLoaded { operation_id, .. }) => Some((OperationKind::ChannelPage, *operation_id)),
        _ => None,
    }
}

/// Admit an action against the operations this application owns. A
/// completion is admitted only while it carries the current identity of its
/// family, which it then releases; a stale one changes nothing and must not
/// reach the reducer. Cancelling an import, or turning an active radio off,
/// releases that family first.
pub fn admit_action<F, E, D>(registry: &mut OperationRegistry, action: &Action<F, E, D>, radio_on: bool) -> (admitted: bool)
    requires
        old(registry).well_formed(),
    ensures
        final(registry).well_formed(),
        (admitted, final(registry)@) == spec_admission(old(registry)@, *action, radio_on),
        final(registry).last_issued() == old(registry).last_issued(),
{
    match completion(action) {
        Some((kind, id)) => registry.complete(kind, id),
        None => {
            let cancelled = match action {
                Action::Playlists(PlaylistAction::CancelImport) => Some(OperationKind::Import),
                Action::Playback(PlaybackAction::ToggleRadio) => if radio_on {
                    Some(OperationKind::Radio)
                } else {
                    None
                },
                _ => None,
            };
            match cancelled {
                Some(kind) => {
                    let _ = registry.cancel(kind);
                },
                None => {},
            }
            true
        },
    }
}

/// A completion reaches the reducer at most once: once admitted, the same
/// completion is stale.
pub proof fn lemma_completion_admitted_once<F, E, D>(
    owned: Map<OperationKind, OperationId>,
    action: Action<F, E, D>,
    radio_on: bool,
)
    requires
        completion_of(action) is Some,
    ensures
        !spec_admission(spec_admission(owned, action, radio_on).1, action, radio_on).0,
{
}

/// A stale completion never reaches the reducer and leaves ownership unchanged.
pub proof fn lemma_stale_completion_changes_nothing<F, E, D>(
    owned: Map<OperationKind, OperationId>,
    action: Action<F, E, D>,
    radio_on: bool,
)
    requires
        completion_of(action) matches Some((kind, id)) && !(owned.dom().contains(kind) && owned[kind] == id),
    ensures
        spec_admission(owned, action, radio_on) == (false, owned),
{
}

/// Whether an action may change text, order or membership of a filterable list.
pub open spec fn spec_changes_filterable_data<F, E, D>(action: Action<F, E, D>) -> bool {
    match action {
        Action::Queue(QueueAction::AddToQueue(_)) => true,
        Action::Queue(QueueAction::AddNext(_)) => true,
        Action::Queue(QueueAction::RemoveSelectedFromQueue) => true,
        Action::Queue(QueueAction::RemoveTrackOccurrence { .. }) => true,
        Action::Queue(QueueAction::UndoQueueRemoval) => true,
        Action::Queue(QueueAction::MoveSelectedInQueue(_)) => true,
        Action::Queue(QueueAction::ClearQueueConfirmed) => true,
        Action::Playback(PlaybackAction::PlayTrack(_)) => true,
        Action::Playback(PlaybackAction::MixLoaded { .. }) => true,
        Action::Playback(PlaybackAction::RadioTracksLoaded { .. }) => true,
        Action::Playlists(PlaylistAction::PlaylistSaved(_)) => true,
        Action::Playlists(PlaylistAction::RemoveSelectedFromPlaylist) => true,
        Action::Playlists(PlaylistAction::RemoveTrackOccurrence { .. }) => true,
        Action::Playlists(PlaylistAction::MoveSelectedInPlaylist(_)) => true,
        Action::Playlists(PlaylistAction::LoadPlaylistIntoQueue(_)) => true,
        Action::Playlists(PlaylistAction::AppendPlaylistToQueue(_)) => true,
        Action::Playlists(PlaylistAction::DeletePlaylistConfirmed(_)) => true,
        Action::History(HistoryAction::DeleteSelectedHistoryEntry) => true,
        Action::History(HistoryAction::ClearHistoryConfirmed) => true,
        _ => false,
    }
}

/// Whether an action may change text, order or membership of a filterable
/// list, so list filters must be recomputed.
pub fn action_changes_filterable_data<F, E, D>(action: &Action<F, E, D>) -> (changes: bool)
    ensures
        changes == spec_changes_filterable_data(*action),
{
    match action {
        Action::Queue(QueueAction::AddToQueue(_))
        | Action::Queue(QueueAction::AddNext(_))
        | Action::Queue(QueueAction::RemoveSelectedFromQueue)
        | Action::Queue(QueueAction::RemoveTrackOccurrence { .. })
        | Action::Queue(QueueAction::UndoQueueRemoval)
        | Action::Queue(QueueAction::MoveSelectedInQueue(_))
        | Action::Queue(QueueAction::ClearQueueConfirmed)
        | Action::Playback(PlaybackAction::PlayTrack(_))
        | Action::Playback(PlaybackAction::MixLoaded { .. })
        | Action::Playback(PlaybackAction::RadioTracksLoaded { .. })
        | Action::Playlists(PlaylistAction::PlaylistSaved(_))
        | Action::Playlists(PlaylistAction::RemoveSelectedFromPlaylist)
        | Action::Playlists(PlaylistAction::RemoveTrackOccurrence { .. })
        | Action::Playlists(PlaylistAction::MoveSelectedInPlaylist(_))
        | Action::Playlists(PlaylistAction::LoadPlaylistIntoQueue(_))
        | Action::Playlists(PlaylistAction::AppendPlaylistToQueue(_))
        | Action::Playlists(PlaylistAction::DeletePlaylistConfirmed(_))
        | Action::History(HistoryAction::DeleteSelectedHistoryEntry)
        | Action::History(HistoryAction::ClearHistoryConfirmed) => true,
        _ => false,
    }
}

/// Work that must happen before the reducer replaces playback state.
#[derive(PartialEq, Eq, Structural, Clone, Copy, Debug)]
pub enum PreReduce {
    /// Remember the resume point and record the current track as skipped.
    RecordSkip,
    /// Remember the resume point of the current track.
    CaptureResume,
    /// Hand the fetched thumbnail to the now-playing image.
    ThumbnailLoaded,
    /// Hand the fetched thumbnail to the search detail image.
    SearchThumbnailLoaded,
    /// The playhead jumps; listening time pauses counting.
    Seeking,
    Nothing,
}

/// The pre-reduce work of an action.
pub open spec fn spec_pre_reduce<F, E, D>(action: Action<F, E, D>) -> PreReduce {
    match action {
        Action::Playback(PlaybackAction::NextTrack) => PreReduce::RecordSkip,
        Action::Playback(PlaybackAction::PreviousTrack) => PreReduce::RecordSkip,
        Action::Playback(PlaybackAction::Stop) => PreReduce::CaptureResume,
        Action::Playback(PlaybackAction::PlayTrack(_)) => PreReduce::CaptureResume,
        Action::Playback(PlaybackAction::PlaybackResolved { .. }) => PreReduce::CaptureResume,
        Action::Playback(PlaybackAction::ThumbnailLoaded { .. }) => PreReduce::ThumbnailLoaded,
        Action::Playback(PlaybackAction::SearchThumbnailLoaded { .. }) => PreReduce::SearchThumbnailLoaded,
        Action::Playback(PlaybackAction::SeekForward) => PreReduce::Seeking,
        Action::Playback(PlaybackAction::SeekBackward) => PreReduce::Seeking,
        Action::Playback(PlaybackAction::SeekForwardLarge) => PreReduce::Seeking,
        Action::Playback(PlaybackAction::SeekBackwardLarge) => PreReduce::Seeking,
        Action::Playback(PlaybackAction::SeekToFraction(_)) => PreReduce::Seeking,
        Action::Playback(PlaybackAction::NextChapter) => PreReduce::Seeking,
        Action::Playback(PlaybackAction::PreviousChapter) => PreReduce::Seeking,
        _ => PreReduce::Nothing,
    }
}

/// Classify the work an admitted action needs before it is reduced.
pub fn pre_reduce<F, E, D>(action: &Action<F, E, D>) -> (work: PreReduce)
    ensures
        work == spec_pre_reduce(*action),
{
    match action {
        Action::Playback(PlaybackAction::NextTrack) | Action::Playback(PlaybackAction::PreviousTrack) => PreReduce::RecordSkip,
        Action::Playback(PlaybackAction::Stop)
        | Action::Playback(PlaybackAction::PlayTrack(_))
        | Action::Playback(PlaybackAction::PlaybackResolved { .. }) => PreReduce::CaptureResume,
        Action::Playback(PlaybackAction::ThumbnailLoaded { .. }) => PreReduce::ThumbnailLoaded,
        Action::Playback(PlaybackAction::SearchThumbnailLoaded { .. }) => PreReduce::SearchThumbnailLoaded,
        Action::Playback(PlaybackAction::SeekForward)
        | Action::Playback(PlaybackAction::SeekBackward)
        | Action::Playback(PlaybackAction::SeekForwardLarge)
        | Action::Playback(PlaybackAction::SeekBackwardLarge)
        | Action::Playback(PlaybackAction::SeekToFraction(_))
        | Action::Playback(PlaybackAction::NextChapter)
        | Action::Playback(PlaybackAction::PreviousChapter) => PreReduce::Seeking,
        _ => PreReduce::Nothing,
    }
}

/// Admission of a completion of family `kind` carrying `id`: admitted, and
/// the family released, exactly when `id` is the family's current operation;
/// otherwise dropped with ownership unchanged.
pub open spec fn settles(owned: Map<OperationKind, OperationId>, kind: OperationKind, id: OperationId) -> (
    bool,
    Map<OperationKind, OperationId>,
) {
    if owned.dom().contains(kind) && owned[kind] == id {
        (true, owned.remove(kind))
    } else {
        (false, owned)
    }
}

/// Every action that reports back from background work is checked against
/// the operation family that work ran under, whatever else it carries and
/// whatever the radio state: a result whose identity is not the family's
/// current operation never reaches the reducer.
pub proof fn lemma_every_completion_answers_to_its_family<F, E, D>(
    owned: Map<OperationKind, OperationId>,
    id: OperationId,
    radio_on: bool,
    a: String,
    b: String,
    c: String,
    position: usize,
    tracks: Vec<Track>,
    details: D,
    bytes: Vec<u8>,
    remote_id: Option<String>,
    rejections: ImportRejections,
    resolved: Result<Track, String>,
    page: Result<ChannelPage, String>,
    command: ExternalCommandKind,
    target: ExternalCommandTarget,
    ran: Result<(), String>,
)
    ensures
        spec_admission(
            owned,
            Action::<F, E, D>::Playback(
                PlaybackAction::PlaybackResolved { operation_id: id, queue_position: position, track_id: a, url: b },
            ),
            radio_on,
        ) == settles(owned, OperationKind::Playback, id),
        spec_admission(
            owned,
            Action::<F, E, D>::Playback(
                PlaybackAction::PlaybackResolveFailed {
                    operation_id: id,
                    queue_position: position,
                    track_id: a,
                    message: b,
                },
            ),
            radio_on,
        ) == settles(owned, OperationKind::Playback, id),
        spec_admission(
            owned,
            Action::<F, E, D>::Playlists(
                PlaylistAction::ImportCompleted {
                    operation_id: id,
                    url: a,
                    title: b,
                    remote_id: remote_id,
                    tracks: tracks,
                    rejections: rejections,
                },
            ),
            radio_on,
        ) == settles(owned, OperationKind::Import, id),
        spec_admission(
            owned,
            Action::<F, E, D>::Playlists(PlaylistAction::ImportFailed { operation_id: id, url: a, message: b }),
            radio_on,
        ) == settles(owned, OperationKind::Import, id),
        spec_admission(
            owned,
            Action::<F, E, D>::Playback(PlaybackAction::RadioTracksLoaded { operation_id: id, tracks: tracks }),
            radio_on,
        ) == settles(owned, OperationKind::Radio, id),
        spec_admission(
            owned,
            Action::<F, E, D>::Playback(PlaybackAction::DetailsLoaded { operation_id: id, track_id: a, details: details }),
            radio_on,
        ) == settles(owned, OperationKind::Details, id),
        spec_admission(
            owned,
            Action::<F, E, D>::Playback(PlaybackAction::DetailsFailed { operation_id: id, track_id: a, message: b }),
            radio_on,
        ) == settles(owned, OperationKind::Details, id),
        spec_admission(
            owned,
            Action::<F, E, D>::Playback(PlaybackAction::PrefetchResolved { operation_id: id, track_id: a, url: b }),
            radio_on,
        ) == settles(owned, OperationKind::Prefetch, id),
        spec_admission(
            owned,
            Action::<F, E, D>::Playback(PlaybackAction::ThumbnailLoaded { operation_id: id, track_id: a, bytes: bytes }),
            radio_on,
        ) == settles(owned, OperationKind::Thumbnail, id),
        spec_admission(
            owned,
            Action::<F, E, D>::Playback(
                PlaybackAction::SearchThumbnailLoaded { operation_id: id, track_id: a, bytes: bytes },
            ),
            radio_on,
        ) == settles(owned, OperationKind::SearchThumbnail, id),
        spec_admission(
            owned,
            Action::<F, E, D>::Playback(PlaybackAction::SessionStreamResolved { operation_id: id, track_id: a, url: b }),
            radio_on,
        ) == settles(owned, OperationKind::Session, id),
        spec_admission(
            owned,
            Action::<F, E, D>::Playback(
                PlaybackAction::SessionResolveFailed { operation_id: id, track_id: a, message: b },
            ),
            radio_on,
        ) == settles(owned, OperationKind::Session, id),
        spec_admission(
            owned,
            Action::<F, E, D>::Playback(PlaybackAction::MixLoaded { operation_id: id, title: a, tracks: tracks }),
            radio_on,
        ) == settles(owned, OperationKind::Mix, id),
        spec_admission(
            owned,
            Action::<F, E, D>::Navigation(
                NavigationAction::ExternalCommandCompleted {
                    operation_id: id,
                    command: command,
                    target: target,
                    result: ran,
                },
            ),
            radio_on,
        ) == settles(owned, OperationKind::ExternalCommand, id),
        spec_admission(
            owned,
            Action::<F, E, D>::Navigation(
                NavigationAction::ChannelResolved { operation_id: id, source_track_id: a, result: resolved },
            ),
            radio_on,
        ) == settles(owned, OperationKind::ChannelResolve, id),
        spec_admission(
            owned,
            Action::<F, E, D>::Navigation(
                NavigationAction::ChannelPageLoaded { operation_id: id, channel_url: a, page: position, result: page },
            ),
            radio_on,
        ) == settles(owned, OperationKind::ChannelPage, id),
{
}

/// Turning radio off drops the refill it had running: the refill's tracks,
/// arriving afterwards, never reach the reducer and change nothing. Likewise
/// an import's result never lands after the import was cancelled.
pub proof fn lemma_cancelled_work_never_lands<F, E, D>(
    owned: Map<OperationKind, OperationId>,
    refill: OperationId,
    tracks: Vec<Track>,
    radio_on_later: bool,
    import: OperationId,
    url: String,
    message: String,
)
    ensures
        ({
            let off = spec_admission(owned, Action::<F, E, D>::Playback(PlaybackAction::ToggleRadio), true);
            let late = spec_admission(
                off.1,
                Action::<F, E, D>::Playback(PlaybackAction::RadioTracksLoaded { operation_id: refill, tracks: tracks }),
                radio_on_later,
            );
            off.0 && !off.1.dom().contains(OperationKind::Radio) && !late.0 && late.1 == off.1
        }),
        ({
            let cancel = spec_admission(owned, Action::<F, E, D>::Playlists(PlaylistAction::CancelImport), radio_on_later);
            let late = spec_admission(
                cancel.1,
                Action::<F, E, D>::Playlists(PlaylistAction::ImportFailed { operation_id: import, url: url, message: message }),
                radio_on_later,
            );
            cancel.0 && !cancel.1.dom().contains(OperationKind::Import) && !late.0 && late.1 == cancel.1
        }),
{
}

} // verus!
