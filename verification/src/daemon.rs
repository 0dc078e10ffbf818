//! Daemon-side command handling: each client command becomes an action for
//! the reducer, a status reply, a search whose reply waits for completion,
//! or a refusal. Pending searches are answered exactly once.

use vstd::prelude::*;

use crate::actions::{
    Action, HistoryAction, NavigationAction, PlaybackAction, PlaylistAction, QueueAction,
};
use crate::client_route::{spec_route, Command, Route, RouteUi};
use crate::media::{duplicate_tracks, Track};
use crate::mirror::DomainState;
use crate::operations::{next_identity, OperationId, OperationKind, OperationRegistry};
use crate::queue::Queue;
use crate::text::{decimal_digits, push_decimal};
use crate::wire::{ReplyBody, ReplyResult};

verus! {

/// What the daemon does with one client command.
pub enum CommandPlan<F, E, D> {
    /// Reply with a full snapshot of the domain state.
    Status,
    /// Reduce `action`, then acknowledge. `autoplay_first_search` asks the
    /// daemon to play the first result of the search the action starts.
    Dispatch { action: Action<F, E, D>, autoplay_first_search: bool },
    /// Reduce a search action; the reply waits for its completion.
    DeferredSearch { action: Action<F, E, D> },
    /// Reply with an error and change nothing.
    Refuse { message: String },
}

/// Text of the refusal of a queue removal at a missing position.
pub open spec fn no_queue_entry_message(order_index: usize) -> Seq<char> {
    "no queue entry at position "@ + decimal_digits(order_index as nat)
}

/// The action of a command that needs no daemon state.
pub open spec fn command_action<F, E, D>(command: Command<F>) -> Option<Action<F, E, D>> {
    match command {
        Command::Shutdown => Some(Action::Navigation(NavigationAction::Quit)),
        Command::PlayPause => Some(Action::Playback(PlaybackAction::PlayPause)),
        Command::Stop => Some(Action::Playback(PlaybackAction::Stop)),
        Command::Next => Some(Action::Playback(PlaybackAction::NextTrack)),
        Command::Previous => Some(Action::Playback(PlaybackAction::PreviousTrack)),
        Command::Seek { seconds } => Some(Action::Playback(PlaybackAction::SeekBy(seconds))),
        Command::SeekAbsolute { seconds } => Some(Action::Playback(PlaybackAction::SeekToSeconds(seconds))),
        Command::Volume { delta } => Some(Action::Playback(PlaybackAction::VolumeBy(delta))),
        Command::ToggleMute => Some(Action::Playback(PlaybackAction::ToggleMute)),
        Command::ToggleShuffle => Some(Action::Playback(PlaybackAction::ToggleShuffle)),
        Command::CycleRepeat => Some(Action::Playback(PlaybackAction::CycleRepeat)),
        Command::SpeedUp => Some(Action::Playback(PlaybackAction::SpeedUp)),
        Command::SpeedDown => Some(Action::Playback(PlaybackAction::SpeedDown)),
        Command::SpeedReset => Some(Action::Playback(PlaybackAction::SpeedReset)),
        Command::CycleSleepTimer => Some(Action::Playback(PlaybackAction::CycleSleepTimer)),
        Command::ToggleRadio => Some(Action::Playback(PlaybackAction::ToggleRadio)),
        Command::PlayTrack { track } => Some(Action::Playback(PlaybackAction::PlayTrack(track))),
        Command::PlayQueuePosition { position } => Some(
            Action::Playback(PlaybackAction::PlayQueuePosition(position)),
        ),
        Command::Resume { track, position_seconds } => Some(
            Action::Playback(PlaybackAction::ResumeTrack { track: track, position_seconds: position_seconds }),
        ),
        Command::PlayQuery { query } => Some(Action::Navigation(NavigationAction::SubmitSearch(query))),
        Command::QueueAdd { track, next } => Some(
            if next {
                Action::Queue(QueueAction::AddNext(track))
            } else {
                Action::Queue(QueueAction::AddToQueue(track))
            },
        ),
        Command::QueueMove { from, to } => Some(Action::Queue(QueueAction::MoveTrack { from: from, to: to })),
        Command::QueueClear => Some(Action::Queue(QueueAction::ClearQueueConfirmed)),
        Command::QueueUndo => Some(Action::Queue(QueueAction::UndoQueueRemoval)),
        Command::PlaylistLoad { id, append } => Some(
            if append {
                Action::Playlists(PlaylistAction::AppendPlaylistToQueue(id))
            } else {
                Action::Playlists(PlaylistAction::LoadPlaylistIntoQueue(id))
            },
        ),
        Command::PlaylistDelete { id } => Some(Action::Playlists(PlaylistAction::DeletePlaylistConfirmed(id))),
        Command::PlaylistCreate { name } => Some(Action::Playlists(PlaylistAction::CreatePlaylist(name))),
        Command::SaveQueueAsPlaylist { name } => Some(Action::Playlists(PlaylistAction::SaveQueueAsPlaylist(name))),
        Command::PlaylistRemoveTrack { playlist_id, track_index, expected_revision } => Some(
            Action::Playlists(
                PlaylistAction::RemoveTrackOccurrence {
                    playlist_id: playlist_id,
                    track_index: track_index,
                    expected_revision: expected_revision,
                },
            ),
        ),
        Command::PlaylistRename { id, name } => Some(
            Action::Playlists(PlaylistAction::RenamePlaylist { id: id, name: name }),
        ),
        Command::PlaylistAddTrack { playlist_id, track } => Some(
            Action::Playlists(PlaylistAction::AddTrackToPlaylist { playlist_id: playlist_id, track: track }),
        ),
        Command::PlaylistAddTrackNew { name, track } => Some(
            Action::Playlists(PlaylistAction::AddTrackToNewPlaylist { name: name, track: track }),
        ),
        Command::PlaylistEdit { id, name, description } => Some(
            Action::Playlists(PlaylistAction::EditPlaylist { id: id, name: name, description: description }),
        ),
        Command::PlaylistMoveTrack { id, from, to } => Some(
            Action::Playlists(PlaylistAction::MoveTrackInPlaylist { id: id, from: from, to: to }),
        ),
        Command::ImportStart { url } => Some(Action::Playlists(PlaylistAction::StartImport(url))),
        Command::ImportConfirm => Some(Action::Playlists(PlaylistAction::ConfirmImport)),
        Command::ImportCancel => Some(Action::Playlists(PlaylistAction::CancelImport)),
        Command::ImportJson { json } => Some(Action::Playlists(PlaylistAction::ImportPlaylistsJson(json))),
        Command::HistoryClear => Some(Action::History(HistoryAction::ClearHistoryConfirmed)),
        Command::ActivityClear => Some(Action::History(HistoryAction::ClearActivity)),
        Command::HistoryDelete { index, expected_track_id } => Some(
            Action::History(HistoryAction::DeleteHistoryEntry { index: index, expected_track_id: expected_track_id }),
        ),
        Command::ChannelPage => Some(Action::Navigation(NavigationAction::LoadMoreChannel)),
        Command::Search { query } => Some(Action::Navigation(NavigationAction::SubmitSearch(query))),
        Command::SearchExact { url } => Some(Action::Navigation(NavigationAction::SubmitExactVideo(url))),
        Command::Status => None,
        Command::QueueRemove { .. } => None,
    }
}

/// The track at a play-order position of the queue, when both exist.
pub open spec fn queue_entry(queue: Queue, order_index: usize) -> Option<Track> {
    if order_index < queue.order@.len() && queue.order@[order_index as int] < queue.tracks@.len() {
        Some(queue.tracks@[queue.order@[order_index as int] as int])
    } else {
        None
    }
}

/// Whether `plan` is the daemon's plan for `command` against `domain`.
pub open spec fn is_plan_for<F, E, D, P, DD, I>(
    plan: CommandPlan<F, E, D>,
    command: Command<F>,
    domain: DomainState<P, DD, I>,
) -> bool {
    match command {
        Command::Status => plan is Status,
        Command::QueueRemove { order_index, expected_revision } => match queue_entry(domain.queue, order_index) {
            Some(expected_track) => plan == (CommandPlan::<F, E, D>::Dispatch {
                action: Action::Queue(
                    QueueAction::RemoveTrackOccurrence {
                        order_index: order_index,
                        expected_track: expected_track,
                        expected_revision: expected_revision,
                    },
                ),
                autoplay_first_search: false,
            }),
            None => plan matches CommandPlan::Refuse { message } && message@ == no_queue_entry_message(order_index),
        },
        Command::Search { .. } => plan == (CommandPlan::<F, E, D>::DeferredSearch {
            action: command_action(command)->Some_0,
        }),
        Command::SearchExact { .. } => plan == (CommandPlan::<F, E, D>::DeferredSearch {
            action: command_action(command)->Some_0,
        }),
        Command::PlayQuery { .. } => plan == (CommandPlan::<F, E, D>::Dispatch {
            action: command_action(command)->Some_0,
            autoplay_first_search: true,
        }),
        _ => plan == (CommandPlan::<F, E, D>::Dispatch {
            action: command_action(command)->Some_0,
            autoplay_first_search: false,
        }),
    }
}

/// The action of a command that needs no daemon state.
pub fn stateless_action<F, E, D>(command: Command<F>) -> (action: Option<Action<F, E, D>>)
    ensures
        action == command_action::<F, E, D>(command),
{
    match command {
        Command::Shutdown => Some(Action::Navigation(NavigationAction::Quit)),
        Command::PlayPause => Some(Action::Playback(PlaybackAction::PlayPause)),
        Command::Stop => Some(Action::Playback(PlaybackAction::Stop)),
        Command::Next => Some(Action::Playback(PlaybackAction::NextTrack)),
        Command::Previous => Some(Action::Playback(PlaybackAction::PreviousTrack)),
        Command::Seek { seconds } => Some(Action::Playback(PlaybackAction::SeekBy(seconds))),
        Command::SeekAbsolute { seconds } => Some(Action::Playback(PlaybackAction::SeekToSeconds(seconds))),
        Command::Volume { delta } => Some(Action::Playback(PlaybackAction::VolumeBy(delta))),
        Command::ToggleMute => Some(Action::Playback(PlaybackAction::ToggleMute)),
        Command::ToggleShuffle => Some(Action::Playback(PlaybackAction::ToggleShuffle)),
        Command::CycleRepeat => Some(Action::Playback(PlaybackAction::CycleRepeat)),
        Command::SpeedUp => Some(Action::Playback(PlaybackAction::SpeedUp)),
        Command::SpeedDown => Some(Action::Playback(PlaybackAction::SpeedDown)),
        Command::SpeedReset => Some(Action::Playback(PlaybackAction::SpeedReset)),
        Command::CycleSleepTimer => Some(Action::Playback(PlaybackAction::CycleSleepTimer)),
        Command::ToggleRadio => Some(Action::Playback(PlaybackAction::ToggleRadio)),
        Command::PlayTrack { track } => Some(Action::Playback(PlaybackAction::PlayTrack(track))),
        Command::PlayQueuePosition { position } => Some(
            Action::Playback(PlaybackAction::PlayQueuePosition(position)),
        ),
        Command::Resume { track, position_seconds } => Some(
            Action::Playback(PlaybackAction::ResumeTrack { track, position_seconds }),
        ),
        Command::PlayQuery { query } => Some(Action::Navigation(NavigationAction::SubmitSearch(query))),
        Command::QueueAdd { track, next } => Some(
            if next {
                Action::Queue(QueueAction::AddNext(track))
            } else {
                Action::Queue(QueueAction::AddToQueue(track))
            },
        ),
        Command::QueueMove { from, to } => Some(Action::Queue(QueueAction::MoveTrack { from, to })),
        Command::QueueClear => Some(Action::Queue(QueueAction::ClearQueueConfirmed)),
        Command::QueueUndo => Some(Action::Queue(QueueAction::UndoQueueRemoval)),
        Command::PlaylistLoad { id, append } => Some(
            if append {
                Action::Playlists(PlaylistAction::AppendPlaylistToQueue(id))
            } else {
                Action::Playlists(PlaylistAction::LoadPlaylistIntoQueue(id))
            },
        ),
        Command::PlaylistDelete { id } => Some(Action::Playlists(PlaylistAction::DeletePlaylistConfirmed(id))),
        Command::PlaylistCreate { name } => Some(Action::Playlists(PlaylistAction::CreatePlaylist(name))),
        Command::SaveQueueAsPlaylist { name } => Some(Action::Playlists(PlaylistAction::SaveQueueAsPlaylist(name))),
        Command::PlaylistRemoveTrack { playlist_id, track_index, expected_revision } => Some(
            Action::Playlists(
                PlaylistAction::RemoveTrackOccurrence { playlist_id, track_index, expected_revision },
            ),
        ),
        Command::PlaylistRename { id, name } => Some(Action::Playlists(PlaylistAction::RenamePlaylist { id, name })),
        Command::PlaylistAddTrack { playlist_id, track } => Some(
            Action::Playlists(PlaylistAction::AddTrackToPlaylist { playlist_id, track }),
        ),
        Command::PlaylistAddTrackNew { name, track } => Some(
            Action::Playlists(PlaylistAction::AddTrackToNewPlaylist { name, track }),
        ),
        Command::PlaylistEdit { id, name, description } => Some(
            Action::Playlists(PlaylistAction::EditPlaylist { id, name, description }),
        ),
        Command::PlaylistMoveTrack { id, from, to } => Some(
            Action::Playlists(PlaylistAction::MoveTrackInPlaylist { id, from, to }),
        ),
        Command::ImportStart { url } => Some(Action::Playlists(PlaylistAction::StartImport(url))),
        Command::ImportConfirm => Some(Action::Playlists(PlaylistAction::ConfirmImport)),
        Command::ImportCancel => Some(Action::Playlists(PlaylistAction::CancelImport)),
        Command::ImportJson { json } => Some(Action::Playlists(PlaylistAction::ImportPlaylistsJson(json))),
        Command::HistoryClear => Some(Action::History(HistoryAction::ClearHistoryConfirmed)),
        Command::ActivityClear => Some(Action::History(HistoryAction::ClearActivity)),
        Command::HistoryDelete { index, expected_track_id } => Some(
            Action::History(HistoryAction::DeleteHistoryEntry { index, expected_track_id }),
        ),
        Command::ChannelPage => Some(Action::Navigation(NavigationAction::LoadMoreChannel)),
        Command::Search { query } => Some(Action::Navigation(NavigationAction::SubmitSearch(query))),
        Command::SearchExact { url } => Some(Action::Navigation(NavigationAction::SubmitExactVideo(url))),
        Command::Status => None,
        Command::QueueRemove { .. } => None,
    }
}

/// The refusal text for a queue removal at a missing position.
pub fn no_queue_entry_text(order_index: usize) -> (message: String)
    ensures
        message@ == no_queue_entry_message(order_index),
{
    let mut message = String::from_str("no queue entry at position ");
    proof {
        reveal_strlit("no queue entry at position ");
    }
    push_decimal(&mut message, order_index as u64);
    message
}

/// Turn one client command into the daemon's plan for it. A removal
/// names its queue entry by play-order position; the daemon resolves the
/// track there so the reducer can check it is still the same occurrence.
pub fn plan_command<F, E, D, P, DD, I>(
    command: Command<F>,
    domain: &DomainState<P, DD, I>,
) -> (plan: CommandPlan<F, E, D>)
    ensures
        is_plan_for(plan, command, *domain),
{
    match command {
        Command::Status => CommandPlan::Status,
        Command::QueueRemove { order_index, expected_revision } => match domain.queue.track_at(order_index) {
            Some(expected_track) => CommandPlan::Dispatch {
                action: Action::Queue(
                    QueueAction::RemoveTrackOccurrence { order_index, expected_track, expected_revision },
                ),
                autoplay_first_search: false,
            },
            None => CommandPlan::Refuse { message: no_queue_entry_text(order_index) },
        },
        Command::Search { query } => CommandPlan::DeferredSearch {
            action: Action::Navigation(NavigationAction::SubmitSearch(query)),
        },
        Command::SearchExact { url } => CommandPlan::DeferredSearch {
            action: Action::Navigation(NavigationAction::SubmitExactVideo(url)),
        },
        Command::PlayQuery { query } => CommandPlan::Dispatch {
            action: Action::Navigation(NavigationAction::SubmitSearch(query)),
            autoplay_first_search: true,
        },
        other => {
            let action = stateless_action(other);
            match action {
                Some(action) => CommandPlan::Dispatch { action, autoplay_first_search: false },
                None => CommandPlan::Status,
            }
        },
    }
}

/// A command a client sends for one of its own actions is replayed by the
/// daemon as an action that routes back to that same command, whatever the
/// client's view and mirror. Status, shutdown and search commands, which no
/// action sends directly, are left out.
pub proof fn lemma_dispatch_routes_back<F, E, D, P, DD, I, P2, D2, I2>(
    command: Command<F>,
    domain: DomainState<P, DD, I>,
    plan: CommandPlan<F, E, D>,
    ui: RouteUi,
    mirror: DomainState<P2, D2, I2>,
    history_track_ids: Option<Seq<String>>,
    selected: Option<Track>,
    seek_target: Option<F>,
)
    requires
        is_plan_for(plan, command, domain),
        !(command is Status || command is Shutdown || command is PlayQuery || command is Search
            || command is SearchExact),
    ensures
        plan matches CommandPlan::Dispatch { action, .. } ==> spec_route(
            action,
            ui,
            mirror,
            history_track_ids,
            selected,
            seek_target,
        ) == Route::Send(command),
{
}

/// The daemon refuses a command only when it removes a queue entry that
/// its queue does not hold.
pub proof fn lemma_only_missing_removals_are_refused<F, E, D, P, DD, I>(
    command: Command<F>,
    domain: DomainState<P, DD, I>,
    plan: CommandPlan<F, E, D>,
)
    requires
        is_plan_for(plan, command, domain),
    ensures
        plan is Refuse <==> (command matches Command::QueueRemove { order_index, .. } && queue_entry(
            domain.queue,
            order_index,
        ) is None),
{
}

/// A search awaiting results on behalf of one client request.
#[derive(PartialEq, Eq, Structural, Clone, Copy, Debug)]
pub struct PendingSearch {
    pub client_id: u64,
    pub reply_id: u64,
    pub generation: u64,
}

/// A reply to send to one client.
pub struct ClientReply<P, D> {
    pub client_id: u64,
    pub reply_id: u64,
    pub result: ReplyResult<P, D>,
}

/// Whether `action` completes the search generation `generation`.
pub open spec fn settles<F, E, D>(action: Action<F, E, D>, generation: u64) -> bool {
    ||| action matches Action::Navigation(NavigationAction::SearchCompleted { generation: g, .. }) && g == generation
    ||| action matches Action::Navigation(NavigationAction::SearchFailed { generation: g, .. }) && g == generation
}

/// Whether `reply` answers `pending` with the outcome `action` carries.
pub open spec fn answers<F, E, D, P, DD>(
    reply: ClientReply<P, DD>,
    pending: PendingSearch,
    action: Action<F, E, D>,
) -> bool {
    &&& reply.client_id == pending.client_id
    &&& reply.reply_id == pending.reply_id
    &&& match action {
        Action::Navigation(NavigationAction::SearchCompleted { tracks, .. }) => reply.result matches ReplyResult::Result(ReplyBody::Tracks { tracks: sent }) && sent@ == tracks@,
        Action::Navigation(NavigationAction::SearchFailed { message, .. }) => reply.result == ReplyResult::<P, DD>::Error(message),
        _ => false,
    }
}

/// Whether `action` settles the pending search, so a reply is sent.
pub open spec fn replies_to<F, E, D>(pending: Option<PendingSearch>, action: Action<F, E, D>) -> bool {
    pending matches Some(waiting) && settles(action, waiting.generation)
}

/// The pending search after `action`: gone once answered, or once a newer
/// search (generation below `search_generation`) superseded it.
pub open spec fn pending_after<F, E, D>(
    pending: Option<PendingSearch>,
    action: Action<F, E, D>,
    search_generation: u64,
) -> Option<PendingSearch> {
    match pending {
        None => None,
        Some(waiting) => if settles(action, waiting.generation) || waiting.generation < search_generation {
            None
        } else {
            Some(waiting)
        },
    }
}

/// A pending search is answered at most once: after an action settled it,
/// no later action produces another reply.
pub proof fn lemma_search_answered_once<F, E, D>(
    pending: Option<PendingSearch>,
    first: Action<F, E, D>,
    later: Action<F, E, D>,
    search_generation: u64,
)
    requires
        replies_to(pending, first),
    ensures
        !replies_to(pending_after(pending, first, search_generation), later),
{
}

/// A superseded search never settles: once the daemon moved to a newer
/// generation, a pending search that no action settled is dropped.
pub proof fn lemma_superseded_search_is_dropped<F, E, D>(
    waiting: PendingSearch,
    action: Action<F, E, D>,
    search_generation: u64,
)
    requires
        waiting.generation < search_generation,
    ensures
        pending_after(Some(waiting), action, search_generation) is None,
{
}

/// Answer the pending search when `action` completes its generation, and
/// drop a pending search that a newer search superseded, since it will
/// never settle. `search_generation` is the daemon's current generation.
pub fn settle_pending_search<F, E, D, P, DD>(
    action: &Action<F, E, D>,
    pending: &mut Option<PendingSearch>,
    search_generation: u64,
) -> (reply: Option<ClientReply<P, DD>>)
    ensures
        (reply is Some) == replies_to(*old(pending), *action),
        reply matches Some(r) ==> answers(r, old(pending)->Some_0, *action),
        *final(pending) == pending_after(*old(pending), *action, search_generation),
{
    let waiting = match pending {
        Some(waiting) => *waiting,
        None => return None,
    };
    let reply = match action {
        Action::Navigation(NavigationAction::SearchCompleted { generation, tracks }) => if *generation
            == waiting.generation {
            Some(
                ClientReply {
                    client_id: waiting.client_id,
                    reply_id: waiting.reply_id,
                    result: ReplyResult::Result(ReplyBody::Tracks { tracks: duplicate_tracks(tracks.as_slice()) }),
                },
            )
        } else {
            None
        },
        Action::Navigation(NavigationAction::SearchFailed { generation, message }) => if *generation
            == waiting.generation {
            Some(
                ClientReply {
                    client_id: waiting.client_id,
                    reply_id: waiting.reply_id,
                    result: ReplyResult::Error(message.clone()),
                },
            )
        } else {
            None
        },
        _ => None,
    };
    if reply.is_some() || waiting.generation < search_generation {
        *pending = None;
    }
    reply
}

/// What the daemon loop keeps between events besides the domain state.
pub struct LoopState {
    /// Deadline of the sleep timer on the loop's clock, in milliseconds.
    pub sleep_deadline_ms: Option<u64>,
    /// Whether a restart of the player is in flight.
    pub recovering: bool,
    /// Whether a player binary is configured, so that a lost player can be restarted.
    pub player_configured: bool,
}

/// Something the daemon loop was woken by, other than client traffic and actions.
pub enum LoopEvent {
    /// The player reported an event; `shutdown` when its process went away.
    Player { shutdown: bool },
    /// A restart of the player finished under `operation`; `restarted`
    /// when a new player is up.
    RestartFinished { operation: OperationId, restarted: bool },
    /// The loop's periodic tick, at `now_ms` on its clock.
    Tick { now_ms: u64 },
}

/// What the daemon loop does about one event.
#[derive(PartialEq, Eq, Structural, Clone, Copy, Debug)]
pub enum LoopEffect {
    /// Nothing beyond handing the event on.
    Nothing,
    /// Drop the lost player and restart it under this operation.
    BeginRestart(OperationId),
    /// Keep the restarted player, mark it ready and tell every client.
    InstallRestarted,
    /// The restart failed: report it; the player stays down.
    RestartFailed,
    /// The sleep timer ran out: stop playback.
    StopPlayback,
}

/// Decide what the daemon loop does about `event`. A lost player is
/// restarted once at a time, only while the loop runs and a player is
/// configured; a finished restart counts only when its operation is still
/// current; the sleep timer stops playback once, when its deadline has come.
pub fn daemon_step(
    state: &mut LoopState,
    registry: &mut OperationRegistry,
    running: bool,
    event: LoopEvent,
) -> (effect: LoopEffect)
    requires
        old(registry).well_formed(),
    ensures
        final(registry).well_formed(),
        final(state).player_configured == old(state).player_configured,
        match event {
            LoopEvent::Player { shutdown } => if shutdown && running && !old(state).recovering
                && old(state).player_configured {
                &&& effect == LoopEffect::BeginRestart(OperationId(next_identity(old(registry).last_issued())))
                &&& final(state).recovering
                &&& final(state).sleep_deadline_ms == old(state).sleep_deadline_ms
                &&& final(registry)@ == old(registry)@.insert(
                    OperationKind::PlaybackRecovery,
                    OperationId(next_identity(old(registry).last_issued())),
                )
                &&& final(registry).last_issued() == next_identity(old(registry).last_issued())
            } else {
                &&& effect == LoopEffect::Nothing
                &&& *final(state) == *old(state)
                &&& final(registry)@ == old(registry)@
                &&& final(registry).last_issued() == old(registry).last_issued()
            },
            LoopEvent::RestartFinished { operation, restarted } => if old(registry)@.dom().contains(
                OperationKind::PlaybackRecovery,
            ) && old(registry)@[OperationKind::PlaybackRecovery] == operation {
                &&& effect == (if restarted {
                    LoopEffect::InstallRestarted
                } else {
                    LoopEffect::RestartFailed
                })
                &&& !final(state).recovering
                &&& final(state).sleep_deadline_ms == old(state).sleep_deadline_ms
                &&& final(registry)@ == old(registry)@.remove(OperationKind::PlaybackRecovery)
                &&& final(registry).last_issued() == old(registry).last_issued()
            } else {
                &&& effect == LoopEffect::Nothing
                &&& *final(state) == *old(state)
                &&& final(registry)@ == old(registry)@
                &&& final(registry).last_issued() == old(registry).last_issued()
            },
            LoopEvent::Tick { now_ms } => {
                &&& final(registry)@ == old(registry)@
                &&& final(registry).last_issued() == old(registry).last_issued()
                &&& final(state).recovering == old(state).recovering
                &&& match old(state).sleep_deadline_ms {
                    Some(deadline) => if deadline <= now_ms {
                        effect == LoopEffect::StopPlayback && final(state).sleep_deadline_ms is None
                    } else {
                        effect == LoopEffect::Nothing && *final(state) == *old(state)
                    },
                    None => effect == LoopEffect::Nothing && *final(state) == *old(state),
                }
            },
        },
{
    match event {
        LoopEvent::Player { shutdown } => {
            if shutdown && running && !state.recovering && state.player_configured {
                state.recovering = true;
                let operation = registry.start(OperationKind::PlaybackRecovery);
                LoopEffect::BeginRestart(operation)
            } else {
                LoopEffect::Nothing
            }
        },
        LoopEvent::RestartFinished { operation, restarted } => {
            if registry.complete(OperationKind::PlaybackRecovery, operation) {
                state.recovering = false;
                if restarted {
                    LoopEffect::InstallRestarted
                } else {
                    LoopEffect::RestartFailed
                }
            } else {
                LoopEffect::Nothing
            }
        },
        LoopEvent::Tick { now_ms } => match state.sleep_deadline_ms {
            Some(deadline) => if deadline <= now_ms {
                state.sleep_deadline_ms = None;
                LoopEffect::StopPlayback
            } else {
                LoopEffect::Nothing
            },
            None => LoopEffect::Nothing,
        },
    }
}

} // verus!
