//! Attached-mode client decisions: how daemon replies land in the mirror,
//! and which command a submitted prompt, editor or picker sends.

use vstd::prelude::*;

use crate::actions::PromptPurpose;
use crate::client_route::{resolve_index, spec_resolve_index, Command, RouteUi};
use crate::media::{entries_contain_id, entry_ids, Track};
use crate::mirror::{apply_event, spec_apply_event, DomainState, SearchState, WireEvent};
use crate::text::{trim_text, trimmed};
use crate::wire::{domain_event_for, spec_domain_event_for, DaemonFrame, DomainEvent, ReplyBody, ReplyResult};

verus! {

/// A user-visible notification.
#[derive(Debug)]
pub struct Notice {
    pub message: String,
    /// Shown as an error rather than as information.
    pub error: bool,
}

/// Whether `notice` carries exactly `message` with the given severity.
pub open spec fn notice_is(notice: Notice, message: Seq<char>, error: bool) -> bool {
    notice.message@ == message && notice.error == error
}

/// The search request this client is waiting on.
pub struct ClientSearch {
    pub reply_id: u64,
    pub query: String,
}

/// What a reply changed beyond the mirror.
pub struct ReplyOutcome {
    pub notice: Option<Notice>,
    /// Move the selection back to the first row.
    pub reset_selection: bool,
}

/// Whether reply `id` answers the pending search.
pub open spec fn answers_search(pending: Option<ClientSearch>, id: u64) -> bool {
    pending matches Some(waiting) && waiting.reply_id == id
}

/// What applying reply `id` carrying `result` does to the mirror and the pending search.
pub open spec fn reply_applied<P, D, I, PP, DD>(
    before: DomainState<P, D, I>,
    after: DomainState<P, D, I>,
    pending_before: Option<ClientSearch>,
    pending_after: Option<ClientSearch>,
    id: u64,
    result: ReplyResult<PP, DD>,
    outcome: ReplyOutcome,
) -> bool {
    match result {
        ReplyResult::Result(ReplyBody::Tracks { tracks }) => if answers_search(pending_before, id) {
            &&& pending_after is None
            &&& after == (DomainState {
                search: SearchState::Results { query: pending_before->Some_0.query, tracks: tracks },
                ..before
            })
            &&& outcome.reset_selection
            &&& if tracks@.len() == 0 {
                outcome.notice matches Some(n) && notice_is(n, "No results"@, false)
            } else {
                outcome.notice is None
            }
        } else {
            &&& pending_after == pending_before
            &&& after == before
            &&& !outcome.reset_selection
            &&& outcome.notice is None
        },
        ReplyResult::Error(message) => {
            &&& !outcome.reset_selection
            &&& outcome.notice matches Some(n) && notice_is(n, message@, true)
            &&& if answers_search(pending_before, id) {
                &&& pending_after is None
                &&& after == (DomainState {
                    search: SearchState::Failed { query: pending_before->Some_0.query, message: message },
                    ..before
                })
            } else {
                &&& pending_after == pending_before
                &&& after == before
            }
        },
        ReplyResult::Result(_) => {
            &&& pending_after == pending_before
            &&& after == before
            &&& !outcome.reset_selection
            &&& outcome.notice is None
        },
    }
}

/// Apply one reply: search results or failures for the pending search
/// replace the search state; every error is also shown.
pub fn on_reply<P, D, I, PP, DD>(
    domain: &mut DomainState<P, D, I>,
    pending: &mut Option<ClientSearch>,
    id: u64,
    result: ReplyResult<PP, DD>,
) -> (outcome: ReplyOutcome)
    ensures
        reply_applied(*old(domain), *final(domain), *old(pending), *final(pending), id, result, outcome),
{
    let for_search = match pending {
        Some(waiting) => waiting.reply_id == id,
        None => false,
    };
    match result {
        ReplyResult::Result(ReplyBody::Tracks { tracks }) => {
            if !for_search {
                return ReplyOutcome { notice: None, reset_selection: false };
            }
            let waiting = pending.take().unwrap();
            let notice = if tracks.len() == 0 {
                proof {
                    reveal_strlit("No results");
                }
                Some(Notice { message: String::from_str("No results"), error: false })
            } else {
                None
            };
            domain.search = SearchState::Results { query: waiting.query, tracks };
            ReplyOutcome { notice, reset_selection: true }
        },
        ReplyResult::Error(message) => {
            let notice = Notice { message: message.clone(), error: true };
            if for_search {
                let waiting = pending.take().unwrap();
                domain.search = SearchState::Failed { query: waiting.query, message };
            }
            ReplyOutcome { notice: Some(notice), reset_selection: false }
        },
        ReplyResult::Result(_) => ReplyOutcome { notice: None, reset_selection: false },
    }
}

/// Start a client-owned search: the mirror enters `Searching` under a new
/// generation and the command to send is returned.
pub fn begin_search<F, P, D, I>(domain: &mut DomainState<P, D, I>, query: String, exact: bool) -> (command: Command<F>)
    requires
        old(domain).search_generation < u64::MAX,
    ensures
        *final(domain) == (DomainState {
            search_generation: (old(domain).search_generation + 1) as u64,
            search: SearchState::Searching { query: query, generation: (old(domain).search_generation + 1) as u64 },
            ..*old(domain)
        }),
        command == (if exact {
            Command::<F>::SearchExact { url: query }
        } else {
            Command::<F>::Search { query: query }
        }),
{
    domain.search_generation = domain.search_generation + 1;
    domain.search = SearchState::Searching { query: query.clone(), generation: domain.search_generation };
    if exact {
        Command::SearchExact { url: query }
    } else {
        Command::Search { query }
    }
}

/// What submitting a form does.
pub enum Submission<F> {
    Send(Command<F>),
    /// Show a notice; the form stays closed.
    Notify(Notice),
    /// Show a notice and keep the form open for correction.
    KeepOpen(Notice),
    /// Nothing to do.
    Nothing,
}

/// Notice for an empty prompt, by purpose.
pub open spec fn prompt_required_message(purpose: PromptPurpose) -> Seq<char> {
    match purpose {
        PromptPurpose::ImportPlaylistUrl => "A URL is required"@,
        PromptPurpose::ImportPlaylistJson => "Playlist JSON is required"@,
        _ => "A playlist name is required"@,
    }
}

/// Notice for a playlist import requested from an attached client.
pub open spec fn import_unavailable_message() -> Seq<char> {
    "Playlist import is not yet available while attached"@
}

/// Whether `submission` is what submitting a prompt of `purpose` holding
/// `buffer` does against the mirror.
pub open spec fn is_prompt_submission<F, P, D, I>(
    submission: Submission<F>,
    purpose: PromptPurpose,
    buffer: Seq<char>,
    ui: RouteUi,
    domain: DomainState<P, D, I>,
) -> bool {
    let text = trimmed(buffer);
    if text.len() == 0 {
        submission matches Submission::Notify(n) && notice_is(n, prompt_required_message(purpose), true)
    } else {
        match purpose {
            PromptPurpose::SaveQueueAsPlaylist => submission matches Submission::Send(
                Command::SaveQueueAsPlaylist { name },
            ) && name@ == text,
            PromptPurpose::NewPlaylist => submission matches Submission::Send(Command::PlaylistCreate { name })
                && name@ == text,
            PromptPurpose::RenamePlaylist => {
                let index = spec_resolve_index(ui, ui.selected_index);
                if index < domain.playlists@.len() {
                    submission matches Submission::Send(Command::PlaylistRename { id, name })
                        && id == domain.playlists@[index as int].id && name@ == text
                } else {
                    submission is Nothing
                }
            },
            _ => submission matches Submission::Notify(n) && notice_is(n, import_unavailable_message(), false),
        }
    }
}

/// Resolve a submitted prompt into the command to send.
pub fn prompt_submission<F, P, D, I>(
    purpose: PromptPurpose,
    buffer: &str,
    ui: &RouteUi,
    domain: &DomainState<P, D, I>,
) -> (submission: Submission<F>)
    ensures
        is_prompt_submission(submission, purpose, buffer@, *ui, *domain),
{
    let text = trim_text(buffer);
    if text.unicode_len() == 0 {
        let message = match purpose {
            PromptPurpose::ImportPlaylistUrl => {
                proof {
                    reveal_strlit("A URL is required");
                }
                String::from_str("A URL is required")
            },
            PromptPurpose::ImportPlaylistJson => {
                proof {
                    reveal_strlit("Playlist JSON is required");
                }
                String::from_str("Playlist JSON is required")
            },
            _ => {
                proof {
                    reveal_strlit("A playlist name is required");
                }
                String::from_str("A playlist name is required")
            },
        };
        return Submission::Notify(Notice { message, error: true });
    }
    match purpose {
        PromptPurpose::SaveQueueAsPlaylist => Submission::Send(Command::SaveQueueAsPlaylist { name: text }),
        PromptPurpose::NewPlaylist => Submission::Send(Command::PlaylistCreate { name: text }),
        PromptPurpose::RenamePlaylist => {
            let index = resolve_index(ui, ui.selected_index);
            if index < domain.playlists.len() {
                Submission::Send(Command::PlaylistRename { id: domain.playlists[index].id.clone(), name: text })
            } else {
                Submission::Nothing
            }
        },
        PromptPurpose::ImportPlaylistUrl | PromptPurpose::ImportPlaylistJson => {
            proof {
                reveal_strlit("Playlist import is not yet available while attached");
            }
            Submission::Notify(
                Notice {
                    message: String::from_str("Playlist import is not yet available while attached"),
                    error: false,
                },
            )
        },
    }
}

/// Notice for an editor submitted without a name.
pub open spec fn name_required_message() -> Seq<char> {
    "Playlist name is required"@
}

/// Resolve a submitted playlist editor into the metadata edit to send.
pub fn editor_submission<F, P, D, I>(
    name: &str,
    description: &str,
    selected_playlist: Option<usize>,
    domain: &DomainState<P, D, I>,
) -> (submission: Submission<F>)
    ensures
        if trimmed(name@).len() == 0 {
            submission matches Submission::KeepOpen(n) && notice_is(n, name_required_message(), true)
        } else {
            match selected_playlist {
                Some(index) => if index < domain.playlists@.len() {
                    submission matches Submission::Send(Command::PlaylistEdit { id, name: sent_name, description: sent_description })
                        && id == domain.playlists@[index as int].id
                        && sent_name@ == trimmed(name@)
                        && sent_description@ == trimmed(description@)
                } else {
                    submission is Nothing
                },
                None => submission is Nothing,
            }
        },
{
    let name = trim_text(name);
    if name.unicode_len() == 0 {
        proof {
            reveal_strlit("Playlist name is required");
        }
        return Submission::KeepOpen(Notice { message: String::from_str("Playlist name is required"), error: true });
    }
    let index = match selected_playlist {
        Some(index) => index,
        None => return Submission::Nothing,
    };
    if index >= domain.playlists.len() {
        return Submission::Nothing;
    }
    let id = domain.playlists[index].id.clone();
    let description = trim_text(description);
    Submission::Send(Command::PlaylistEdit { id, name, description })
}

/// Which playlist a picker selection names. When the filter offers to
/// create a new playlist, that offer is row zero and the matches follow.
pub enum PickerTarget {
    NewPlaylist,
    /// Store index of an existing playlist.
    Existing(usize),
    Nowhere,
}

/// The target of picker row `selected` over the matching store indices.
pub open spec fn spec_picker_target(create_new: bool, selected: usize, matching: Seq<usize>) -> PickerTarget {
    if create_new && selected == 0 {
        PickerTarget::NewPlaylist
    } else {
        let position = if create_new {
            selected - 1
        } else {
            selected as int
        };
        if position < matching.len() {
            PickerTarget::Existing(matching[position])
        } else {
            PickerTarget::Nowhere
        }
    }
}

/// Resolve the selected picker row.
pub fn picker_target(create_new: bool, selected: usize, matching: &Vec<usize>) -> (target: PickerTarget)
    ensures
        target == spec_picker_target(create_new, selected, matching@),
{
    if create_new && selected == 0 {
        return PickerTarget::NewPlaylist;
    }
    let position = if create_new {
        selected - 1
    } else {
        selected
    };
    if position < matching.len() {
        PickerTarget::Existing(matching[position])
    } else {
        PickerTarget::Nowhere
    }
}

/// Notice for a track already in the picked playlist.
pub open spec fn already_in_message(name: Seq<char>) -> Seq<char> {
    "Already in \""@ + name + "\""@
}

/// The notice text for a track already in playlist `name`.
pub fn already_in_text(name: &str) -> (message: String)
    ensures
        message@ == already_in_message(name@),
{
    proof {
        reveal_strlit("Already in \"");
        reveal_strlit("\"");
    }
    String::from_str("Already in \"").concat(name).concat("\"")
}

/// Resolve a submitted picker into the add to send. The mirror gives
/// immediate feedback for a track already in the playlist; the daemon
/// checks again.
pub fn picker_submission<F, P, D, I>(
    filter: &str,
    selected: usize,
    track: Track,
    create_new: bool,
    matching: &Vec<usize>,
    domain: &DomainState<P, D, I>,
) -> (submission: Submission<F>)
    ensures
        match spec_picker_target(create_new, selected, matching@) {
            PickerTarget::NewPlaylist => submission matches Submission::Send(Command::PlaylistAddTrackNew { name, track: sent })
                && name@ == trimmed(filter@) && sent == track,
            PickerTarget::Existing(index) => if index < domain.playlists@.len() {
                let playlist = domain.playlists@[index as int];
                if entry_ids(playlist.tracks@).contains(track.id@) {
                    submission matches Submission::Notify(n) && notice_is(n, already_in_message(playlist.name@), false)
                } else {
                    submission matches Submission::Send(Command::PlaylistAddTrack { playlist_id, track: sent })
                        && playlist_id == playlist.id && sent == track
                }
            } else {
                submission is Nothing
            },
            PickerTarget::Nowhere => submission is Nothing,
        },
{
    match picker_target(create_new, selected, matching) {
        PickerTarget::NewPlaylist => Submission::Send(Command::PlaylistAddTrackNew { name: trim_text(filter), track }),
        PickerTarget::Existing(index) => {
            if index >= domain.playlists.len() {
                return Submission::Nothing;
            }
            let playlist = &domain.playlists[index];
            if entries_contain_id(playlist.tracks.as_slice(), &track.id) {
                return Submission::Notify(Notice { message: already_in_text(playlist.name.as_str()), error: false });
            }
            Submission::Send(Command::PlaylistAddTrack { playlist_id: playlist.id.clone(), track })
        },
        PickerTarget::Nowhere => Submission::Nothing,
    }
}

/// What a daemon frame changed beyond the mirror.
pub struct FrameEffect {
    /// The domain event the UI reacts to.
    pub ui_event: Option<DomainEvent>,
    /// History changed on disk; reload the read-only copy.
    pub reload_history: bool,
    /// A filterable list changed; filters must be recomputed.
    pub lists_changed: bool,
    /// What a reply changed, for reply frames.
    pub reply: Option<ReplyOutcome>,
}

/// Apply one daemon frame: events update the mirror, replies settle
/// requests, and the welcome was already applied on connect.
pub fn on_daemon_frame<P, D, I>(
    domain: &mut DomainState<P, D, I>,
    pending: &mut Option<ClientSearch>,
    frame: DaemonFrame<P, D, I>,
) -> (effect: FrameEffect)
    ensures
        match frame {
            DaemonFrame::Event { event } => {
                &&& *final(domain) == spec_apply_event(*old(domain), event)
                &&& *final(pending) == *old(pending)
                &&& effect.ui_event == Some(spec_domain_event_for(event))
                &&& effect.reload_history == (event is HistoryChanged)
                &&& effect.lists_changed == (event is QueueChanged || event is PlaylistsChanged)
                &&& effect.reply is None
            },
            DaemonFrame::Reply { id, result } => {
                &&& effect.ui_event is None && !effect.reload_history && !effect.lists_changed
                &&& effect.reply matches Some(outcome) && reply_applied(
                    *old(domain),
                    *final(domain),
                    *old(pending),
                    *final(pending),
                    id,
                    result,
                    outcome,
                )
            },
            DaemonFrame::Welcome { .. } => {
                &&& *final(domain) == *old(domain)
                &&& *final(pending) == *old(pending)
                &&& effect.ui_event is None && !effect.reload_history && !effect.lists_changed && effect.reply is None
            },
        },
{
    match frame {
        DaemonFrame::Event { event } => {
            let ui_event = domain_event_for(&event);
            let reload_history = match &event {
                WireEvent::HistoryChanged => true,
                _ => false,
            };
            let lists_changed = match &event {
                WireEvent::QueueChanged { .. } | WireEvent::PlaylistsChanged { .. } => true,
                _ => false,
            };
            apply_event(domain, event);
            FrameEffect { ui_event, reload_history, lists_changed, reply: None }
        },
        DaemonFrame::Reply { id, result } => {
            let outcome = on_reply(domain, pending, id, result);
            FrameEffect { ui_event: None, reload_history: false, lists_changed: false, reply: Some(outcome) }
        },
        DaemonFrame::Welcome { .. } => FrameEffect {
            ui_event: None,
            reload_history: false,
            lists_changed: false,
            reply: None,
        },
    }
}

} // verus!
