//! Playlist selection and editing rules shared by the standalone and the
//! daemon runtimes.

use vstd::prelude::*;

use crate::attached::{notice_is, Notice};
use crate::media::{entries_contain_id, entry_ids, playlist_entry, Playlist, PlaylistTrack, Track};
use crate::queue::Queue;
use crate::state::{AppView, HomeSection};

verus! {

/// Id of the playlist the current view and selection point at.
pub open spec fn spec_selected_playlist_id(
    view: AppView,
    home_section: HomeSection,
    selected_index: usize,
    selected_playlist: Option<usize>,
    playlists: Seq<Playlist>,
) -> Option<String> {
    let list_pick = if selected_index < playlists.len() {
        Some(playlists[selected_index as int].id)
    } else {
        None
    };
    if view == AppView::Home && home_section == HomeSection::Playlists {
        list_pick
    } else if view == AppView::Playlists {
        list_pick
    } else if view == AppView::PlaylistDetail {
        match selected_playlist {
            Some(index) => if index < playlists.len() {
                Some(playlists[index as int].id)
            } else {
                None
            },
            None => None,
        }
    } else {
        None
    }
}

/// Resolve the playlist id relevant to the current view and selection.
pub fn selected_playlist_id(
    view: AppView,
    home_section: HomeSection,
    selected_index: usize,
    selected_playlist: Option<usize>,
    playlists: &Vec<Playlist>,
) -> (id: Option<String>)
    ensures
        id == spec_selected_playlist_id(view, home_section, selected_index, selected_playlist, playlists@),
{
    let index = if (view == AppView::Home && home_section == HomeSection::Playlists) || view == AppView::Playlists {
        Some(selected_index)
    } else if view == AppView::PlaylistDetail {
        selected_playlist
    } else {
        None
    };
    match index {
        Some(index) => if index < playlists.len() {
            Some(playlists[index].id.clone())
        } else {
            None
        },
        None => None,
    }
}

/// Rename the playlist with the given id, marking it changed at `now`.
/// Returns where it was found, if anywhere.
pub fn rename_playlist(playlists: &mut Vec<Playlist>, id: &String, name: &str, now: i64) -> (renamed: Option<usize>)
    ensures
        match renamed {
            Some(i) => {
                &&& i < old(playlists)@.len()
                &&& old(playlists)@[i as int].id@ == id@
                &&& forall|k: int| 0 <= k < i ==> #[trigger] old(playlists)@[k].id@ != id@
                &&& final(playlists)@.len() == old(playlists)@.len()
                &&& final(playlists)@[i as int].name@ == name@
                &&& final(playlists)@[i as int].id == old(playlists)@[i as int].id
                &&& final(playlists)@[i as int].description == old(playlists)@[i as int].description
                &&& final(playlists)@[i as int].tracks@ == old(playlists)@[i as int].tracks@
                &&& final(playlists)@[i as int].updated_at == now
                &&& forall|k: int| 0 <= k < old(playlists)@.len() && k != i ==> #[trigger] final(playlists)@[k]
                    == old(playlists)@[k]
            },
            None => {
                &&& *final(playlists) == *old(playlists)
                &&& forall|k: int| 0 <= k < old(playlists)@.len() ==> #[trigger] old(playlists)@[k].id@ != id@
            },
        },
{
    let mut i: usize = 0;
    while i < playlists.len()
        invariant
            i <= playlists@.len(),
            *playlists == *old(playlists),
            forall|k: int| 0 <= k < i ==> #[trigger] playlists@[k].id@ != id@,
        decreases playlists@.len() - i,
    {
        if playlists[i].id == *id {
            let mut renamed = playlists.remove(i);
            renamed.name = String::from_str(name);
            renamed.updated_at = now;
            playlists.insert(i, renamed);
            return Some(i);
        }
        i = i + 1;
    }
    None
}

/// Notice for saving an empty queue as a playlist.
pub open spec fn empty_queue_message() -> Seq<char> {
    "Queue is empty"@
}

/// A new playlist holding the queue's tracks, in queue order, under the
/// given id and name, created at `now`; an empty queue is refused.
pub fn queue_as_playlist(queue: &Queue, id: &str, name: &str, now: i64) -> (saved: Result<Playlist, Notice>)
    ensures
        match saved {
            Ok(playlist) => {
                &&& queue.tracks@.len() > 0
                &&& playlist.id@ == id@ && playlist.name@ == name@ && playlist.description@.len() == 0
                &&& playlist.tracks@.len() == queue.tracks@.len()
                &&& forall|k: int| 0 <= k < queue.tracks@.len() ==> #[trigger] playlist.tracks@[k] == playlist_entry(queue.tracks@[k])
                &&& playlist.updated_at == now
            },
            Err(notice) => queue.tracks@.len() == 0 && notice_is(notice, empty_queue_message(), true),
        },
{
    if queue.tracks.len() == 0 {
        proof {
            reveal_strlit("Queue is empty");
        }
        return Err(Notice { message: String::from_str("Queue is empty"), error: true });
    }
    let mut playlist = Playlist::with_id(id, name, now);
    let mut i: usize = 0;
    while i < queue.tracks.len()
        invariant
            i <= queue.tracks@.len(),
            playlist.id@ == id@,
            playlist.name@ == name@,
            playlist.description@.len() == 0,
            playlist.updated_at == now,
            playlist.tracks@.len() == i,
            forall|k: int| 0 <= k < i ==> #[trigger] playlist.tracks@[k] == playlist_entry(queue.tracks@[k]),
        decreases queue.tracks@.len() - i,
    {
        playlist.tracks.push(PlaylistTrack::from_track(&queue.tracks[i]));
        i = i + 1;
    }
    Ok(playlist)
}

/// What adding a picked track to a playlist did.
pub enum PickOutcome {
    /// The playlist already lists the video.
    AlreadyPresent(Notice),
    /// The video was appended.
    Added(Notice),
}

/// Notice after adding a track to playlist `name`.
pub open spec fn added_to_message(name: Seq<char>) -> Seq<char> {
    "Added to \""@ + name + "\""@
}

/// Add a picked track to a playlist unless it already lists the video; an
/// added track marks the playlist changed at `now`.
pub fn add_picked_track(playlist: &mut Playlist, track: &Track, now: i64) -> (outcome: PickOutcome)
    ensures
        if entry_ids(old(playlist).tracks@).contains(track.id@) {
            &&& *final(playlist) == *old(playlist)
            &&& outcome matches PickOutcome::AlreadyPresent(n) && notice_is(
                n,
                crate::attached::already_in_message(old(playlist).name@),
                false,
            )
        } else {
            &&& final(playlist).tracks@ == old(playlist).tracks@.push(playlist_entry(*track))
            &&& final(playlist).id == old(playlist).id
            &&& final(playlist).name == old(playlist).name
            &&& final(playlist).description == old(playlist).description
            &&& final(playlist).updated_at == now
            &&& outcome matches PickOutcome::Added(n) && notice_is(n, added_to_message(old(playlist).name@), false)
        },
{
    if entries_contain_id(playlist.tracks.as_slice(), &track.id) {
        return PickOutcome::AlreadyPresent(
            Notice { message: crate::attached::already_in_text(playlist.name.as_str()), error: false },
        );
    }
    playlist.tracks.push(PlaylistTrack::from_track(track));
    playlist.updated_at = now;
    proof {
        reveal_strlit("Added to \"");
        reveal_strlit("\"");
    }
    let message = String::from_str("Added to \"").concat(playlist.name.as_str()).concat("\"");
    PickOutcome::Added(Notice { message, error: false })
}

} // verus!
