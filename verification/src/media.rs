//! Media model: tracks and the playlist entries stored for them.

use vstd::prelude::*;

verus! {

/// One playable video.
#[derive(Debug)]
pub struct Track {
    /// YouTube video id; tracks are matched by it everywhere.
    pub id: String,
    pub title: String,
    /// Uploader or channel display name.
    pub artist: String,
    /// Canonical channel URL when the source metadata carried one.
    pub channel_url: Option<String>,
    /// Watch page URL.
    pub webpage_url: String,
    /// Length in whole seconds when known.
    pub duration_seconds: Option<u64>,
}

/// Watch-page URL of a video id.
pub open spec fn watch_url(id: Seq<char>) -> Seq<char> {
    "https://www.youtube.com/watch?v="@ + id
}

/// Copy of an optional string.
pub fn copy_optional_string(value: &Option<String>) -> (r: Option<String>)
    ensures
        r == *value,
{
    match value {
        Some(text) => Some(text.clone()),
        None => None,
    }
}

impl Track {
    /// A track with the given id, title and artist and no optional metadata.
    pub fn new(id: &str, title: &str, artist: &str) -> (track: Track)
        ensures
            track.id@ == id@,
            track.title@ == title@,
            track.artist@ == artist@,
            track.channel_url is None,
            track.webpage_url@ == watch_url(id@),
            track.duration_seconds is None,
    {
        Track {
            id: String::from_str(id),
            title: String::from_str(title),
            artist: String::from_str(artist),
            channel_url: None,
            webpage_url: String::from_str("https://www.youtube.com/watch?v=").concat(id),
            duration_seconds: None,
        }
    }

    /// An exact copy of this track.
    pub fn duplicate(&self) -> (copy: Track)
        ensures
            copy == *self,
    {
        Track {
            id: self.id.clone(),
            title: self.title.clone(),
            artist: self.artist.clone(),
            channel_url: copy_optional_string(&self.channel_url),
            webpage_url: self.webpage_url.clone(),
            duration_seconds: self.duration_seconds,
        }
    }
}

/// Copy of a sequence of tracks.
pub fn duplicate_tracks(tracks: &[Track]) -> (copy: Vec<Track>)
    ensures
        copy@ == tracks@,
{
    let mut copy: Vec<Track> = Vec::new();
    let mut i: usize = 0;
    while i < tracks.len()
        invariant
            i <= tracks@.len(),
            copy@ == tracks@.take(i as int),
        decreases tracks@.len() - i,
    {
        copy.push(tracks[i].duplicate());
        assert(tracks@.take(i + 1) == tracks@.take(i as int).push(tracks@[i as int]));
        i = i + 1;
    }
    assert(tracks@.take(tracks@.len() as int) == tracks@);
    copy
}

/// One stored playlist entry: the track metadata a playlist keeps.
#[derive(Debug)]
pub struct PlaylistTrack {
    pub id: String,
    pub title: String,
    pub artist: String,
    pub duration_seconds: Option<u64>,
}

/// The playlist entry recorded for a track.
pub open spec fn playlist_entry(track: Track) -> PlaylistTrack {
    PlaylistTrack {
        id: track.id,
        title: track.title,
        artist: track.artist,
        duration_seconds: track.duration_seconds,
    }
}

impl PlaylistTrack {
    /// Record a track as a playlist entry.
    pub fn from_track(track: &Track) -> (entry: PlaylistTrack)
        ensures
            entry == playlist_entry(*track),
    {
        PlaylistTrack {
            id: track.id.clone(),
            title: track.title.clone(),
            artist: track.artist.clone(),
            duration_seconds: track.duration_seconds,
        }
    }

    /// An exact copy of this entry.
    pub fn duplicate(&self) -> (copy: PlaylistTrack)
        ensures
            copy == *self,
    {
        PlaylistTrack {
            id: self.id.clone(),
            title: self.title.clone(),
            artist: self.artist.clone(),
            duration_seconds: self.duration_seconds,
        }
    }
}

/// A saved playlist.
#[derive(Debug)]
pub struct Playlist {
    /// Stable playlist id.
    pub id: String,
    pub name: String,
    pub description: String,
    /// Entries in playlist order.
    pub tracks: Vec<PlaylistTrack>,
    /// Time of the last change, in milliseconds since the Unix epoch (UTC).
    pub updated_at: i64,
}

impl Playlist {
    /// An empty playlist with the given id and name, created at `now`.
    pub fn with_id(id: &str, name: &str, now: i64) -> (playlist: Playlist)
        ensures
            playlist.id@ == id@,
            playlist.name@ == name@,
            playlist.description@ == Seq::<char>::empty(),
            playlist.tracks@ == Seq::<PlaylistTrack>::empty(),
            playlist.updated_at == now,
    {
        Playlist {
            id: String::from_str(id),
            name: String::from_str(name),
            description: String::new(),
            tracks: Vec::new(),
            updated_at: now,
        }
    }
}

/// Ids of a sequence of tracks, in order.
pub open spec fn track_ids(tracks: Seq<Track>) -> Seq<Seq<char>> {
    tracks.map_values(|track: Track| track.id@)
}

/// Ids of a sequence of playlist entries, in order.
pub open spec fn entry_ids(entries: Seq<PlaylistTrack>) -> Seq<Seq<char>> {
    entries.map_values(|entry: PlaylistTrack| entry.id@)
}

/// Whether some track carries the id.
pub fn tracks_contain_id(tracks: &[Track], id: &String) -> (found: bool)
    ensures
        found == track_ids(tracks@).contains(id@),
{
    let mut i: usize = 0;
    while i < tracks.len()
        invariant
            i <= tracks@.len(),
            forall|j: int| 0 <= j < i ==> tracks@[j].id@ != id@,
        decreases tracks@.len() - i,
    {
        if tracks[i].id == *id {
            assert(track_ids(tracks@)[i as int] == id@);
            return true;
        }
        i = i + 1;
    }
    assert(!track_ids(tracks@).contains(id@)) by {
        if track_ids(tracks@).contains(id@) {
            let k = choose|k: int| 0 <= k < track_ids(tracks@).len() && track_ids(tracks@)[k] == id@;
            assert(tracks@[k].id@ == id@);
        }
    }
    false
}

/// Whether some playlist entry carries the id.
pub fn entries_contain_id(entries: &[PlaylistTrack], id: &String) -> (found: bool)
    ensures
        found == entry_ids(entries@).contains(id@),
{
    let mut i: usize = 0;
    while i < entries.len()
        invariant
            i <= entries@.len(),
            forall|j: int| 0 <= j < i ==> entries@[j].id@ != id@,
        decreases entries@.len() - i,
    {
        if entries[i].id == *id {
            assert(entry_ids(entries@)[i as int] == id@);
            return true;
        }
        i = i + 1;
    }
    assert(!entry_ids(entries@).contains(id@)) by {
        if entry_ids(entries@).contains(id@) {
            let k = choose|k: int| 0 <= k < entry_ids(entries@).len() && entry_ids(entries@)[k] == id@;
            assert(entries@[k].id@ == id@);
        }
    }
    false
}

} // verus!
