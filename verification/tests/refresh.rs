use ratatube::media::{Playlist, PlaylistTrack, Track};
use ratatube::refresh::{apply, diff, RefreshStrategy};

fn track(id: &str) -> Track {
    Track::new(id, id, "artist")
}

fn playlist_with(ids: &[&str]) -> Playlist {
    let mut p = Playlist::with_id("p-id", "p", 0);
    p.tracks = ids.iter().map(|id| PlaylistTrack::from_track(&track(id))).collect();
    p
}

fn ids(playlist: &Playlist) -> Vec<&str> {
    playlist.tracks.iter().map(|t| t.id.as_str()).collect()
}

#[test]
fn diff_detects_added_removed_kept() {
    let playlist = playlist_with(&["a", "b", "c"]);
    let remote = vec![track("b"), track("c"), track("d")];
    let d = diff(&playlist, &remote);
    assert_eq!(d.added.len(), 1);
    assert_eq!(d.added[0].id, "d");
    assert_eq!(d.removed, vec!["a".to_string()]);
    assert_eq!(d.kept, 2);
}

#[test]
fn preview_applies_nothing() {
    let mut playlist = playlist_with(&["a"]);
    let d = diff(&playlist, &[track("b")]);
    apply(&mut playlist, d, RefreshStrategy::Preview);
    assert_eq!(playlist.tracks.len(), 1);
}

#[test]
fn mirror_adds_and_removes() {
    let mut playlist = playlist_with(&["a", "b"]);
    let d = diff(&playlist, &[track("b"), track("c")]);
    let removed = apply(&mut playlist, d, RefreshStrategy::Mirror);
    assert_eq!(removed, 1);
    assert_eq!(ids(&playlist), vec!["b", "c"]);
}

#[test]
fn add_new_only_keeps_local_entries_and_appends_remote_ones() {
    let mut playlist = playlist_with(&["a", "b"]);
    let d = diff(&playlist, &[track("b"), track("c")]);
    let removed = apply(&mut playlist, d, RefreshStrategy::AddNewOnly);
    assert_eq!(removed, 0);
    assert_eq!(ids(&playlist), vec!["a", "b", "c"]);
}

#[test]
fn mirroring_an_identical_remote_changes_nothing() {
    let mut playlist = playlist_with(&["a", "b"]);
    let d = diff(&playlist, &[track("a"), track("b")]);
    assert!(d.added.is_empty());
    assert!(d.removed.is_empty());
    assert_eq!(d.kept, 2);
    let removed = apply(&mut playlist, d, RefreshStrategy::Mirror);
    assert_eq!(removed, 0);
    assert_eq!(ids(&playlist), vec!["a", "b"]);
}

#[test]
fn refreshing_against_an_empty_remote_removes_everything_when_mirroring() {
    let mut playlist = playlist_with(&["a", "b"]);
    let d = diff(&playlist, &[]);
    assert_eq!(d.removed, vec!["a".to_string(), "b".to_string()]);
    let removed = apply(&mut playlist, d, RefreshStrategy::Mirror);
    assert_eq!(removed, 2);
    assert!(playlist.tracks.is_empty());
}

#[test]
fn the_default_strategy_previews() {
    assert!(matches!(RefreshStrategy::default_strategy(), RefreshStrategy::Preview));
}

#[test]
fn a_second_refresh_finds_nothing_to_change() {
    let remote = vec![track("b"), track("c"), track("d")];

    let mut mirrored = playlist_with(&["a", "b", "x", "c"]);
    let d = diff(&mirrored, &remote);
    let local_len = mirrored.tracks.len();
    let kept = d.kept;
    let removed = apply(&mut mirrored, d, RefreshStrategy::Mirror);
    assert_eq!(removed, local_len - kept);
    assert_eq!(ids(&mirrored), ["b", "c", "d"]);
    let again = diff(&mirrored, &remote);
    assert!(again.added.is_empty());
    assert!(again.removed.is_empty());
    assert_eq!(again.kept, 3);

    let mut extended = playlist_with(&["a", "b"]);
    let d = diff(&extended, &remote);
    assert_eq!(apply(&mut extended, d, RefreshStrategy::AddNewOnly), 0);
    assert_eq!(ids(&extended), ["a", "b", "c", "d"]);
    let again = diff(&extended, &remote);
    assert!(again.added.is_empty());
    assert_eq!(again.removed, vec!["a".to_string()]);
}

#[test]
fn applying_a_refresh_never_touches_the_last_change_time() {
    for strategy in [RefreshStrategy::Preview, RefreshStrategy::AddNewOnly, RefreshStrategy::Mirror] {
        let mut playlist = playlist_with(&["a", "b"]);
        playlist.updated_at = 42;
        let d = diff(&playlist, &[track("b"), track("c")]);
        apply(&mut playlist, d, strategy);
        assert_eq!(playlist.updated_at, 42);
        assert_eq!(playlist.id, "p-id");
    }
}
