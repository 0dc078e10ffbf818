use ratatube::json_import::{
    checked_count_tracks, count_tracks, import_failure_text, import_summary_text, install_staged,
    merge_playlist_tracks, rollback_plan, stage_json_playlists, RollbackStep,
};
use ratatube::media::{Playlist, PlaylistTrack, Track};

fn playlist(id: &str, name: &str, ids: &[&str]) -> Playlist {
    let mut p = Playlist::with_id(id, name, 1);
    p.tracks = ids.iter().map(|t| PlaylistTrack::from_track(&Track::new(t, t, "C"))).collect();
    p
}

fn ids(p: &Playlist) -> Vec<&str> {
    p.tracks.iter().map(|t| t.id.as_str()).collect()
}

#[test]
fn merging_appends_only_new_videos_and_fills_an_empty_description() {
    let mut target = playlist("t", "Chill", &["a", "b"]);
    let mut incoming = playlist("i", "chill", &["b", "c", "c"]);
    incoming.description = "evening".into();
    let added = merge_playlist_tracks(&mut target, incoming, 50);
    assert_eq!(added, 1);
    assert_eq!(target.updated_at, 50);
    assert_eq!(ids(&target), vec!["a", "b", "c"]);
    assert_eq!(target.description, "evening");
    assert_eq!(target.id, "t");
}

#[test]
fn matching_names_merge_into_stored_and_staged_playlists() {
    let existing = vec![playlist("s1", "Road Trip", &["a"])];
    let incoming = vec![
        playlist("n1", " road trip ", &["a", "b"]),
        playlist("n2", "Focus", &["x"]),
        playlist("n3", "FOCUS", &["x", "y"]),
    ];
    let (staged, added) = stage_json_playlists(&existing, incoming, 70);
    assert_eq!(added, 3);
    assert_eq!(staged.len(), 2);
    assert_eq!(staged[0].id, "s1");
    assert_eq!(ids(&staged[0]), vec!["a", "b"]);
    assert_eq!(staged[1].id, "n2");
    assert_eq!(ids(&staged[1]), vec!["x", "y"]);
    assert_eq!(staged[0].updated_at, 70);
    assert_eq!(staged[1].updated_at, 70);
}

#[test]
fn installing_replaces_by_id_and_appends_new_playlists() {
    let mut stored = vec![playlist("s1", "Road Trip", &["a"]), playlist("s2", "Other", &[])];
    install_staged(&mut stored, vec![playlist("s1", "Road Trip", &["a", "b"]), playlist("n2", "Focus", &["x"])]);
    assert_eq!(stored.len(), 3);
    assert_eq!(ids(&stored[0]), vec!["a", "b"]);
    assert_eq!(stored[1].id, "s2");
    assert_eq!(stored[2].id, "n2");
}

#[test]
fn the_summary_counts_added_and_skipped_videos() {
    let incoming = vec![playlist("a", "A", &["1", "2"]), playlist("b", "B", &["3"])];
    assert_eq!(count_tracks(&incoming), 3);
    assert_eq!(import_summary_text(2, 3), "Imported 2 new tracks · 1 duplicates skipped");
    assert_eq!(import_summary_text(0, 0), "Imported 0 new tracks · 0 duplicates skipped");
}

#[test]
fn a_failed_import_restores_stored_playlists_and_deletes_new_ones() {
    let stored = vec![playlist("s1", "Road Trip", &["a"]), playlist("s2", "Other", &[])];
    let saved = vec!["s2".to_string(), "n1".to_string(), "s1".to_string()];
    let plan = rollback_plan(&stored, &saved);
    assert_eq!(plan.len(), 3);
    assert!(matches!(plan[0], RollbackStep::Restore(1)));
    assert!(matches!(&plan[1], RollbackStep::Delete(id) if id == "n1"));
    assert!(matches!(plan[2], RollbackStep::Restore(0)));
    assert!(rollback_plan(&stored, &Vec::new()).is_empty());
    assert_eq!(
        import_failure_text("disk full"),
        "JSON import failed; no playlists kept: disk full"
    );
}

#[test]
fn counting_an_import_reports_a_total_that_does_not_fit() {
    let incoming = vec![playlist("a", "A", &["1", "2"]), playlist("b", "B", &["3"])];
    assert_eq!(checked_count_tracks(&incoming), Some(3));
    assert_eq!(checked_count_tracks(&Vec::new()), Some(0));
}

#[test]
fn a_merge_that_adds_nothing_keeps_the_last_change_time() {
    let mut target = playlist("t", "Chill", &["a", "b"]);
    let added = merge_playlist_tracks(&mut target, playlist("i", "chill", &["b", "a"]), 50);
    assert_eq!(added, 0);
    assert_eq!(target.updated_at, 1);
    let existing = vec![playlist("s1", "Road Trip", &["a"])];
    let (staged, added) = stage_json_playlists(&existing, vec![playlist("n1", "road trip", &["a"])], 90);
    assert_eq!(added, 0);
    assert_eq!(staged[0].id, "s1");
    assert_eq!(staged[0].updated_at, 1);
}
