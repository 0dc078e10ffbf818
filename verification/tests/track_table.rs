use ratatube::media::{Playlist, PlaylistTrack, Track};
use ratatube::mirror::DomainState;
use ratatube::track_table::{
    ellipsized, marker, track_flags, truncate_end, Marker, TrackFlags, TrackTableLayout,
};

#[test]
fn layout_reserves_fixed_columns_and_splits_the_rest() {
    let layout = TrackTableLayout::new(100, 8);
    let [marker, index, title, channel, right] = layout.column_widths();
    assert_eq!(marker, 2);
    assert_eq!(index, 3);
    assert_eq!(right, 8);
    assert_eq!(title + channel, 100 - 2 - 3 - 8 - 4 - 1);
    assert!(title > channel, "title gets the larger share");
}

#[test]
fn long_titles_truncate_with_an_ellipsis() {
    let layout = TrackTableLayout::new(40, 8);
    assert!(layout.title_width() < 30);
    let text = ellipsized(&"x".repeat(64), layout.title_width());
    assert!(text.ends_with('…'), "got {text:?}");
    assert!(text.chars().count() <= layout.title_width() as usize);
}

#[test]
fn marker_priority_is_playing_then_queued_then_playlist() {
    let all = TrackFlags { playing: true, queued: true, in_playlist: true };
    assert_eq!(marker(all), Marker::Playing);
    let queued = TrackFlags { playing: false, queued: true, in_playlist: true };
    assert_eq!(marker(queued), Marker::Queued);
    let listed = TrackFlags { playing: false, queued: false, in_playlist: true };
    assert_eq!(marker(listed), Marker::InPlaylist);
    let none = TrackFlags { playing: false, queued: false, in_playlist: false };
    assert_eq!(marker(none), Marker::Blank);
}

#[test]
fn a_narrow_pane_leaves_no_flexible_columns() {
    let layout = TrackTableLayout::new(10, 8);
    assert_eq!(layout.title_width(), 0);
    assert_eq!(layout.channel_width(), 0);
    assert_eq!(layout.right_width(), 8);
}

#[test]
fn the_title_gets_three_fifths_of_the_flexible_width() {
    // 60 - 18 fixed = 42 flexible; 42 * 3 / 5 = 25.
    let layout = TrackTableLayout::new(60, 8);
    assert_eq!(layout.title_width(), 25);
    assert_eq!(layout.channel_width(), 17);
}

#[test]
fn short_text_is_shown_unchanged() {
    assert_eq!(ellipsized("abc", 3), "abc");
    assert_eq!(ellipsized("abcd", 3), "ab…");
}

#[test]
fn truncation_measures_terminal_cells_not_characters() {
    // Each CJK character takes two cells: a budget of 4 cells keeps one
    // character before the ellipsis (2 cells + 1 for the ellipsis fits, a
    // second wide character would not).
    assert_eq!(truncate_end("日本語テキスト", 4), "日…");
    assert_eq!(ellipsized("日本", 4), "日本");
    assert_eq!(ellipsized("日本語", 4), "日…");
}

#[test]
fn truncating_to_zero_width_gives_nothing() {
    assert_eq!(truncate_end("abc", 0), "");
    assert_eq!(truncate_end("abc", 1), "…");
}

#[test]
fn flags_resolve_against_current_queue_and_playlists() {
    let mut domain: DomainState<(), (), ()> = DomainState::new(());
    domain.current_track = Some(Track::new("p", "Playing", "Channel"));
    domain.queue.push(Track::new("q", "Queued", "Channel"));
    let mut playlist = Playlist::with_id("id", "Saved", 0);
    playlist.tracks.push(PlaylistTrack::from_track(&Track::new("s", "Saved", "Channel")));
    domain.playlists.push(playlist);

    assert_eq!(
        track_flags(&domain, "p"),
        TrackFlags { playing: true, queued: false, in_playlist: false }
    );
    assert_eq!(
        track_flags(&domain, "q"),
        TrackFlags { playing: false, queued: true, in_playlist: false }
    );
    assert_eq!(
        track_flags(&domain, "s"),
        TrackFlags { playing: false, queued: false, in_playlist: true }
    );
    assert_eq!(
        track_flags(&domain, "x"),
        TrackFlags { playing: false, queued: false, in_playlist: false }
    );
}
