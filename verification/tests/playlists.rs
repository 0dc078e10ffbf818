use ratatube::actions::{Action, ExternalCommandKind, ExternalCommandTarget, PlaylistAction};
use ratatube::channel::{begin_channel_page, finish_channel_resolve, open_channel, ChannelLookup, ChannelNavigationSnapshot, ChannelState};
use ratatube::external::finish_external_command;
use ratatube::input::KeyUi;
use ratatube::keymap::{paste_action, ModalCapture};
use ratatube::layout::{audio_channels_label, hero_panels, settings_window, Breakpoint};
use ratatube::media::{Playlist, PlaylistTrack, Track};
use ratatube::playlists::{add_picked_track, queue_as_playlist, rename_playlist, selected_playlist_id, PickOutcome};
use ratatube::queue::Queue;
use ratatube::state::{AppView, Focus, HomeSection, PlayingPane};

fn stored() -> Vec<Playlist> {
    vec![Playlist::with_id("p0", "Zero", 10), Playlist::with_id("p1", "One", 20)]
}

#[test]
fn the_selected_playlist_depends_on_the_view() {
    let lists = stored();
    assert_eq!(selected_playlist_id(AppView::Playlists, HomeSection::Resume, 1, None, &lists).as_deref(), Some("p1"));
    assert_eq!(selected_playlist_id(AppView::Home, HomeSection::Playlists, 0, None, &lists).as_deref(), Some("p0"));
    assert_eq!(selected_playlist_id(AppView::Home, HomeSection::Recent, 0, None, &lists), None);
    assert_eq!(selected_playlist_id(AppView::PlaylistDetail, HomeSection::Resume, 0, Some(1), &lists).as_deref(), Some("p1"));
    assert_eq!(selected_playlist_id(AppView::Playlists, HomeSection::Resume, 5, None, &lists), None);
}

#[test]
fn renaming_finds_the_playlist_by_id() {
    let mut lists = stored();
    assert_eq!(rename_playlist(&mut lists, &"p1".to_string(), "Uno", 99), Some(1));
    assert_eq!(lists[1].name, "Uno");
    assert_eq!(lists[1].updated_at, 99);
    assert_eq!(lists[0].name, "Zero");
    assert_eq!(lists[0].updated_at, 10);
    assert_eq!(rename_playlist(&mut lists, &"zz".to_string(), "X", 100), None);
    assert_eq!(lists[1].updated_at, 99);
}

#[test]
fn saving_the_queue_needs_tracks() {
    let mut queue = Queue::new();
    let refused = queue_as_playlist(&queue, "id", "Saved", 5).err().expect("refused");
    assert_eq!(refused.message, "Queue is empty");
    queue.push(Track::new("a", "A", "C"));
    queue.push(Track::new("b", "B", "C"));
    let playlist = queue_as_playlist(&queue, "id", "Saved", 5).expect("saved");
    assert_eq!(playlist.name, "Saved");
    assert_eq!(playlist.updated_at, 5);
    assert_eq!(playlist.tracks.iter().map(|t| t.id.as_str()).collect::<Vec<_>>(), vec!["a", "b"]);
}

#[test]
fn a_picked_track_is_added_once() {
    let mut playlist = Playlist::with_id("p", "Chill", 1);
    let track = Track::new("a", "A", "C");
    assert!(matches!(add_picked_track(&mut playlist, &track, 2), PickOutcome::Added(n) if n.message == "Added to \"Chill\""));
    assert_eq!(playlist.updated_at, 2);
    assert!(matches!(add_picked_track(&mut playlist, &track, 3), PickOutcome::AlreadyPresent(n) if n.message == "Already in \"Chill\""));
    assert_eq!(playlist.updated_at, 2);
    assert_eq!(playlist.tracks.len(), 1);
    let _: &PlaylistTrack = &playlist.tracks[0];
}

#[test]
fn channel_pages_load_one_at_a_time() {
    let mut slot = Some(ChannelState::new(
        &Track::new("s", "S", "Chan"),
        "url".into(),
        ChannelNavigationSnapshot { view: AppView::Search, focus: Focus::Content, selected_index: 0 },
    ));
    assert_eq!(begin_channel_page(&mut slot).as_deref(), Some("url"));
    assert!(slot.as_ref().unwrap().loading);
    assert_eq!(begin_channel_page(&mut slot), None);
    let mut none: Option<ChannelState> = None;
    assert_eq!(begin_channel_page(&mut none), None);
}

#[test]
fn opening_a_channel_remembers_the_way_back() {
    let mut slot = None;
    let mut ui = KeyUi {
        focus: Focus::SearchInput,
        view: AppView::Search,
        list_filter: None,
        selected_index: 4,
        playing_pane: PlayingPane::Info,
        ultra_wide: false,
    };
    open_channel(&mut slot, &mut ui, &Track::new("s", "S", "Chan"), "url".into());
    let channel = slot.expect("open");
    assert_eq!(channel.return_to, ChannelNavigationSnapshot { view: AppView::Search, focus: Focus::SearchInput, selected_index: 4 });
    assert_eq!(channel.name, "Chan");
    assert_eq!(ui.view, AppView::Channel);
    assert_eq!(ui.focus, Focus::Content);
    assert_eq!(ui.selected_index, 0);
}

#[test]
fn channel_lookups_explain_failures() {
    let mut track = Track::new("s", "S", "Chan");
    assert!(matches!(finish_channel_resolve(Ok(track.duplicate())), ChannelLookup::Unavailable(m) if m == "Channel unavailable for this track"));
    track.channel_url = Some("https://www.youtube.com/channel/UC1".into());
    assert!(matches!(finish_channel_resolve(Ok(track)), ChannelLookup::Open { url, .. } if url == "https://www.youtube.com/channel/UC1"));
    assert!(matches!(finish_channel_resolve(Err("offline".into())), ChannelLookup::Unavailable(m) if m == "Channel lookup failed: offline"));
}

#[test]
fn external_commands_close_only_the_menu_they_ran_from() {
    let open = "t".to_string();
    let target = ExternalCommandTarget::TrackContext { track_id: "t".into(), generation: 2 };
    let (close, notice) = finish_external_command(ExternalCommandKind::Browser, target, Ok(()), Some(&open), 2);
    assert!(close);
    assert_eq!(notice.message, "Opened in browser");
    let target = ExternalCommandTarget::TrackContext { track_id: "t".into(), generation: 2 };
    let (close, _) = finish_external_command(ExternalCommandKind::Browser, target, Ok(()), Some(&open), 3);
    assert!(!close);
    let (close, notice) = finish_external_command(ExternalCommandKind::Clipboard, ExternalCommandTarget::Selection, Err("no xclip".into()), None, 0);
    assert!(!close);
    assert_eq!(notice.message, "Couldn't copy URL: no xclip");
    assert!(notice.error);
}

#[test]
fn paste_goes_only_to_prompts() {
    let a: Option<Action<f64, (), ()>> = paste_action(Some(ModalCapture::Prompt), "x".into());
    assert!(matches!(a, Some(Action::Playlists(PlaylistAction::PromptPaste(t))) if t == "x"));
    let a: Option<Action<f64, (), ()>> = paste_action(Some(ModalCapture::Picker), "x".into());
    assert!(a.is_none());
    let a: Option<Action<f64, (), ()>> = paste_action(None, "x".into());
    assert!(a.is_none());
}

#[test]
fn the_settings_list_scrolls_with_the_selection() {
    assert_eq!(settings_window(40, 0, 10), (0, 10));
    assert_eq!(settings_window(10, 0, 10), (0, 4));
    assert_eq!(settings_window(10, 6, 10), (3, 4));
    assert_eq!(settings_window(10, 9, 10), (6, 4));
    assert_eq!(settings_window(0, 2, 10), (0, 3));
}

#[test]
fn panels_follow_the_breakpoint() {
    assert_eq!(hero_panels(Breakpoint::Narrow), (false, false));
    assert_eq!(hero_panels(Breakpoint::Regular), (true, false));
    assert_eq!(hero_panels(Breakpoint::Wide), (true, true));
    assert_eq!(audio_channels_label(1), "Mono");
    assert_eq!(audio_channels_label(2), "Stereo");
    assert_eq!(audio_channels_label(6), "6ch");
}
