use ratatube::channel::{
    finish_channel_page, leave_channel, open_channel, ChannelNavigationSnapshot, ChannelPage,
    ChannelState,
};
use ratatube::input::KeyUi;
use ratatube::media::Track;
use ratatube::state::{AppView, Focus, PlayingPane};

fn snapshot() -> ChannelNavigationSnapshot {
    ChannelNavigationSnapshot { view: AppView::Search, focus: Focus::Content, selected_index: 3 }
}

fn state() -> ChannelState {
    ChannelState::new(
        &Track::new("source", "Source", "Channel"),
        "https://www.youtube.com/channel/UC1/videos".into(),
        snapshot(),
    )
}

fn page(ids: &[&str], exhausted: bool) -> ChannelPage {
    ChannelPage {
        tracks: ids
            .iter()
            .map(|id| Track::new(id, &format!("Title {id}"), "Channel"))
            .collect(),
        exhausted,
    }
}

fn ids(channel: &ChannelState) -> Vec<&str> {
    channel.tracks.iter().map(|track| track.id.as_str()).collect()
}

#[test]
fn initial_page_preserves_newest_order_and_advances_once() {
    let mut channel = state();
    channel.loading = true;
    channel.append(page(&["new", "old"], false));
    assert_eq!(ids(&channel), ["new", "old"]);
    assert_eq!(channel.next_page, 1);
    assert!(!channel.loading);
}

#[test]
fn later_pages_deduplicate_without_reordering_existing_rows() {
    let mut channel = state();
    channel.append(page(&["new", "middle"], false));
    channel.append(page(&["middle", "old"], true));
    assert_eq!(ids(&channel), ["new", "middle", "old"]);
    assert!(channel.exhausted);
}

#[test]
fn failed_page_can_retry_same_page_without_losing_rows() {
    let mut channel = state();
    channel.append(page(&["new"], false));
    channel.loading = false;
    channel.error = Some("offline".into());
    assert_eq!(channel.next_page, 1);
    assert_eq!(channel.tracks[0].id, "new");
    assert!(!channel.exhausted);
}

#[test]
fn return_snapshot_keeps_view_focus_and_selection() {
    assert_eq!(state().return_to, snapshot());
}

#[test]
fn stale_channel_or_page_completion_is_ignored() {
    let mut channel = Some(state());
    let applied = finish_channel_page(
        &mut channel,
        "https://www.youtube.com/channel/OTHER/videos",
        0,
        Ok(page(&["wrong"], false)),
    );
    assert!(!applied);
    let applied = finish_channel_page(
        &mut channel,
        "https://www.youtube.com/channel/UC1/videos",
        7,
        Ok(page(&["wrong-page"], false)),
    );
    assert!(!applied);
    assert!(channel.as_ref().expect("channel").tracks.is_empty());
}

#[test]
fn later_failure_preserves_rows_and_back_restores_navigation() {
    let mut channel = state();
    channel.append(page(&["new"], false));
    channel.loading = true;
    let mut slot = Some(channel);
    let applied = finish_channel_page(
        &mut slot,
        "https://www.youtube.com/channel/UC1/videos",
        1,
        Err("offline".into()),
    );
    assert!(applied);
    let channel = slot.as_ref().expect("channel");
    assert_eq!(channel.tracks[0].id, "new");
    assert_eq!(channel.next_page, 1);
    assert_eq!(channel.error.as_deref(), Some("offline"));
    assert!(!channel.loading);

    let restore = leave_channel(&mut slot).expect("snapshot");
    assert!(slot.is_none());
    assert_eq!(restore.view, AppView::Search);
    assert_eq!(restore.focus, Focus::Content);
    assert_eq!(restore.selected_index, 3);
}

#[test]
fn a_matching_page_completion_appends_and_advances() {
    let mut slot = Some(state());
    let applied = finish_channel_page(
        &mut slot,
        "https://www.youtube.com/channel/UC1/videos",
        0,
        Ok(page(&["a", "a", "b"], true)),
    );
    assert!(applied);
    let channel = slot.as_ref().expect("channel");
    assert_eq!(ids(channel), ["a", "b"]);
    assert_eq!(channel.next_page, 1);
    assert!(channel.exhausted);
}

#[test]
fn completion_without_an_open_channel_is_ignored() {
    let mut slot: Option<ChannelState> = None;
    assert!(!finish_channel_page(&mut slot, "x", 0, Ok(page(&["a"], false))));
    assert!(slot.is_none());
    assert!(leave_channel(&mut slot).is_none());
}

#[test]
fn nested_channel_back_restores_original_channel_and_selection() {
    let mut original = state();
    original.append(page(&["first", "selected"], true));
    original.loading = true;
    let mut slot = Some(original);
    let mut ui = KeyUi {
        focus: Focus::Content,
        view: AppView::Channel,
        list_filter: None,
        selected_index: 1,
        playing_pane: PlayingPane::Info,
        ultra_wide: false,
    };
    let mut nested_track = Track::new("nested", "Nested", "Other channel");
    nested_track.channel_url = Some("https://www.youtube.com/channel/UC2".into());

    open_channel(
        &mut slot,
        &mut ui,
        &nested_track,
        "https://www.youtube.com/channel/UC2".into(),
    );
    assert_eq!(slot.as_ref().expect("nested").name, "Other channel");
    assert_eq!(ui.selected_index, 0);

    let restore = leave_channel(&mut slot).expect("snapshot");

    let restored = slot.as_ref().expect("original channel");
    assert_eq!(restored.url, "https://www.youtube.com/channel/UC1/videos");
    assert_eq!(restored.tracks[1].id, "selected");
    assert!(
        !restored.loading,
        "cancelled page must not restore a stale spinner"
    );
    assert_eq!(restore.view, AppView::Channel);
    assert_eq!(restore.selected_index, 1);

    assert!(leave_channel(&mut slot).is_some());
    assert!(slot.is_none());
}
