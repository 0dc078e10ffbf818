//! Dedicated channel-browser state: paged, deduplicated channel videos and
//! the navigation to restore when the browser is left.

use vstd::prelude::*;

use crate::input::KeyUi;
use crate::media::{track_ids, tracks_contain_id, Track};
use crate::state::{AppView, Focus};

verus! {

broadcast use vstd::seq_lib::group_seq_properties;

/// Navigation values restored when leaving the dedicated channel view.
#[derive(PartialEq, Eq, Structural, Clone, Copy, Debug)]
pub struct ChannelNavigationSnapshot {
    /// View that opened the channel browser.
    pub view: AppView,
    /// Focus restored when returning.
    pub focus: Focus,
    /// Selected row restored when returning.
    pub selected_index: usize,
}

/// One fetched page of channel videos, newest first.
pub struct ChannelPage {
    pub tracks: Vec<Track>,
    /// Whether the source has no further page.
    pub exhausted: bool,
}

/// State owned exclusively by the dedicated channel browser.
pub struct ChannelState {
    /// Display name copied from the source track metadata.
    pub name: String,
    /// Validated canonical YouTube channel videos URL.
    pub url: String,
    /// Loaded videos in newest-first source order.
    pub tracks: Vec<Track>,
    /// Zero-based page retained for the next request or retry.
    pub next_page: usize,
    /// Whether the source has no additional bounded page.
    pub exhausted: bool,
    /// Whether a page request currently owns the loading state.
    pub loading: bool,
    /// Last page failure; existing tracks remain usable while present.
    pub error: Option<String>,
    /// Navigation state restored by Back.
    pub return_to: ChannelNavigationSnapshot,
    /// The channel this one was opened from, restored by Back.
    pub outer: Option<Box<ChannelState>>,
}

/// `existing` followed by the tracks of `incoming` whose id is not already
/// present, in incoming order; the first occurrence of an id wins.
pub open spec fn appended_unique(existing: Seq<Track>, incoming: Seq<Track>) -> Seq<Track>
    decreases incoming.len(),
{
    if incoming.len() == 0 {
        existing
    } else {
        let before = appended_unique(existing, incoming.drop_last());
        if track_ids(before).contains(incoming.last().id@) {
            before
        } else {
            before.push(incoming.last())
        }
    }
}

/// No id occurs twice.
pub open spec fn unique_ids(tracks: Seq<Track>) -> bool {
    forall|i: int, j: int|
        0 <= i < j < tracks.len() ==> #[trigger] tracks[i].id@ != #[trigger] tracks[j].id@
}

/// The page number after one more loaded page.
pub open spec fn following_page(page: usize) -> usize {
    if page == usize::MAX {
        page
    } else {
        (page + 1) as usize
    }
}

impl ChannelState {
    /// Fresh browser state for the channel of `track`, nothing loaded yet.
    pub fn new(track: &Track, url: String, return_to: ChannelNavigationSnapshot) -> (state: ChannelState)
        ensures
            state.name == track.artist,
            state.url == url,
            state.tracks@.len() == 0,
            state.next_page == 0,
            !state.exhausted,
            !state.loading,
            state.error is None,
            state.return_to == return_to,
            state.outer is None,
    {
        ChannelState {
            name: track.artist.clone(),
            url,
            tracks: Vec::new(),
            next_page: 0,
            exhausted: false,
            loading: false,
            error: None,
            return_to,
            outer: None,
        }
    }

    /// Append one loaded page, skipping videos already listed, and advance to the next page.
    pub fn append(&mut self, page: ChannelPage)
        ensures
            final(self).tracks@ == appended_unique(old(self).tracks@, page.tracks@),
            final(self).exhausted == page.exhausted,
            final(self).next_page == following_page(old(self).next_page),
            !final(self).loading,
            final(self).error is None,
            final(self).name == old(self).name,
            final(self).url == old(self).url,
            final(self).return_to == old(self).return_to,
            final(self).outer == old(self).outer,
    {
        let mut i: usize = 0;
        while i < page.tracks.len()
            invariant
                i <= page.tracks@.len(),
                self.tracks@ == appended_unique(old(self).tracks@, page.tracks@.take(i as int)),
                self.name == old(self).name,
                self.url == old(self).url,
                self.return_to == old(self).return_to,
                self.outer == old(self).outer,
                self.next_page == old(self).next_page,
            decreases page.tracks@.len() - i,
        {
            let seen = tracks_contain_id(self.tracks.as_slice(), &page.tracks[i].id);
            proof {
                let next = page.tracks@.take(i + 1);
                assert(next.drop_last() == page.tracks@.take(i as int));
                assert(next.last() == page.tracks@[i as int]);
            }
            if !seen {
                self.tracks.push(page.tracks[i].duplicate());
            }
            i = i + 1;
        }
        assert(page.tracks@.take(page.tracks@.len() as int) == page.tracks@);
        self.exhausted = page.exhausted;
        self.next_page = self.next_page.saturating_add(1);
        self.loading = false;
        self.error = None;
    }
}

/// Apply a finished page request. A completion for another channel or
/// another page is stale and changes nothing. Returns whether it applied.
pub fn finish_channel_page(
    channel: &mut Option<ChannelState>,
    channel_url: &str,
    page: usize,
    result: Result<ChannelPage, String>,
) -> (applied: bool)
    ensures
        applied == (match *old(channel) {
            Some(state) => state.url@ == channel_url@ && state.next_page == page,
            None => false,
        }),
        !applied ==> *final(channel) == *old(channel),
        applied ==> (*final(channel) matches Some(after) && {
            let before = old(channel)->Some_0;
            &&& after.name == before.name
            &&& after.url == before.url
            &&& after.return_to == before.return_to
            &&& after.outer == before.outer
            &&& !after.loading
            &&& match result {
                Ok(loaded) => {
                    &&& after.tracks@ == appended_unique(before.tracks@, loaded.tracks@)
                    &&& after.exhausted == loaded.exhausted
                    &&& after.next_page == following_page(before.next_page)
                    &&& after.error is None
                },
                Err(message) => {
                    &&& after.tracks@ == before.tracks@
                    &&& after.exhausted == before.exhausted
                    &&& after.next_page == before.next_page
                    &&& after.error == Some(message)
                },
            }
        }),
{
    match channel {
        Some(state) => {
            let url = String::from_str(channel_url);
            if state.url != url || state.next_page != page {
                return false;
            }
            match result {
                Ok(loaded) => state.append(loaded),
                Err(message) => {
                    state.loading = false;
                    state.error = Some(message);
                },
            }
            true
        },
        None => false,
    }
}

/// The channel a browser was opened from, if any.
pub open spec fn outer_channel(state: ChannelState) -> Option<ChannelState> {
    match state.outer {
        Some(boxed) => Some(*boxed),
        None => None,
    }
}

/// What Back leaves open: the channel underneath the open one, if any.
pub open spec fn channel_after_back(channel: Option<ChannelState>) -> Option<ChannelState> {
    match channel {
        Some(state) => outer_channel(state),
        None => None,
    }
}

/// Leave the channel browser, returning the navigation it should restore.
/// A channel opened from another channel gives that channel back.
pub fn leave_channel(channel: &mut Option<ChannelState>) -> (restore: Option<ChannelNavigationSnapshot>)
    ensures
        *final(channel) == channel_after_back(*old(channel)),
        restore == (match *old(channel) {
            Some(state) => Some(state.return_to),
            None => None,
        }),
{
    match channel.take() {
        Some(state) => {
            let restore = state.return_to;
            *channel = match state.outer {
                Some(boxed) => Some(*boxed),
                None => None,
            };
            Some(restore)
        },
        None => None,
    }
}

/// Mark the open channel as loading its next page. Returns the channel URL
/// to request, or nothing when no channel is open or a page is already
/// loading or the channel is exhausted.
pub fn begin_channel_page(channel: &mut Option<ChannelState>) -> (request: Option<String>)
    ensures
        match *old(channel) {
            Some(state) => if state.loading || state.exhausted {
                request is None && *final(channel) == *old(channel)
            } else {
                &&& request == Some(state.url)
                &&& *final(channel) == Some(ChannelState { loading: true, error: None, ..state })
            },
            None => request is None && *final(channel) is None,
        },
{
    match channel {
        Some(state) => {
            if state.loading || state.exhausted {
                return None;
            }
            state.loading = true;
            state.error = None;
            Some(state.url.clone())
        },
        None => None,
    }
}

/// The channel left behind when another is opened over it: kept as it was,
/// except that its page request no longer counts as running.
pub open spec fn suspended(state: ChannelState) -> ChannelState {
    ChannelState { loading: false, ..state }
}

/// Open the channel browser for `track` at its videos `url`, remembering
/// where to return to. A channel already open is kept underneath, so that
/// Back returns to it.
pub fn open_channel(channel: &mut Option<ChannelState>, ui: &mut KeyUi, track: &Track, url: String)
    ensures
        *final(channel) matches Some(state) && state.name == track.artist && state.url == url
            && state.tracks@.len() == 0 && state.next_page == 0 && !state.exhausted && !state.loading
            && state.error is None && state.return_to == (ChannelNavigationSnapshot {
            view: old(ui).view,
            focus: old(ui).focus,
            selected_index: old(ui).selected_index,
        }) && outer_channel(state) == (match *old(channel) {
            Some(previous) => Some(suspended(previous)),
            None => None,
        }),
        *final(ui) == (KeyUi { view: AppView::Channel, focus: Focus::Content, selected_index: 0, ..*old(ui) }),
{
    let outer = match channel.take() {
        Some(mut previous) => {
            previous.loading = false;
            Some(Box::new(previous))
        },
        None => None,
    };
    let return_to = ChannelNavigationSnapshot { view: ui.view, focus: ui.focus, selected_index: ui.selected_index };
    let mut state = ChannelState::new(track, url, return_to);
    state.outer = outer;
    *channel = Some(state);
    ui.view = AppView::Channel;
    ui.focus = Focus::Content;
    ui.selected_index = 0;
}

/// Where a channel lookup leads.
pub enum ChannelLookup {
    /// Open the channel at this URL for this track.
    Open { track: Track, url: String },
    /// Tell the user why not.
    Unavailable(String),
}

/// Message for a track without a channel.
pub open spec fn channel_unavailable_message() -> Seq<char> {
    "Channel unavailable for this track"@
}

/// Resolve the result of looking up a track's channel.
pub fn finish_channel_resolve(result: Result<Track, String>) -> (lookup: ChannelLookup)
    ensures
        match result {
            Ok(track) => match track.channel_url {
                Some(url) => lookup matches ChannelLookup::Open { track: t, url: u } && t == track && u == url,
                None => lookup matches ChannelLookup::Unavailable(m) && m@ == channel_unavailable_message(),
            },
            Err(message) => lookup matches ChannelLookup::Unavailable(m) && m@ == "Channel lookup failed: "@
                + message@,
        },
{
    match result {
        Ok(track) => match &track.channel_url {
            Some(url) => {
                let url = url.clone();
                ChannelLookup::Open { track, url }
            },
            None => {
                proof {
                    reveal_strlit("Channel unavailable for this track");
                }
                ChannelLookup::Unavailable(String::from_str("Channel unavailable for this track"))
            },
        },
        Err(message) => {
            proof {
                reveal_strlit("Channel lookup failed: ");
            }
            ChannelLookup::Unavailable(String::from_str("Channel lookup failed: ").concat(message.as_str()))
        },
    }
}

/// Back from a channel opened over another gives the earlier channel back,
/// rows and page intact and no longer loading.
pub proof fn lemma_back_returns_to_the_channel_underneath(previous: Option<ChannelState>, opened: ChannelState)
    requires
        outer_channel(opened) == (match previous {
            Some(p) => Some(suspended(p)),
            None => None,
        }),
    ensures
        channel_after_back(Some(opened)) == (match previous {
            Some(p) => Some(ChannelState { loading: false, ..p }),
            None => None,
        }),
        previous matches Some(p) ==> channel_after_back(Some(opened)) matches Some(back) && back.url == p.url
            && back.tracks == p.tracks && back.next_page == p.next_page && back.return_to == p.return_to
            && !back.loading,
{
}

/// Appending keeps every existing row in place.
pub proof fn lemma_append_keeps_existing_rows(existing: Seq<Track>, incoming: Seq<Track>)
    ensures
        appended_unique(existing, incoming).len() >= existing.len(),
        appended_unique(existing, incoming).take(existing.len() as int) == existing,
    decreases incoming.len(),
{
    if incoming.len() > 0 {
        lemma_append_keeps_existing_rows(existing, incoming.drop_last());
        let before = appended_unique(existing, incoming.drop_last());
        assert(before.push(incoming.last()).take(existing.len() as int) == before.take(existing.len() as int));
    }
}

/// Appending pages never lists a video twice: duplicate-free rows stay duplicate-free.
pub proof fn lemma_append_stays_unique(existing: Seq<Track>, incoming: Seq<Track>)
    requires
        unique_ids(existing),
    ensures
        unique_ids(appended_unique(existing, incoming)),
    decreases incoming.len(),
{
    if incoming.len() > 0 {
        lemma_append_stays_unique(existing, incoming.drop_last());
        let before = appended_unique(existing, incoming.drop_last());
        let t = incoming.last();
        if !track_ids(before).contains(t.id@) {
            let after = before.push(t);
            assert forall|i: int, j: int| 0 <= i < j < after.len() implies #[trigger] after[i].id@
                != #[trigger] after[j].id@ by {
                if j == before.len() {
                    assert(track_ids(before)[i] == before[i].id@);
                }
            }
        }
    }
}

/// Every video of an appended page is listed afterwards.
pub proof fn lemma_append_lists_every_video(existing: Seq<Track>, incoming: Seq<Track>, k: int)
    requires
        0 <= k < incoming.len(),
    ensures
        track_ids(appended_unique(existing, incoming)).contains(incoming[k].id@),
    decreases incoming.len(),
{
    let before = appended_unique(existing, incoming.drop_last());
    if k < incoming.len() - 1 {
        lemma_append_lists_every_video(existing, incoming.drop_last(), k);
        assert(incoming.drop_last()[k] == incoming[k]);
        if !track_ids(before).contains(incoming.last().id@) {
            let after = before.push(incoming.last());
            let w = choose|w: int| 0 <= w < track_ids(before).len() && track_ids(before)[w] == incoming[k].id@;
            assert(track_ids(after)[w] == incoming[k].id@);
        }
    } else {
        if !track_ids(before).contains(incoming.last().id@) {
            let after = before.push(incoming.last());
            assert(track_ids(after)[before.len() as int] == incoming[k].id@);
        }
    }
}

} // verus!
