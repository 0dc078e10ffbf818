//! Shared track table: one column vocabulary (`TITLE / CHANNEL / LENGTH`),
//! marker language and width budget for every track list in the app.

use unicode_width::UnicodeWidthChar;
use unicode_width::UnicodeWidthStr;
use vstd::prelude::*;

use crate::media::{entry_ids, track_ids, Playlist};
use crate::mirror::DomainState;

verus! {

/// Width of the leading marker column (glyph + gap).
pub const MARKER_WIDTH: u16 = 2;
/// Width of the two-digit index column.
pub const INDEX_WIDTH: u16 = 3;
/// Inter-column spacing inserted between the five columns.
pub const COLUMN_SPACING: u16 = 4;
/// Cell reserved for the selection highlight symbol.
pub const HIGHLIGHT_WIDTH: u16 = 1;

/// Columns every table reserves before the trailing column.
pub open spec fn fixed_columns() -> int {
    MARKER_WIDTH + INDEX_WIDTH + COLUMN_SPACING + HIGHLIGHT_WIDTH
}

/// Cross-tab track state shown in the marker column.
#[derive(PartialEq, Eq, Structural, Clone, Copy, Debug)]
pub struct TrackFlags {
    pub playing: bool,
    pub queued: bool,
    pub in_playlist: bool,
}

/// Whether some playlist holds the id.
pub open spec fn in_some_playlist(playlists: Seq<Playlist>, id: Seq<char>) -> bool {
    exists|i: int| 0 <= i < playlists.len() && entry_ids(#[trigger] playlists[i].tracks@).contains(id)
}

/// Marker flags of a track id against the domain state.
pub open spec fn spec_track_flags<P, D, I>(domain: DomainState<P, D, I>, id: Seq<char>) -> TrackFlags {
    TrackFlags {
        playing: domain.current_track matches Some(current) && current.id@ == id,
        queued: track_ids(domain.queue.tracks@).contains(id),
        in_playlist: in_some_playlist(domain.playlists@, id),
    }
}

/// Resolve the marker flags for a track id against global state.
pub fn track_flags<P, D, I>(domain: &DomainState<P, D, I>, track_id: &str) -> (flags: TrackFlags)
    ensures
        flags == spec_track_flags(*domain, track_id@),
{
    let id = String::from_str(track_id);
    let playing = match &domain.current_track {
        Some(current) => current.id == id,
        None => false,
    };
    let queued = crate::media::tracks_contain_id(domain.queue.tracks.as_slice(), &id);
    let mut in_playlist = false;
    let mut i: usize = 0;
    while i < domain.playlists.len()
        invariant
            i <= domain.playlists@.len(),
            id@ == track_id@,
            in_playlist == (exists|k: int| 0 <= k < i && entry_ids(#[trigger] domain.playlists@[k].tracks@).contains(id@)),
        decreases domain.playlists@.len() - i,
    {
        if crate::media::entries_contain_id(domain.playlists[i].tracks.as_slice(), &id) {
            in_playlist = true;
        }
        i = i + 1;
    }
    TrackFlags { playing, queued, in_playlist }
}

/// Which marker a row shows.
#[derive(PartialEq, Eq, Structural, Clone, Copy, Debug)]
pub enum Marker {
    Playing,
    Queued,
    InPlaylist,
    Blank,
}

/// The marker for a row: playing, then queued, then in a playlist.
pub fn marker(flags: TrackFlags) -> (shown: Marker)
    ensures
        shown == (if flags.playing {
            Marker::Playing
        } else if flags.queued {
            Marker::Queued
        } else if flags.in_playlist {
            Marker::InPlaylist
        } else {
            Marker::Blank
        }),
{
    if flags.playing {
        Marker::Playing
    } else if flags.queued {
        Marker::Queued
    } else if flags.in_playlist {
        Marker::InPlaylist
    } else {
        Marker::Blank
    }
}

/// One row of the shared track table.
pub struct TrackRow {
    pub index: usize,
    pub title: String,
    pub channel: String,
    pub right: String,
    pub flags: TrackFlags,
}

/// Column budget for one table instance, derived from the pane width.
#[derive(PartialEq, Eq, Structural, Clone, Copy, Debug)]
pub struct TrackTableLayout {
    title_width: u16,
    channel_width: u16,
    right_width: u16,
}

/// Columns left for title and channel in a pane of `width` cells.
pub open spec fn flexible_width(width: u16, right_width: u16) -> int {
    if width > fixed_columns() + right_width {
        width - (fixed_columns() + right_width)
    } else {
        0
    }
}

impl TrackTableLayout {
    pub closed spec fn spec_title_width(self) -> u16 {
        self.title_width
    }

    pub closed spec fn spec_channel_width(self) -> u16 {
        self.channel_width
    }

    pub closed spec fn spec_right_width(self) -> u16 {
        self.right_width
    }

    /// Split `width` into the five standard columns; `right_width` sizes the
    /// trailing column (8 fits `LENGTH`, wider fits history statistics).
    /// The title takes three fifths of what the fixed columns leave.
    pub fn new(width: u16, right_width: u16) -> (layout: TrackTableLayout)
        requires
            fixed_columns() + right_width <= u16::MAX,
            flexible_width(width, right_width) * 3 <= u16::MAX,
        ensures
            layout.spec_title_width() == flexible_width(width, right_width) * 3 / 5,
            layout.spec_channel_width() == flexible_width(width, right_width) - flexible_width(width, right_width) * 3 / 5,
            layout.spec_right_width() == right_width,
    {
        let fixed = MARKER_WIDTH + INDEX_WIDTH + COLUMN_SPACING + HIGHLIGHT_WIDTH + right_width;
        let flexible = width.saturating_sub(fixed);
        assert(flexible * 3 / 5 <= flexible) by (nonlinear_arith)
            requires flexible * 3 <= u16::MAX;
        let title_width = flexible * 3 / 5;
        TrackTableLayout { title_width, channel_width: flexible.saturating_sub(title_width), right_width }
    }

    /// Title column width.
    pub fn title_width(&self) -> (width: u16)
        ensures
            width == self.spec_title_width(),
    {
        self.title_width
    }

    /// Channel column width.
    pub fn channel_width(&self) -> (width: u16)
        ensures
            width == self.spec_channel_width(),
    {
        self.channel_width
    }

    /// Trailing column width.
    pub fn right_width(&self) -> (width: u16)
        ensures
            width == self.spec_right_width(),
    {
        self.right_width
    }

    /// Widths of the marker, index, title, channel and trailing columns.
    pub fn column_widths(&self) -> (widths: [u16; 5])
        ensures
            widths@ == seq![
                MARKER_WIDTH,
                INDEX_WIDTH,
                self.spec_title_width(),
                self.spec_channel_width(),
                self.spec_right_width(),
            ],
    {
        [MARKER_WIDTH, INDEX_WIDTH, self.title_width, self.channel_width, self.right_width]
    }
}

/// The layout reserves the fixed columns and the trailing column and splits
/// exactly the rest between title and channel; the title gets the larger
/// share except when one or three cells are left.
pub proof fn lemma_layout_splits_the_rest(width: u16, right_width: u16)
    requires
        fixed_columns() + right_width <= u16::MAX,
        flexible_width(width, right_width) * 3 <= u16::MAX,
    ensures
        ({
            let flexible = flexible_width(width, right_width);
            let title = flexible * 3 / 5;
            let channel = flexible - title;
            &&& title + channel == flexible
            &&& (flexible != 1 && flexible != 3 ==> title >= channel)
            &&& (flexible >= 11 ==> title > channel)
        }),
{
    let flexible = flexible_width(width, right_width);
    assert(flexible != 1 && flexible != 3 && flexible >= 0 ==> 2 * (flexible * 3 / 5) >= flexible) by (nonlinear_arith);
    assert(flexible >= 11 ==> 2 * (flexible * 3 / 5) > flexible) by (nonlinear_arith);
}

/// Display width of a string in terminal cells.
pub uninterp spec fn str_display_width(text: Seq<char>) -> usize;

/// Display width of a character in terminal cells; `None` for control characters.
pub uninterp spec fn char_display_width(c: char) -> Option<usize>;

/// Terminal cells of `text` measured by `UnicodeWidthStr::width` of the
/// unicode-width crate. The contract only names the result: the crate's
/// table-driven rules (emoji sequences, combining marks) are not restated.
#[verifier::external_body]
fn text_width(text: &str) -> (width: usize)
    ensures
        width == str_display_width(text@),
{
    UnicodeWidthStr::width(text)
}

/// Terminal cells of one character measured by `UnicodeWidthChar::width` of
/// the unicode-width crate (`None` for control characters). Only the name of
/// the result is stated.
#[verifier::external_body]
fn char_width(c: char) -> (width: Option<usize>)
    ensures
        width == char_display_width(c),
{
    UnicodeWidthChar::width(c)
}

/// Cells a character occupies when drawn; control characters occupy none.
pub open spec fn char_cells(c: char) -> nat {
    match char_display_width(c) {
        Some(width) => width as nat,
        None => 0,
    }
}

/// Cells a sequence of characters occupies, character by character.
pub open spec fn cells(text: Seq<char>) -> nat
    decreases text.len(),
{
    if text.len() == 0 {
        0
    } else {
        cells(text.drop_last()) + char_cells(text.last())
    }
}

/// Length of the longest prefix of `text` that fits in `budget` cells.
pub open spec fn fitting_prefix_len(text: Seq<char>, budget: nat) -> nat {
    choose|k: nat| k <= text.len() && #[trigger] cells(text.take(k as int)) <= budget && (k == text.len() || cells(
        text.take(k as int + 1),
    ) > budget)
}

/// `text` cut to its longest prefix that fits in `width - 1` cells, followed
/// by an ellipsis; empty when there is no room at all.
pub open spec fn spec_truncate_end(text: Seq<char>, width: nat) -> Seq<char> {
    if width == 0 {
        Seq::empty()
    } else {
        text.take(fitting_prefix_len(text, (width - 1) as nat) as int) + "…"@
    }
}

/// Cut `text` so that it fits in `width` cells, marking the cut with an ellipsis.
pub fn truncate_end(text: &str, width: usize) -> (cut: String)
    ensures
        cut@ == spec_truncate_end(text@, width as nat),
{
    if width == 0 {
        return String::new();
    }
    let budget = width - 1;
    let n = text.unicode_len();
    let mut used: usize = 0;
    let mut i: usize = 0;
    while i < n
        invariant
            n == text@.len(),
            i <= n,
            used as nat == cells(text@.take(i as int)),
            used <= budget,
        ensures
            i <= n,
            used as nat == cells(text@.take(i as int)),
            used <= budget,
            i == n || cells(text@.take(i + 1)) > budget,
        decreases n - i,
    {
        let c = text.get_char(i);
        let w = match char_width(c) {
            Some(w) => w,
            None => 0,
        };
        proof {
            assert(text@.take(i + 1).drop_last() == text@.take(i as int));
            assert(text@.take(i + 1).last() == c);
        }
        if w > budget - used {
            break;
        }
        used = used + w;
        i = i + 1;
    }
    proof {
        let k = i as nat;
        assert(k <= text@.len() && cells(text@.take(k as int)) <= budget as nat && (k == text@.len()
            || cells(text@.take(k as int + 1)) > budget as nat));
        lemma_fitting_prefix_unique(text@, budget as nat, k);
    }
    let prefix = text.substring_char(0, i);
    String::from_str(prefix).concat("…")
}

/// Cells never shrink as a prefix grows.
proof fn lemma_cells_monotone(text: Seq<char>, a: int, b: int)
    requires
        0 <= a <= b <= text.len(),
    ensures
        cells(text.take(a)) <= cells(text.take(b)),
    decreases b - a,
{
    if a < b {
        lemma_cells_monotone(text, a, b - 1);
        assert(text.take(b).drop_last() == text.take(b - 1));
    }
}

/// The longest fitting prefix is unique.
proof fn lemma_fitting_prefix_unique(text: Seq<char>, budget: nat, k: nat)
    requires
        k <= text.len(),
        cells(text.take(k as int)) <= budget,
        k == text.len() || cells(text.take(k as int + 1)) > budget,
    ensures
        fitting_prefix_len(text, budget) == k,
{
    let j = fitting_prefix_len(text, budget);
    assert(j <= text.len() && cells(text.take(j as int)) <= budget && (j == text.len() || cells(text.take(j as int + 1)) > budget));
    if j < k {
        lemma_cells_monotone(text, j as int + 1, k as int);
    } else if k < j {
        lemma_cells_monotone(text, k as int + 1, j as int);
    }
}

/// `text` when it fits in `width` cells, else its ellipsis-truncated form.
pub open spec fn spec_ellipsized(text: Seq<char>, width: u16) -> Seq<char> {
    if str_display_width(text) <= width {
        text
    } else {
        spec_truncate_end(text, width as nat)
    }
}

/// Fit a cell's text into its column.
pub fn ellipsized(text: &str, width: u16) -> (shown: String)
    ensures
        shown@ == spec_ellipsized(text@, width),
{
    if text_width(text) <= width as usize {
        String::from_str(text)
    } else {
        truncate_end(text, width as usize)
    }
}

/// A truncated cell fits its column, measured character by character.
pub proof fn lemma_truncation_fits(text: Seq<char>, width: nat)
    requires
        width > 0,
    ensures
        spec_truncate_end(text, width).len() <= text.len() + 1,
        cells(spec_truncate_end(text, width).drop_last()) <= width - 1,
{
    let budget = (width - 1) as nat;
    let k = fitting_prefix_len(text, budget);
    assert(exists|j: nat| j <= text.len() && #[trigger] cells(text.take(j as int)) <= budget && (j == text.len() || cells(text.take(j as int + 1)) > budget)) by {
        lemma_fitting_prefix_exists(text, budget, 0);
    }
    let r = spec_truncate_end(text, width);
    reveal_strlit("…");
    assert(r.drop_last() == text.take(k as int));
}

/// Some prefix length is the longest fitting one.
proof fn lemma_fitting_prefix_exists(text: Seq<char>, budget: nat, start: nat)
    requires
        start <= text.len(),
        cells(text.take(start as int)) <= budget,
    ensures
        exists|j: nat| j <= text.len() && #[trigger] cells(text.take(j as int)) <= budget && (j == text.len() || cells(text.take(j as int + 1)) > budget),
    decreases text.len() - start,
{
    if start < text.len() && cells(text.take(start as int + 1)) <= budget {
        lemma_fitting_prefix_exists(text, budget, start + 1);
    } else {
        assert(start <= text.len() && cells(text.take(start as int)) <= budget && (start == text.len() || cells(text.take(start as int + 1)) > budget));
    }
}

/// The row markers of a track id: playing exactly when the current track has
/// that id, queued exactly when some queued track has it, and in a playlist
/// exactly when some stored playlist, at any position in the list, lists an
/// entry with it.
pub proof fn lemma_track_flags_find_the_id_anywhere<P, D, I>(domain: DomainState<P, D, I>, id: Seq<char>)
    ensures
        spec_track_flags(domain, id).in_playlist <==> exists|i: int, k: int|
            0 <= i < domain.playlists@.len() && 0 <= k < domain.playlists@[i].tracks@.len()
                && #[trigger] domain.playlists@[i].tracks@[k].id@ == id,
        spec_track_flags(domain, id).queued <==> exists|k: int|
            0 <= k < domain.queue.tracks@.len() && #[trigger] domain.queue.tracks@[k].id@ == id,
        spec_track_flags(domain, id).playing <==> (domain.current_track is Some
            && domain.current_track->Some_0.id@ == id),
{
    let playlists = domain.playlists@;
    if spec_track_flags(domain, id).in_playlist {
        let i = choose|i: int| 0 <= i < playlists.len() && entry_ids(#[trigger] playlists[i].tracks@).contains(id);
        let ids = entry_ids(playlists[i].tracks@);
        let k = choose|k: int| 0 <= k < ids.len() && ids[k] == id;
        assert(playlists[i].tracks@[k].id@ == id);
    }
    if exists|i: int, k: int|
        0 <= i < playlists.len() && 0 <= k < playlists[i].tracks@.len() && #[trigger] playlists[i].tracks@[k].id@ == id {
        let (i, k) = choose|i: int, k: int|
            0 <= i < playlists.len() && 0 <= k < playlists[i].tracks@.len() && #[trigger] playlists[i].tracks@[k].id@
                == id;
        assert(entry_ids(playlists[i].tracks@)[k] == id);
        assert(entry_ids(playlists[i].tracks@).contains(id));
    }
    let tracks = domain.queue.tracks@;
    if track_ids(tracks).contains(id) {
        let k = choose|k: int| 0 <= k < track_ids(tracks).len() && track_ids(tracks)[k] == id;
        assert(tracks[k].id@ == id);
    }
    if exists|k: int| 0 <= k < tracks.len() && #[trigger] tracks[k].id@ == id {
        let k = choose|k: int| 0 <= k < tracks.len() && #[trigger] tracks[k].id@ == id;
        assert(track_ids(tracks)[k] == id);
    }
}

} // verus!
