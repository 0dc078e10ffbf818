//! Imported playlist refresh: diff a local playlist against freshly fetched
//! remote tracks and apply the result under a strategy. Matching is by video id.

use vstd::prelude::*;

use crate::media::{
    entries_contain_id, entry_ids, playlist_entry, track_ids, tracks_contain_id, Playlist,
    PlaylistTrack, Track,
};

verus! {

broadcast use vstd::seq_lib::group_seq_properties;

/// How a refresh should be applied.
#[derive(PartialEq, Eq, Structural, Clone, Copy, Debug)]
pub enum RefreshStrategy {
    /// Show the diff; apply nothing yet.
    Preview,
    /// Only append newly discovered tracks.
    AddNewOnly,
    /// Make the local playlist hold exactly the remote videos.
    Mirror,
}

impl RefreshStrategy {
    /// The default strategy previews changes before applying them.
    pub fn default_strategy() -> (strategy: RefreshStrategy)
        ensures
            strategy == RefreshStrategy::Preview,
    {
        RefreshStrategy::Preview
    }
}

/// Difference between a local playlist and freshly fetched remote tracks.
pub struct RefreshDiff {
    /// Present remotely but not locally, in remote order.
    pub added: Vec<Track>,
    /// Ids present locally but no longer on the remote playlist, in local order.
    pub removed: Vec<String>,
    /// Number of local entries still present remotely; their local metadata is kept.
    pub kept: usize,
}

/// Remote tracks whose id the local playlist does not hold.
pub open spec fn is_new_remote(local: Seq<PlaylistTrack>) -> spec_fn(Track) -> bool {
    |track: Track| !entry_ids(local).contains(track.id@)
}

/// Local entries whose id the remote list still holds.
pub open spec fn still_remote(remote: Seq<Track>) -> spec_fn(PlaylistTrack) -> bool {
    |entry: PlaylistTrack| track_ids(remote).contains(entry.id@)
}

/// Local entries whose id the remote list no longer holds.
pub open spec fn gone_remote(remote: Seq<Track>) -> spec_fn(PlaylistTrack) -> bool {
    |entry: PlaylistTrack| !track_ids(remote).contains(entry.id@)
}

/// The tracks a diff reports as added.
pub open spec fn spec_added(local: Seq<PlaylistTrack>, remote: Seq<Track>) -> Seq<Track> {
    remote.filter(is_new_remote(local))
}

/// The ids a diff reports as removed.
pub open spec fn spec_removed(local: Seq<PlaylistTrack>, remote: Seq<Track>) -> Seq<String> {
    local.filter(gone_remote(remote)).map_values(|entry: PlaylistTrack| entry.id)
}

/// The count a diff reports as kept.
pub open spec fn spec_kept(local: Seq<PlaylistTrack>, remote: Seq<Track>) -> nat {
    local.filter(still_remote(remote)).len()
}

/// Views of a list of ids.
pub open spec fn string_views(ids: Seq<String>) -> Seq<Seq<char>> {
    ids.map_values(|id: String| id@)
}

/// Local entries kept by the mirror strategy: those whose id is not removed.
pub open spec fn not_removed(removed: Seq<String>) -> spec_fn(PlaylistTrack) -> bool {
    |entry: PlaylistTrack| !string_views(removed).contains(entry.id@)
}

/// Playlist entries recorded for the added tracks.
pub open spec fn added_entries(added: Seq<Track>) -> Seq<PlaylistTrack> {
    added.map_values(|track: Track| playlist_entry(track))
}

/// Entries of a playlist after applying a diff with a strategy.
pub open spec fn spec_applied(
    tracks: Seq<PlaylistTrack>,
    added: Seq<Track>,
    removed: Seq<String>,
    strategy: RefreshStrategy,
) -> Seq<PlaylistTrack> {
    match strategy {
        RefreshStrategy::Preview => tracks,
        RefreshStrategy::AddNewOnly => tracks + added_entries(added),
        RefreshStrategy::Mirror => tracks.filter(not_removed(removed)) + added_entries(added),
    }
}

/// Compute the diff between local `playlist` and remote `tracks`.
pub fn diff(playlist: &Playlist, remote: &[Track]) -> (result: RefreshDiff)
    ensures
        result.added@ == spec_added(playlist.tracks@, remote@),
        result.removed@ == spec_removed(playlist.tracks@, remote@),
        result.kept as nat == spec_kept(playlist.tracks@, remote@),
{
    let local = playlist.tracks.as_slice();
    let ghost added_pred = is_new_remote(local@);
    let ghost gone_pred = gone_remote(remote@);
    let ghost kept_pred = still_remote(remote@);

    let mut added: Vec<Track> = Vec::new();
    let mut i: usize = 0;
    while i < remote.len()
        invariant
            i <= remote@.len(),
            local@ == playlist.tracks@,
            added_pred == is_new_remote(local@),
            added@ == remote@.take(i as int).filter(added_pred),
        decreases remote@.len() - i,
    {
        let present = entries_contain_id(local, &remote[i].id);
        proof {
            remote@.take(i as int).lemma_filter_push(remote@[i as int], added_pred);
            assert(remote@.take(i + 1) == remote@.take(i as int).push(remote@[i as int]));
        }
        if !present {
            added.push(remote[i].duplicate());
        }
        i = i + 1;
    }
    assert(remote@.take(remote@.len() as int) == remote@);

    let mut removed: Vec<String> = Vec::new();
    let mut kept: usize = 0;
    let mut j: usize = 0;
    while j < local.len()
        invariant
            j <= local@.len(),
            local@ == playlist.tracks@,
            gone_pred == gone_remote(remote@),
            kept_pred == still_remote(remote@),
            removed@ == local@.take(j as int).filter(gone_pred).map_values(
                |entry: PlaylistTrack| entry.id,
            ),
            kept as nat == local@.take(j as int).filter(kept_pred).len(),
            kept <= j,
        decreases local@.len() - j,
    {
        let present = tracks_contain_id(remote, &local[j].id);
        proof {
            let prefix = local@.take(j as int);
            let entry = local@[j as int];
            prefix.lemma_filter_push(entry, gone_pred);
            prefix.lemma_filter_push(entry, kept_pred);
            assert(local@.take(j + 1) == prefix.push(entry));
            prefix.filter(gone_pred).lemma_push_map_commute(
                |entry: PlaylistTrack| entry.id,
                entry,
            );
        }
        if present {
            kept = kept + 1;
        } else {
            removed.push(local[j].id.clone());
        }
        j = j + 1;
    }
    assert(local@.take(local@.len() as int) == local@);
    RefreshDiff { added, removed, kept }
}

/// Whether a list of ids holds the id.
fn ids_contain(ids: &Vec<String>, id: &String) -> (found: bool)
    ensures
        found == string_views(ids@).contains(id@),
{
    let mut i: usize = 0;
    while i < ids.len()
        invariant
            i <= ids@.len(),
            forall|k: int| 0 <= k < i ==> ids@[k]@ != id@,
        decreases ids@.len() - i,
    {
        if ids[i] == *id {
            assert(string_views(ids@)[i as int] == id@);
            return true;
        }
        i = i + 1;
    }
    assert(!string_views(ids@).contains(id@)) by {
        if string_views(ids@).contains(id@) {
            let k = choose|k: int| 0 <= k < string_views(ids@).len() && string_views(ids@)[k] == id@;
            assert(ids@[k]@ == id@);
        }
    }
    false
}

/// Apply `diff_result` to `playlist` according to `strategy`.
/// Returns the number of removed tracks (for confirmation messaging).
pub fn apply(playlist: &mut Playlist, diff_result: RefreshDiff, strategy: RefreshStrategy) -> (removed_count: usize)
    ensures
        final(playlist).tracks@ == spec_applied(
            old(playlist).tracks@,
            diff_result.added@,
            diff_result.removed@,
            strategy,
        ),
        final(playlist).id == old(playlist).id,
        final(playlist).name == old(playlist).name,
        final(playlist).description == old(playlist).description,
        final(playlist).updated_at == old(playlist).updated_at,
        removed_count == (if strategy == RefreshStrategy::Mirror {
            diff_result.removed@.len()
        } else {
            0
        }),
{
    let mut added: Vec<PlaylistTrack> = Vec::new();
    let mut i: usize = 0;
    while i < diff_result.added.len()
        invariant
            i <= diff_result.added@.len(),
            added@ == added_entries(diff_result.added@.take(i as int)),
        decreases diff_result.added@.len() - i,
    {
        added.push(PlaylistTrack::from_track(&diff_result.added[i]));
        proof {
            let prefix = diff_result.added@.take(i as int);
            assert(diff_result.added@.take(i + 1) == prefix.push(diff_result.added@[i as int]));
            prefix.lemma_push_map_commute(|track: Track| playlist_entry(track), diff_result.added@[i as int]);
        }
        i = i + 1;
    }
    assert(diff_result.added@.take(diff_result.added@.len() as int) == diff_result.added@);
    let removed_count = diff_result.removed.len();

    match strategy {
        RefreshStrategy::Preview => 0,
        RefreshStrategy::AddNewOnly => {
            append_entries(&mut playlist.tracks, added);
            0
        },
        RefreshStrategy::Mirror => {
            let ghost keep = not_removed(diff_result.removed@);
            let mut retained: Vec<PlaylistTrack> = Vec::new();
            let mut j: usize = 0;
            while j < playlist.tracks.len()
                invariant
                    j <= playlist.tracks@.len(),
                    playlist.tracks@ == old(playlist).tracks@,
                    keep == not_removed(diff_result.removed@),
                    retained@ == playlist.tracks@.take(j as int).filter(keep),
                decreases playlist.tracks@.len() - j,
            {
                let drop = ids_contain(&diff_result.removed, &playlist.tracks[j].id);
                proof {
                    let prefix = playlist.tracks@.take(j as int);
                    prefix.lemma_filter_push(playlist.tracks@[j as int], keep);
                    assert(playlist.tracks@.take(j + 1) == prefix.push(playlist.tracks@[j as int]));
                }
                if !drop {
                    retained.push(playlist.tracks[j].duplicate());
                }
                j = j + 1;
            }
            assert(playlist.tracks@.take(playlist.tracks@.len() as int) == playlist.tracks@);
            append_entries(&mut retained, added);
            playlist.tracks = retained;
            removed_count
        },
    }
}

/// Append `extra` to the end of `entries`.
fn append_entries(entries: &mut Vec<PlaylistTrack>, extra: Vec<PlaylistTrack>)
    ensures
        final(entries)@ == old(entries)@ + extra@,
{
    let mut i: usize = 0;
    while i < extra.len()
        invariant
            i <= extra@.len(),
            entries@ == old(entries)@ + extra@.take(i as int),
        decreases extra@.len() - i,
    {
        entries.push(extra[i].duplicate());
        assert(extra@.take(i + 1) == extra@.take(i as int).push(extra@[i as int]));
        i = i + 1;
    }
    assert(extra@.take(extra@.len() as int) == extra@);
}

/// Filtering then projecting ids finds exactly the ids of entries meeting the predicate.
proof fn lemma_filtered_entry_ids(s: Seq<PlaylistTrack>, pred: spec_fn(PlaylistTrack) -> bool, x: Seq<char>)
    ensures
        entry_ids(s.filter(pred)).contains(x) <==> exists|i: int|
            0 <= i < s.len() && #[trigger] pred(s[i]) && s[i].id@ == x,
{
    broadcast use vstd::seq_lib::group_filter_ensures;
    let f = s.filter(pred);
    if entry_ids(f).contains(x) {
        let k = choose|k: int| 0 <= k < entry_ids(f).len() && entry_ids(f)[k] == x;
        assert(f.contains(f[k]));
        s.lemma_filter_contains_rev(pred, f[k]);
        let i = choose|i: int| 0 <= i < s.len() && s[i] == f[k];
        assert(pred(s[i]) && s[i].id@ == x);
    }
    if exists|i: int| 0 <= i < s.len() && #[trigger] pred(s[i]) && s[i].id@ == x {
        let i = choose|i: int| 0 <= i < s.len() && #[trigger] pred(s[i]) && s[i].id@ == x;
        s.lemma_filter_contains(pred, i);
        let k = choose|k: int| 0 <= k < f.len() && f[k] == s[i];
        assert(entry_ids(f)[k] == x);
    }
}

/// Filtering then projecting ids finds exactly the ids of tracks meeting the predicate.
proof fn lemma_filtered_track_ids(s: Seq<Track>, pred: spec_fn(Track) -> bool, x: Seq<char>)
    ensures
        track_ids(s.filter(pred)).contains(x) <==> exists|i: int|
            0 <= i < s.len() && #[trigger] pred(s[i]) && s[i].id@ == x,
{
    broadcast use vstd::seq_lib::group_filter_ensures;
    let f = s.filter(pred);
    if track_ids(f).contains(x) {
        let k = choose|k: int| 0 <= k < track_ids(f).len() && track_ids(f)[k] == x;
        assert(f.contains(f[k]));
        s.lemma_filter_contains_rev(pred, f[k]);
        let i = choose|i: int| 0 <= i < s.len() && s[i] == f[k];
        assert(pred(s[i]) && s[i].id@ == x);
    }
    if exists|i: int| 0 <= i < s.len() && #[trigger] pred(s[i]) && s[i].id@ == x {
        let i = choose|i: int| 0 <= i < s.len() && #[trigger] pred(s[i]) && s[i].id@ == x;
        s.lemma_filter_contains(pred, i);
        let k = choose|k: int| 0 <= k < f.len() && f[k] == s[i];
        assert(track_ids(f)[k] == x);
    }
}

/// Ids of concatenated entry lists are found in one of the parts.
proof fn lemma_entry_ids_concat(a: Seq<PlaylistTrack>, b: Seq<PlaylistTrack>, x: Seq<char>)
    ensures
        entry_ids(a + b).contains(x) <==> entry_ids(a).contains(x) || entry_ids(b).contains(x),
{
    assert(entry_ids(a + b) =~= entry_ids(a) + entry_ids(b));
    let ia = entry_ids(a);
    let ib = entry_ids(b);
    if (ia + ib).contains(x) {
        let k = choose|k: int| 0 <= k < (ia + ib).len() && (ia + ib)[k] == x;
        if k < ia.len() {
            assert(ia[k] == x);
        } else {
            assert(ib[k - ia.len()] == x);
        }
    }
    if ia.contains(x) {
        let k = choose|k: int| 0 <= k < ia.len() && ia[k] == x;
        assert((ia + ib)[k] == x);
    }
    if ib.contains(x) {
        let k = choose|k: int| 0 <= k < ib.len() && ib[k] == x;
        assert((ia + ib)[k + ia.len()] == x);
    }
}

/// Recording tracks as entries keeps their ids.
proof fn lemma_added_entry_ids(added: Seq<Track>)
    ensures
        entry_ids(added_entries(added)) == track_ids(added),
{
    assert(entry_ids(added_entries(added)) =~= track_ids(added));
}

/// Ids found in a sequence of entries are exactly those of its members.
proof fn lemma_entry_ids_contains(s: Seq<PlaylistTrack>, x: Seq<char>)
    ensures
        entry_ids(s).contains(x) <==> exists|i: int| 0 <= i < s.len() && #[trigger] s[i].id@ == x,
{
    if entry_ids(s).contains(x) {
        let k = choose|k: int| 0 <= k < entry_ids(s).len() && entry_ids(s)[k] == x;
        assert(s[k].id@ == x);
    }
    if exists|i: int| 0 <= i < s.len() && #[trigger] s[i].id@ == x {
        let i = choose|i: int| 0 <= i < s.len() && #[trigger] s[i].id@ == x;
        assert(entry_ids(s)[i] == x);
    }
}

/// A removed id belongs to exactly the local entries that left the remote list.
proof fn lemma_removed_ids(local: Seq<PlaylistTrack>, remote: Seq<Track>, x: Seq<char>)
    ensures
        string_views(spec_removed(local, remote)).contains(x) <==> (entry_ids(local).contains(x)
            && !track_ids(remote).contains(x)),
{
    let gone = gone_remote(remote);
    assert(string_views(spec_removed(local, remote)) =~= entry_ids(local.filter(gone)));
    lemma_filtered_entry_ids(local, gone, x);
    lemma_entry_ids_contains(local, x);
    if entry_ids(local).contains(x) && !track_ids(remote).contains(x) {
        let i = choose|i: int| 0 <= i < local.len() && #[trigger] local[i].id@ == x;
        assert(gone(local[i]));
    }
}

/// Diffing partitions the local playlist: every entry is either kept or removed.
pub proof fn lemma_diff_partitions_local(local: Seq<PlaylistTrack>, remote: Seq<Track>)
    ensures
        spec_kept(local, remote) + spec_removed(local, remote).len() == local.len(),
    decreases local.len(),
{
    reveal(Seq::filter);
    if local.len() > 0 {
        let rest = local.drop_last();
        lemma_diff_partitions_local(rest, remote);
    }
}

/// Newly added tracks are exactly the remote tracks whose id the playlist lacks.
pub proof fn lemma_added_are_new(local: Seq<PlaylistTrack>, remote: Seq<Track>, x: Seq<char>)
    ensures
        track_ids(spec_added(local, remote)).contains(x) <==> (track_ids(remote).contains(x)
            && !entry_ids(local).contains(x)),
{
    lemma_filtered_track_ids(remote, is_new_remote(local), x);
    if track_ids(spec_added(local, remote)).contains(x) {
        let i = choose|i: int|
            0 <= i < remote.len() && #[trigger] is_new_remote(local)(remote[i]) && remote[i].id@ == x;
        assert(track_ids(remote)[i] == x);
    }
    if track_ids(remote).contains(x) {
        let k = choose|k: int| 0 <= k < track_ids(remote).len() && track_ids(remote)[k] == x;
        assert(remote[k].id@ == x);
        if !entry_ids(local).contains(x) {
            assert(is_new_remote(local)(remote[k]));
        }
    }
}

/// After diffing a playlist against remote tracks and applying the diff with the
/// mirror strategy, the playlist holds exactly the remote videos: an id is in
/// the playlist if and only if it is in the remote list.
pub proof fn lemma_mirror_matches_remote(local: Seq<PlaylistTrack>, remote: Seq<Track>, x: Seq<char>)
    ensures
        entry_ids(
            spec_applied(
                local,
                spec_added(local, remote),
                spec_removed(local, remote),
                RefreshStrategy::Mirror,
            ),
        ).contains(x) <==> track_ids(remote).contains(x),
{
    let removed = spec_removed(local, remote);
    let keep = not_removed(removed);
    let kept = local.filter(keep);
    let added = spec_added(local, remote);
    lemma_entry_ids_concat(kept, added_entries(added), x);
    lemma_added_entry_ids(added);
    lemma_added_are_new(local, remote, x);
    lemma_filtered_entry_ids(local, keep, x);
    lemma_entry_ids_contains(local, x);
    if exists|i: int| 0 <= i < local.len() && #[trigger] keep(local[i]) && local[i].id@ == x {
        let i = choose|i: int| 0 <= i < local.len() && #[trigger] keep(local[i]) && local[i].id@ == x;
        lemma_removed_ids(local, remote, x);
    }
    if track_ids(remote).contains(x) && entry_ids(local).contains(x) {
        let i = choose|i: int| 0 <= i < local.len() && #[trigger] local[i].id@ == x;
        lemma_removed_ids(local, remote, x);
        assert(keep(local[i]));
    }
}

/// Adding only new tracks yields the union of local and remote ids.
pub proof fn lemma_add_new_only_unions(local: Seq<PlaylistTrack>, remote: Seq<Track>, x: Seq<char>)
    ensures
        entry_ids(
            spec_applied(
                local,
                spec_added(local, remote),
                spec_removed(local, remote),
                RefreshStrategy::AddNewOnly,
            ),
        ).contains(x) <==> (entry_ids(local).contains(x) || track_ids(remote).contains(x)),
{
    let added = spec_added(local, remote);
    lemma_entry_ids_concat(local, added_entries(added), x);
    lemma_added_entry_ids(added);
    lemma_added_are_new(local, remote, x);
}

/// Adding only new tracks never introduces a second entry for an id the
/// playlist already held, and keeps every existing entry in place.
pub proof fn lemma_add_new_only_keeps_local(local: Seq<PlaylistTrack>, remote: Seq<Track>)
    ensures
        spec_applied(
            local,
            spec_added(local, remote),
            spec_removed(local, remote),
            RefreshStrategy::AddNewOnly,
        ).take(local.len() as int) == local,
        forall|x: Seq<char>|
            #![trigger entry_ids(local).contains(x)]
            entry_ids(local).contains(x) ==> !track_ids(spec_added(local, remote)).contains(x),
{
    let r = spec_applied(local, spec_added(local, remote), spec_removed(local, remote), RefreshStrategy::AddNewOnly);
    assert(r.take(local.len() as int) =~= local);
    assert forall|x: Seq<char>|
        #![trigger entry_ids(local).contains(x)]
        entry_ids(local).contains(x) implies !track_ids(spec_added(local, remote)).contains(x) by {
        lemma_added_are_new(local, remote, x);
    }
}

/// A filter keeps nothing when the predicate holds of no member.
proof fn lemma_filter_keeps_nothing<A>(s: Seq<A>, pred: spec_fn(A) -> bool)
    requires
        forall|i: int| 0 <= i < s.len() ==> !pred(#[trigger] s[i]),
    ensures
        s.filter(pred).len() == 0,
{
    broadcast use vstd::seq_lib::group_filter_ensures;
    let f = s.filter(pred);
    if f.len() > 0 {
        assert(pred(f[0]));
        assert(f.contains(f[0]));
        s.lemma_filter_contains_rev(pred, f[0]);
        let i = choose|i: int| 0 <= i < s.len() && s[i] == f[0];
        assert(!pred(s[i]));
    }
}

/// Two predicates that agree on every member filter a sequence alike.
proof fn lemma_filter_agreeing<A>(s: Seq<A>, p: spec_fn(A) -> bool, q: spec_fn(A) -> bool)
    requires
        forall|i: int| 0 <= i < s.len() ==> p(#[trigger] s[i]) == q(s[i]),
    ensures
        s.filter(p) == s.filter(q),
    decreases s.len(),
{
    reveal(Seq::filter);
    if s.len() > 0 {
        let rest = s.drop_last();
        assert forall|i: int| 0 <= i < rest.len() implies p(#[trigger] rest[i]) == q(rest[i]) by {
            assert(rest[i] == s[i]);
        }
        lemma_filter_agreeing(rest, p, q);
        assert(p(s[s.len() - 1]) == q(s[s.len() - 1]));
    }
}

/// Refreshing settles. Once a diff against the remote tracks has been applied
/// with AddNewOnly or Mirror, diffing the result against the same remote tracks
/// finds no new track. After Mirror it also finds nothing to remove and keeps
/// every entry; Mirror's result is the local entries still on the remote list,
/// with their local metadata and in their local order, followed by the new
/// tracks. The number Mirror reports removed is the local length less the
/// number kept.
pub proof fn lemma_refresh_settles(local: Seq<PlaylistTrack>, remote: Seq<Track>, strategy: RefreshStrategy)
    requires
        strategy != RefreshStrategy::Preview,
    ensures
        spec_added(
            spec_applied(local, spec_added(local, remote), spec_removed(local, remote), strategy),
            remote,
        ).len() == 0,
        strategy == RefreshStrategy::Mirror ==> spec_removed(
            spec_applied(local, spec_added(local, remote), spec_removed(local, remote), strategy),
            remote,
        ).len() == 0,
        strategy == RefreshStrategy::Mirror ==> spec_kept(
            spec_applied(local, spec_added(local, remote), spec_removed(local, remote), strategy),
            remote,
        ) == spec_applied(local, spec_added(local, remote), spec_removed(local, remote), strategy).len(),
        strategy == RefreshStrategy::Mirror ==> spec_applied(
            local,
            spec_added(local, remote),
            spec_removed(local, remote),
            strategy,
        ) == local.filter(still_remote(remote)) + added_entries(spec_added(local, remote)),
        spec_removed(local, remote).len() == local.len() - spec_kept(local, remote),
{
    let after = spec_applied(local, spec_added(local, remote), spec_removed(local, remote), strategy);
    lemma_diff_partitions_local(local, remote);
    assert forall|x: Seq<char>| track_ids(remote).contains(x) implies #[trigger] entry_ids(after).contains(x) by {
        if strategy == RefreshStrategy::Mirror {
            lemma_mirror_matches_remote(local, remote, x);
        } else {
            lemma_add_new_only_unions(local, remote, x);
        }
    }
    assert forall|i: int| 0 <= i < remote.len() implies !is_new_remote(after)(#[trigger] remote[i]) by {
        assert(track_ids(remote)[i] == remote[i].id@);
        assert(track_ids(remote).contains(remote[i].id@));
    }
    lemma_filter_keeps_nothing(remote, is_new_remote(after));
    if strategy == RefreshStrategy::Mirror {
        assert forall|i: int| 0 <= i < after.len() implies !gone_remote(remote)(#[trigger] after[i]) by {
            assert(entry_ids(after)[i] == after[i].id@);
            lemma_mirror_matches_remote(local, remote, after[i].id@);
        }
        lemma_filter_keeps_nothing(after, gone_remote(remote));
        lemma_diff_partitions_local(after, remote);
        let removed = spec_removed(local, remote);
        assert forall|i: int| 0 <= i < local.len() implies not_removed(removed)(#[trigger] local[i])
            == still_remote(remote)(local[i]) by {
            assert(entry_ids(local)[i] == local[i].id@);
            lemma_removed_ids(local, remote, local[i].id@);
        }
        lemma_filter_agreeing(local, not_removed(removed), still_remote(remote));
    }
}

} // verus!
