//! Staging of playlists imported from pasted JSON. Playlists whose trimmed
//! names match ignoring ASCII case are merged, with an existing playlist or
//! with one staged earlier in the same import, so an import never creates
//! two playlists of one name and never lists a video twice in a merge.

use vstd::prelude::*;

use crate::media::{entries_contain_id, entry_ids, Playlist, PlaylistTrack};
use crate::text::{decimal_digits, names_match, push_decimal, same_name};
use crate::wire::duplicate_playlist;

verus! {

broadcast use vstd::seq_lib::group_seq_properties;

/// The values of a playlist.
pub struct PlaylistModel {
    pub id: String,
    pub name: String,
    pub description: String,
    pub tracks: Seq<PlaylistTrack>,
    pub updated_at: i64,
}

/// The values a playlist holds.
pub open spec fn model(playlist: Playlist) -> PlaylistModel {
    PlaylistModel {
        id: playlist.id,
        name: playlist.name,
        description: playlist.description,
        tracks: playlist.tracks@,
        updated_at: playlist.updated_at,
    }
}

/// The models of a list of playlists.
pub open spec fn models(playlists: Seq<Playlist>) -> Seq<PlaylistModel> {
    playlists.map_values(|p: Playlist| model(p))
}

/// `existing` followed by each incoming entry whose id is not listed yet.
pub open spec fn appended_entries(existing: Seq<PlaylistTrack>, incoming: Seq<PlaylistTrack>) -> Seq<PlaylistTrack>
    decreases incoming.len(),
{
    if incoming.len() == 0 {
        existing
    } else {
        let before = appended_entries(existing, incoming.drop_last());
        if entry_ids(before).contains(incoming.last().id@) {
            before
        } else {
            before.push(incoming.last())
        }
    }
}

/// `target` after merging `incoming` into it at `now`: new videos are
/// appended, an empty description is filled in, and a merge that added
/// videos marks the playlist changed at `now`.
pub open spec fn merged(target: PlaylistModel, incoming: PlaylistModel, now: i64) -> PlaylistModel {
    PlaylistModel {
        tracks: appended_entries(target.tracks, incoming.tracks),
        updated_at: if appended_entries(target.tracks, incoming.tracks).len() > target.tracks.len() {
            now
        } else {
            target.updated_at
        },
        description: if target.description@.len() == 0 && incoming.description@.len() > 0 {
            incoming.description
        } else {
            target.description
        },
        ..target
    }
}

/// Number of videos a merge adds.
pub open spec fn gained(target: PlaylistModel, incoming: PlaylistModel) -> int {
    appended_entries(target.tracks, incoming.tracks).len() - target.tracks.len()
}

/// Appending never removes entries and adds at most one per incoming entry.
pub proof fn lemma_appended_bounds(existing: Seq<PlaylistTrack>, incoming: Seq<PlaylistTrack>)
    ensures
        existing.len() <= appended_entries(existing, incoming).len() <= existing.len() + incoming.len(),
        appended_entries(existing, incoming).take(existing.len() as int) == existing,
    decreases incoming.len(),
{
    if incoming.len() > 0 {
        lemma_appended_bounds(existing, incoming.drop_last());
        let before = appended_entries(existing, incoming.drop_last());
        assert(before.push(incoming.last()).take(existing.len() as int) == before.take(existing.len() as int));
    }
}

/// Merge `incoming` into `target` at `now`, returning how many videos were added.
pub fn merge_playlist_tracks(target: &mut Playlist, incoming: Playlist, now: i64) -> (added: usize)
    ensures
        model(*final(target)) == merged(model(*old(target)), model(incoming), now),
        added == gained(model(*old(target)), model(incoming)),
{
    let before = target.tracks.len();
    let ghost start = target.tracks@;
    let Playlist { id: _, name: _, description, tracks, updated_at: _ } = incoming;
    let mut i: usize = 0;
    while i < tracks.len()
        invariant
            i <= tracks@.len(),
            target.tracks@ == appended_entries(start, tracks@.take(i as int)),
            target.id == old(target).id,
            target.name == old(target).name,
            target.description == old(target).description,
            target.updated_at == old(target).updated_at,
            start == old(target).tracks@,
            before == start.len(),
        decreases tracks@.len() - i,
    {
        let seen = entries_contain_id(target.tracks.as_slice(), &tracks[i].id);
        proof {
            let next = tracks@.take(i + 1);
            assert(next.drop_last() == tracks@.take(i as int));
            assert(next.last() == tracks@[i as int]);
        }
        if !seen {
            target.tracks.push(tracks[i].duplicate());
        }
        i = i + 1;
    }
    assert(tracks@.take(tracks@.len() as int) == tracks@);
    if target.description.unicode_len() == 0 && description.unicode_len() > 0 {
        target.description = description;
    }
    proof {
        lemma_appended_bounds(start, tracks@);
    }
    if target.tracks.len() > before {
        target.updated_at = now;
    }
    target.tracks.len() - before
}

/// Index of the first playlist whose name matches `name`.
pub open spec fn first_named(playlists: Seq<PlaylistModel>, name: Seq<char>) -> Option<int> {
    if exists|i: int| 0 <= i < playlists.len() && same_name(#[trigger] playlists[i].name@, name) {
        Some(
            choose|i: int|
                0 <= i < playlists.len() && same_name(#[trigger] playlists[i].name@, name) && forall|k: int|
                    0 <= k < i ==> !same_name(#[trigger] playlists[k].name@, name),
        )
    } else {
        None
    }
}

/// Staging after one more incoming playlist, given the staging so far and
/// the number of videos it added.
pub open spec fn stage_one(
    existing: Seq<PlaylistModel>,
    staged: Seq<PlaylistModel>,
    added: int,
    incoming: PlaylistModel,
    now: i64,
) -> (Seq<PlaylistModel>, int) {
    match first_named(staged, incoming.name@) {
        Some(i) => (staged.update(i, merged(staged[i], incoming, now)), added + gained(staged[i], incoming)),
        None => match first_named(existing, incoming.name@) {
            Some(j) => (staged.push(merged(existing[j], incoming, now)), added + gained(existing[j], incoming)),
            None => (staged.push(incoming), added + incoming.tracks.len()),
        },
    }
}

/// Staged playlists and added video count for a whole import at `now`.
pub open spec fn spec_stage(existing: Seq<PlaylistModel>, incoming: Seq<PlaylistModel>, now: i64) -> (
    Seq<PlaylistModel>,
    int,
)
    decreases incoming.len(),
{
    if incoming.len() == 0 {
        (Seq::empty(), 0)
    } else {
        let (staged, added) = spec_stage(existing, incoming.drop_last(), now);
        stage_one(existing, staged, added, incoming.last(), now)
    }
}

/// Total number of entries of a list of playlists.
pub open spec fn total_tracks(playlists: Seq<PlaylistModel>) -> int
    decreases playlists.len(),
{
    if playlists.len() == 0 {
        0
    } else {
        total_tracks(playlists.drop_last()) + playlists.last().tracks.len()
    }
}

/// An import never adds more videos than it carries.
proof fn lemma_stage_added_bound(existing: Seq<PlaylistModel>, incoming: Seq<PlaylistModel>, now: i64)
    ensures
        0 <= spec_stage(existing, incoming, now).1 <= total_tracks(incoming),
    decreases incoming.len(),
{
    if incoming.len() > 0 {
        lemma_stage_added_bound(existing, incoming.drop_last(), now);
        let (staged, added) = spec_stage(existing, incoming.drop_last(), now);
        let p = incoming.last();
        match first_named(staged, p.name@) {
            Some(i) => lemma_appended_bounds(staged[i].tracks, p.tracks),
            None => match first_named(existing, p.name@) {
                Some(j) => lemma_appended_bounds(existing[j].tracks, p.tracks),
                None => {},
            },
        }
    }
}

/// The first matching position, once found, is what `first_named` picks.
proof fn lemma_first_named_is(playlists: Seq<PlaylistModel>, name: Seq<char>, i: int)
    requires
        0 <= i < playlists.len(),
        same_name(playlists[i].name@, name),
        forall|k: int| 0 <= k < i ==> !same_name(#[trigger] playlists[k].name@, name),
    ensures
        first_named(playlists, name) == Some(i),
{
    let p = |j: int|
        0 <= j < playlists.len() && same_name(playlists[j].name@, name) && forall|k: int|
            0 <= k < j ==> !same_name(#[trigger] playlists[k].name@, name);
    assert(p(i));
    let j = choose|j: int|
        0 <= j < playlists.len() && same_name(#[trigger] playlists[j].name@, name) && forall|k: int|
            0 <= k < j ==> !same_name(#[trigger] playlists[k].name@, name);
    assert(0 <= j < playlists.len() && same_name(playlists[j].name@, name));
    if j < i {
        assert(!same_name(playlists[j].name@, name));
    }
    if i < j {
        assert(!same_name(playlists[i].name@, name));
    }
}

/// Position of the first playlist whose name matches `name`.
fn position_named(playlists: &Vec<Playlist>, name: &String) -> (found: Option<usize>)
    ensures
        match found {
            Some(i) => {
                &&& i < playlists@.len()
                &&& same_name(playlists@[i as int].name@, name@)
                &&& first_named(models(playlists@), name@) == Some(i as int)
            },
            None => first_named(models(playlists@), name@) is None,
        },
{
    let ghost all = models(playlists@);
    let mut i: usize = 0;
    while i < playlists.len()
        invariant
            i <= playlists@.len(),
            all == models(playlists@),
            forall|k: int| 0 <= k < i ==> !same_name(#[trigger] all[k].name@, name@),
        decreases playlists@.len() - i,
    {
        if names_match(playlists[i].name.as_str(), name.as_str()) {
            assert(all[i as int] == model(playlists@[i as int]));
            proof {
                lemma_first_named_is(all, name@, i as int);
            }
            return Some(i);
        }
        assert(all[i as int] == model(playlists@[i as int]));
        i = i + 1;
    }
    None
}

/// Total number of entries of the incoming playlists.
pub fn count_tracks(playlists: &Vec<Playlist>) -> (count: usize)
    requires
        total_tracks(models(playlists@)) <= usize::MAX,
    ensures
        count == total_tracks(models(playlists@)),
{
    let mut count: usize = 0;
    let mut i: usize = 0;
    while i < playlists.len()
        invariant
            i <= playlists@.len(),
            total_tracks(models(playlists@)) <= usize::MAX,
            count == total_tracks(models(playlists@).take(i as int)),
        decreases playlists@.len() - i,
    {
        proof {
            let all = models(playlists@);
            assert(all.take(i + 1).drop_last() == all.take(i as int));
            lemma_total_prefix(all, i + 1);
        }
        count = count + playlists[i].tracks.len();
        i = i + 1;
    }
    assert(models(playlists@).take(playlists@.len() as int) == models(playlists@));
    count
}

/// Total number of entries of the incoming playlists, or nothing when the
/// total does not fit in a `usize`.
pub fn checked_count_tracks(playlists: &Vec<Playlist>) -> (count: Option<usize>)
    ensures
        match count {
            Some(n) => n == total_tracks(models(playlists@)),
            None => total_tracks(models(playlists@)) > usize::MAX,
        },
{
    let mut count: usize = 0;
    let mut i: usize = 0;
    while i < playlists.len()
        invariant
            i <= playlists@.len(),
            count == total_tracks(models(playlists@).take(i as int)),
        decreases playlists@.len() - i,
    {
        proof {
            let all = models(playlists@);
            assert(all.take(i + 1).drop_last() == all.take(i as int));
            lemma_total_prefix(all, i + 1);
        }
        match count.checked_add(playlists[i].tracks.len()) {
            Some(next) => count = next,
            None => return None,
        }
        i = i + 1;
    }
    assert(models(playlists@).take(playlists@.len() as int) == models(playlists@));
    Some(count)
}

/// A prefix never holds more entries than the whole list.
proof fn lemma_total_prefix(playlists: Seq<PlaylistModel>, k: int)
    requires
        0 <= k <= playlists.len(),
    ensures
        total_tracks(playlists.take(k)) <= total_tracks(playlists),
    decreases playlists.len(),
{
    if k < playlists.len() {
        assert(playlists.drop_last().take(k) == playlists.take(k));
        lemma_total_prefix(playlists.drop_last(), k);
    } else {
        assert(playlists.take(k) == playlists);
    }
}

/// Stage one incoming playlist, returning the videos it adds.
#[verifier::rlimit(40)]
fn stage_playlist(existing: &Vec<Playlist>, staged: &mut Vec<Playlist>, incoming: Playlist, now: i64) -> (gain: usize)
    ensures
        ({
            let (after, total) = stage_one(models(existing@), models(old(staged)@), 0, model(incoming), now);
            models(final(staged)@) == after && gain == total
        }),
{
    let ghost before = models(staged@);
    let ghost stored = models(existing@);
    match position_named(staged, &incoming.name) {
        Some(i) => {
            assert(0 <= i < before.len());
            assert(before[i as int] == model(staged@[i as int]));
            let mut target = staged.remove(i);
            let gain = merge_playlist_tracks(&mut target, incoming, now);
            staged.insert(i, target);
            assert(models(staged@) =~= before.update(i as int, merged(before[i as int], model(incoming), now)));
            gain
        },
        None => match position_named(existing, &incoming.name) {
            Some(j) => {
                assert(stored[j as int] == model(existing@[j as int]));
                let mut copy = duplicate_playlist(&existing[j]);
                let gain = merge_playlist_tracks(&mut copy, incoming, now);
                staged.push(copy);
                assert(models(staged@) =~= before.push(merged(stored[j as int], model(incoming), now)));
                gain
            },
            None => {
                let gain = incoming.tracks.len();
                let ghost m = model(incoming);
                staged.push(incoming);
                assert(models(staged@) =~= before.push(m));
                gain
            },
        },
    }
}

/// Stage every playlist of a JSON import against the stored ones. Returns
/// the playlists to save, each either new or an updated copy of a stored
/// one, and the number of videos the import adds. A stored playlist that
/// gains videos is marked changed at `now`.
pub fn stage_json_playlists(existing: &Vec<Playlist>, incoming: Vec<Playlist>, now: i64) -> (result: (
    Vec<Playlist>,
    usize,
))
    requires
        total_tracks(models(incoming@)) <= usize::MAX,
    ensures
        (models(result.0@), result.1 as int) == spec_stage(models(existing@), models(incoming@), now),
{
    let ghost all = models(incoming@);
    let ghost stored = models(existing@);
    let mut rest = incoming;
    let mut staged: Vec<Playlist> = Vec::new();
    let mut added: usize = 0;
    let mut done: usize = 0;
    assert(models(staged@) =~= Seq::<PlaylistModel>::empty());
    assert(all.skip(0) == all);
    let total: usize = rest.len();
    assert(all.len() == total);
    while rest.len() > 0
        invariant
            done + rest@.len() == all.len(),
            all.len() <= usize::MAX,
            models(rest@) == all.skip(done as int),
            stored == models(existing@),
            total_tracks(all) <= usize::MAX,
            (models(staged@), added as int) == spec_stage(stored, all.take(done as int), now),
        decreases rest@.len(),
    {
        let ghost prefix = all.take(done as int);
        let ghost rest_before = rest@;
        let incoming = rest.remove(0);
        proof {
            assert(models(rest_before)[0] == model(rest_before[0]));
            assert(model(incoming) == all[done as int]);
            assert(all.take(done + 1).drop_last() =~= prefix);
            assert(all.take(done + 1).last() == all[done as int]);
            assert(models(rest@) =~= all.skip(done + 1));
            lemma_stage_added_bound(stored, all.take(done + 1), now);
            lemma_total_prefix(all, done + 1);
        }
        let gain = stage_playlist(existing, &mut staged, incoming, now);
        added = added + gain;
        done = done + 1;
    }
    assert(all.take(done as int) =~= all);
    (staged, added)
}

/// Index of the first playlist with the given id.
pub open spec fn first_with_id(playlists: Seq<PlaylistModel>, id: Seq<char>) -> Option<int> {
    if exists|i: int| 0 <= i < playlists.len() && #[trigger] playlists[i].id@ == id {
        Some(
            choose|i: int|
                0 <= i < playlists.len() && #[trigger] playlists[i].id@ == id && forall|k: int|
                    0 <= k < i ==> #[trigger] playlists[k].id@ != id,
        )
    } else {
        None
    }
}

/// The stored playlists after saving the staged ones: a staged playlist
/// replaces the stored one with its id, or is added at the end.
pub open spec fn spec_install(current: Seq<PlaylistModel>, staged: Seq<PlaylistModel>) -> Seq<PlaylistModel>
    decreases staged.len(),
{
    if staged.len() == 0 {
        current
    } else {
        let before = spec_install(current, staged.drop_last());
        let p = staged.last();
        match first_with_id(before, p.id@) {
            Some(i) => before.update(i, p),
            None => before.push(p),
        }
    }
}

/// The first position with a given id, once found, is what `first_with_id` picks.
proof fn lemma_first_with_id_is(playlists: Seq<PlaylistModel>, id: Seq<char>, i: int)
    requires
        0 <= i < playlists.len(),
        playlists[i].id@ == id,
        forall|k: int| 0 <= k < i ==> #[trigger] playlists[k].id@ != id,
    ensures
        first_with_id(playlists, id) == Some(i),
{
    let j = choose|j: int|
        0 <= j < playlists.len() && #[trigger] playlists[j].id@ == id && forall|k: int|
            0 <= k < j ==> #[trigger] playlists[k].id@ != id;
    assert(0 <= j < playlists.len() && playlists[j].id@ == id);
    if j < i {
        assert(playlists[j].id@ != id);
    }
    if i < j {
        assert(playlists[i].id@ != id);
    }
}

/// Position of the first playlist with the given id.
fn position_with_id(playlists: &Vec<Playlist>, id: &String) -> (found: Option<usize>)
    ensures
        match found {
            Some(i) => i < playlists@.len() && first_with_id(models(playlists@), id@) == Some(i as int),
            None => first_with_id(models(playlists@), id@) is None,
        },
{
    let ghost all = models(playlists@);
    let mut i: usize = 0;
    while i < playlists.len()
        invariant
            i <= playlists@.len(),
            all == models(playlists@),
            forall|k: int| 0 <= k < i ==> #[trigger] all[k].id@ != id@,
        decreases playlists@.len() - i,
    {
        assert(all[i as int] == model(playlists@[i as int]));
        if playlists[i].id == *id {
            proof {
                lemma_first_with_id_is(all, id@, i as int);
            }
            return Some(i);
        }
        i = i + 1;
    }
    None
}

/// How one playlist saved by a failed import is put back.
#[derive(Debug)]
pub enum RollbackStep {
    /// Save again the stored playlist at this position, as it was before.
    Restore(usize),
    /// Delete the playlist with this id: the import created it.
    Delete(String),
}

/// The step that undoes saving the playlist with id `id` over `stored`.
pub open spec fn undoes(stored: Seq<Playlist>, id: Seq<char>, step: RollbackStep) -> bool {
    match first_with_id(models(stored), id) {
        Some(i) => step == RollbackStep::Restore(i as usize),
        None => step matches RollbackStep::Delete(gone) && gone@ == id,
    }
}

/// The steps that undo the saves of a failed import, one per saved id, in
/// order: a playlist that was stored before is saved again as it was, one the
/// import created is deleted.
pub fn rollback_plan(stored: &Vec<Playlist>, saved_ids: &Vec<String>) -> (plan: Vec<RollbackStep>)
    ensures
        plan@.len() == saved_ids@.len(),
        forall|k: int| 0 <= k < saved_ids@.len() ==> undoes(stored@, saved_ids@[k]@, #[trigger] plan@[k]),
{
    let mut plan: Vec<RollbackStep> = Vec::new();
    let mut k: usize = 0;
    while k < saved_ids.len()
        invariant
            k <= saved_ids@.len(),
            plan@.len() == k,
            forall|j: int| 0 <= j < k ==> undoes(stored@, saved_ids@[j]@, #[trigger] plan@[j]),
        decreases saved_ids@.len() - k,
    {
        let step = match position_with_id(stored, &saved_ids[k]) {
            Some(i) => RollbackStep::Restore(i),
            None => RollbackStep::Delete(saved_ids[k].clone()),
        };
        plan.push(step);
        k = k + 1;
    }
    plan
}

/// Notification when an import could not be saved.
pub open spec fn failure_message(error: Seq<char>) -> Seq<char> {
    "JSON import failed; no playlists kept: "@ + error
}

/// The notification text when saving an import failed with `error`.
pub fn import_failure_text(error: &str) -> (message: String)
    ensures
        message@ == failure_message(error@),
{
    proof {
        reveal_strlit("JSON import failed; no playlists kept: ");
    }
    let mut message = String::from_str("JSON import failed; no playlists kept: ");
    message.append(error);
    message
}

/// Save staged playlists into the stored list, replacing by id or appending.
pub fn install_staged(playlists: &mut Vec<Playlist>, staged: Vec<Playlist>)
    ensures
        models(final(playlists)@) == spec_install(models(old(playlists)@), models(staged@)),
{
    let ghost all = models(staged@);
    let ghost start = models(playlists@);
    let mut rest = staged;
    let total: usize = rest.len();
    let mut done: usize = 0;
    assert(all.take(0) =~= Seq::<PlaylistModel>::empty());
    assert(all.skip(0) == all);
    while rest.len() > 0
        invariant
            done + rest@.len() == all.len(),
            all.len() <= usize::MAX,
            models(rest@) == all.skip(done as int),
            start == models(old(playlists)@),
            models(playlists@) == spec_install(start, all.take(done as int)),
        decreases rest@.len(),
    {
        let ghost prefix = all.take(done as int);
        let ghost rest_before = rest@;
        let ghost before = models(playlists@);
        let playlist = rest.remove(0);
        proof {
            assert(models(rest_before)[0] == model(rest_before[0]));
            assert(model(playlist) == all[done as int]);
            assert(all.take(done + 1).drop_last() =~= prefix);
            assert(all.take(done + 1).last() == all[done as int]);
            assert(models(rest@) =~= all.skip(done + 1));
        }
        let ghost m = model(playlist);
        match position_with_id(playlists, &playlist.id) {
            Some(i) => {
                playlists.set(i, playlist);
                assert(models(playlists@) =~= before.update(i as int, m));
            },
            None => {
                playlists.push(playlist);
                assert(models(playlists@) =~= before.push(m));
            },
        }
        done = done + 1;
    }
    assert(all.take(done as int) =~= all);
}

/// Matching names is symmetric and transitive.
proof fn lemma_same_name_equivalence(a: Seq<char>, b: Seq<char>, c: Seq<char>)
    ensures
        same_name(a, b) ==> same_name(b, a),
        same_name(a, b) && same_name(b, c) ==> same_name(a, c),
{
    let (ta, tb, tc) = (crate::text::trimmed(a), crate::text::trimmed(b), crate::text::trimmed(c));
    if same_name(a, b) {
        assert forall|i: int| 0 <= i < tb.len() implies crate::text::ascii_folded(#[trigger] tb[i])
            == crate::text::ascii_folded(ta[i]) by {
            assert(crate::text::ascii_folded(ta[i]) == crate::text::ascii_folded(tb[i]));
        }
        if same_name(b, c) {
            assert forall|i: int| 0 <= i < ta.len() implies crate::text::ascii_folded(#[trigger] ta[i])
                == crate::text::ascii_folded(tc[i]) by {
                assert(crate::text::ascii_folded(ta[i]) == crate::text::ascii_folded(tb[i]));
                assert(crate::text::ascii_folded(tb[i]) == crate::text::ascii_folded(tc[i]));
            }
        }
    }
}

/// Some matching position is the first one.
proof fn lemma_first_match_exists(playlists: Seq<PlaylistModel>, name: Seq<char>, i: int)
    requires
        0 <= i < playlists.len(),
        same_name(playlists[i].name@, name),
    ensures
        exists|m: int|
            0 <= m < playlists.len() && same_name(#[trigger] playlists[m].name@, name) && forall|k: int|
                0 <= k < m ==> !same_name(#[trigger] playlists[k].name@, name),
    decreases i,
{
    if exists|k: int| 0 <= k < i && same_name(#[trigger] playlists[k].name@, name) {
        let k = choose|k: int| 0 <= k < i && same_name(#[trigger] playlists[k].name@, name);
        lemma_first_match_exists(playlists, name, k);
    } else {
        assert(forall|k: int| 0 <= k < i ==> !same_name(#[trigger] playlists[k].name@, name));
    }
}

/// `first_named` picks a matching position, and finds none only when no name matches.
proof fn lemma_first_named_sound(playlists: Seq<PlaylistModel>, name: Seq<char>)
    ensures
        match first_named(playlists, name) {
            Some(j) => 0 <= j < playlists.len() && same_name(playlists[j].name@, name),
            None => forall|k: int| 0 <= k < playlists.len() ==> !same_name(#[trigger] playlists[k].name@, name),
        },
{
    if exists|i: int| 0 <= i < playlists.len() && same_name(#[trigger] playlists[i].name@, name) {
        let i = choose|i: int| 0 <= i < playlists.len() && same_name(#[trigger] playlists[i].name@, name);
        lemma_first_match_exists(playlists, name, i);
    }
}

/// No two playlists of a list have matching names.
pub open spec fn distinct_names(playlists: Seq<PlaylistModel>) -> bool {
    forall|i: int, j: int|
        0 <= i < j < playlists.len() ==> !same_name(#[trigger] playlists[i].name@, #[trigger] playlists[j].name@)
}

/// A JSON import never stages two playlists whose names match: playlists of
/// one name, in the import or already stored, become one playlist.
pub proof fn lemma_staged_names_distinct(existing: Seq<PlaylistModel>, incoming: Seq<PlaylistModel>, now: i64)
    ensures
        distinct_names(spec_stage(existing, incoming, now).0),
    decreases incoming.len(),
{
    if incoming.len() > 0 {
        lemma_staged_names_distinct(existing, incoming.drop_last(), now);
        let (staged, added) = spec_stage(existing, incoming.drop_last(), now);
        let p = incoming.last();
        lemma_first_named_sound(staged, p.name@);
        lemma_first_named_sound(existing, p.name@);
        let after = stage_one(existing, staged, added, p, now).0;
        match first_named(staged, p.name@) {
            Some(i) => {
                assert forall|a: int, b: int| 0 <= a < b < after.len() implies !same_name(
                    #[trigger] after[a].name@,
                    #[trigger] after[b].name@,
                ) by {
                    assert(after[a].name == staged[a].name);
                    assert(after[b].name == staged[b].name);
                }
            },
            None => {
                let pushed_name = match first_named(existing, p.name@) {
                    Some(j) => existing[j].name@,
                    None => p.name@,
                };
                assert(after.last().name@ == pushed_name);
                assert forall|a: int, b: int| 0 <= a < b < after.len() implies !same_name(
                    #[trigger] after[a].name@,
                    #[trigger] after[b].name@,
                ) by {
                    if b == after.len() - 1 {
                        assert(after[a] == staged[a]);
                        assert(!same_name(staged[a].name@, p.name@));
                        lemma_same_name_equivalence(staged[a].name@, pushed_name, p.name@);
                        lemma_same_name_equivalence(pushed_name, p.name@, p.name@);
                        if first_named(existing, p.name@) is Some {
                            assert(same_name(pushed_name, p.name@));
                        } else {
                            assert(pushed_name == p.name@);
                        }
                    } else {
                        assert(after[a] == staged[a]);
                        assert(after[b] == staged[b]);
                    }
                }
            },
        }
    }
}

/// No two entries of a list share a video id.
pub open spec fn unique_entries(entries: Seq<PlaylistTrack>) -> bool {
    forall|i: int, j: int| 0 <= i < j < entries.len() ==> #[trigger] entries[i].id@ != #[trigger] entries[j].id@
}

/// Merging never lists a video twice in a playlist that did not.
pub proof fn lemma_merge_keeps_entries_unique(existing: Seq<PlaylistTrack>, incoming: Seq<PlaylistTrack>)
    requires
        unique_entries(existing),
    ensures
        unique_entries(appended_entries(existing, incoming)),
    decreases incoming.len(),
{
    if incoming.len() > 0 {
        lemma_merge_keeps_entries_unique(existing, incoming.drop_last());
        let before = appended_entries(existing, incoming.drop_last());
        let t = incoming.last();
        if !entry_ids(before).contains(t.id@) {
            let after = before.push(t);
            assert forall|i: int, j: int| 0 <= i < j < after.len() implies #[trigger] after[i].id@
                != #[trigger] after[j].id@ by {
                if j == before.len() {
                    assert(entry_ids(before)[i] == before[i].id@);
                }
            }
        }
    }
}

/// An import never adds more videos than it carries.
pub proof fn lemma_import_adds_at_most_what_it_carries(
    existing: Seq<PlaylistModel>,
    incoming: Seq<PlaylistModel>,
    now: i64,
)
    ensures
        0 <= spec_stage(existing, incoming, now).1 <= total_tracks(incoming),
{
    lemma_stage_added_bound(existing, incoming, now);
}

/// Notification after a JSON import: videos added and duplicates skipped.
pub open spec fn summary_message(added: nat, skipped: nat) -> Seq<char> {
    "Imported "@ + decimal_digits(added) + " new tracks · "@ + decimal_digits(skipped) + " duplicates skipped"@
}

/// Videos of an import that were already listed: those carried minus those
/// added, never below zero.
pub open spec fn skipped_count(added: usize, requested: usize) -> nat {
    if requested >= added {
        (requested - added) as nat
    } else {
        0
    }
}

/// The notification text after a JSON import of `requested` videos that added `added`.
pub fn import_summary_text(added: usize, requested: usize) -> (message: String)
    ensures
        message@ == summary_message(added as nat, skipped_count(added, requested)),
{
    let skipped = if requested >= added {
        requested - added
    } else {
        0
    };
    proof {
        reveal_strlit("Imported ");
        reveal_strlit(" new tracks · ");
        reveal_strlit(" duplicates skipped");
    }
    let mut message = String::from_str("Imported ");
    push_decimal(&mut message, added as u64);
    message.append(" new tracks · ");
    push_decimal(&mut message, skipped as u64);
    message.append(" duplicates skipped");
    message
}

} // verus!
