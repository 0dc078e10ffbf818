//! Ownership bookkeeping for asynchronous application operations: each
//! operation family has at most one current operation, and completions that
//! do not carry the current identity are stale and rejected.

use vstd::prelude::*;

verus! {

/// Monotonic identity attached to an asynchronous operation result.
#[derive(PartialEq, Eq, Structural, Clone, Copy, Debug, Hash)]
pub struct OperationId(pub u64);

impl OperationId {
    /// Placeholder identity for client-side mirrors of daemon-owned
    /// operations; the mirror never completes or cancels operations.
    pub fn mirror_placeholder() -> (id: OperationId)
        ensures
            id == OperationId(0),
    {
        OperationId(0)
    }
}

/// Independently supersedable operation families.
#[derive(PartialEq, Eq, Structural, Clone, Copy, Debug, Hash)]
pub enum OperationKind {
    Playback,
    Import,
    Radio,
    Details,
    Thumbnail,
    SearchThumbnail,
    Search,
    Prefetch,
    Mix,
    Session,
    PlaybackRecovery,
    ExternalCommand,
    ChannelResolve,
    ChannelPage,
}

/// Number of operation families.
pub const KIND_COUNT: usize = 14;

/// Storage slot of an operation family.
pub open spec fn slot_of(kind: OperationKind) -> int {
    match kind {
        OperationKind::Playback => 0,
        OperationKind::Import => 1,
        OperationKind::Radio => 2,
        OperationKind::Details => 3,
        OperationKind::Thumbnail => 4,
        OperationKind::SearchThumbnail => 5,
        OperationKind::Search => 6,
        OperationKind::Prefetch => 7,
        OperationKind::Mix => 8,
        OperationKind::Session => 9,
        OperationKind::PlaybackRecovery => 10,
        OperationKind::ExternalCommand => 11,
        OperationKind::ChannelResolve => 12,
        OperationKind::ChannelPage => 13,
    }
}

/// The family stored in a slot.
pub open spec fn kind_at(slot: int) -> OperationKind {
    if slot == 0 {
        OperationKind::Playback
    } else if slot == 1 {
        OperationKind::Import
    } else if slot == 2 {
        OperationKind::Radio
    } else if slot == 3 {
        OperationKind::Details
    } else if slot == 4 {
        OperationKind::Thumbnail
    } else if slot == 5 {
        OperationKind::SearchThumbnail
    } else if slot == 6 {
        OperationKind::Search
    } else if slot == 7 {
        OperationKind::Prefetch
    } else if slot == 8 {
        OperationKind::Mix
    } else if slot == 9 {
        OperationKind::Session
    } else if slot == 10 {
        OperationKind::PlaybackRecovery
    } else if slot == 11 {
        OperationKind::ExternalCommand
    } else if slot == 12 {
        OperationKind::ChannelResolve
    } else {
        OperationKind::ChannelPage
    }
}

/// Storage slot of an operation family.
pub fn kind_slot(kind: OperationKind) -> (slot: usize)
    ensures
        slot as int == slot_of(kind),
        slot < KIND_COUNT,
        kind_at(slot as int) == kind,
{
    match kind {
        OperationKind::Playback => 0,
        OperationKind::Import => 1,
        OperationKind::Radio => 2,
        OperationKind::Details => 3,
        OperationKind::Thumbnail => 4,
        OperationKind::SearchThumbnail => 5,
        OperationKind::Search => 6,
        OperationKind::Prefetch => 7,
        OperationKind::Mix => 8,
        OperationKind::Session => 9,
        OperationKind::PlaybackRecovery => 10,
        OperationKind::ExternalCommand => 11,
        OperationKind::ChannelResolve => 12,
        OperationKind::ChannelPage => 13,
    }
}

/// What becomes of the running task of a cancelled operation.
#[derive(PartialEq, Eq, Structural, Clone, Copy, Debug)]
pub enum Teardown {
    /// Stop the task at once.
    Abort,
    /// Let the task see its cancellation and finish on its own, so that an
    /// external process it started is reaped rather than left behind.
    Cooperative,
}

/// How the task of a cancelled operation of `kind` is torn down: external
/// commands finish cooperatively, every other family is aborted.
pub fn cancellation_teardown(kind: OperationKind) -> (teardown: Teardown)
    ensures
        teardown == (if kind == OperationKind::ExternalCommand {
            Teardown::Cooperative
        } else {
            Teardown::Abort
        }),
{
    match kind {
        OperationKind::ExternalCommand => Teardown::Cooperative,
        _ => Teardown::Abort,
    }
}

/// The identity handed out after `previous`: never 0, which is the mirror placeholder.
pub open spec fn next_identity(previous: u64) -> u64 {
    if previous == u64::MAX {
        1
    } else {
        (previous + 1) as u64
    }
}

/// Current operation of every family.
pub struct OperationRegistry {
    next_id: u64,
    slots: Vec<Option<OperationId>>,
}

impl View for OperationRegistry {
    type V = Map<OperationKind, OperationId>;

    /// The current operation of each family that has one.
    closed spec fn view(&self) -> Map<OperationKind, OperationId> {
        Map::new(
            |kind: OperationKind| self.slots@[slot_of(kind)] is Some,
            |kind: OperationKind| self.slots@[slot_of(kind)]->Some_0,
        )
    }
}

impl OperationRegistry {
    /// One slot per family, and no current operation carries the placeholder identity.
    pub closed spec fn well_formed(&self) -> bool {
        &&& self.slots@.len() == KIND_COUNT
        &&& forall|slot: int| 0 <= slot < KIND_COUNT && #[trigger] self.slots@[slot] is Some
            ==> self.slots@[slot]->Some_0.0 != 0
    }

    /// The last identity handed out (0 before the first start).
    pub closed spec fn last_issued(&self) -> u64 {
        self.next_id
    }

    proof fn lemma_slots(&self)
        ensures
            forall|kind: OperationKind| #![trigger slot_of(kind)] 0 <= slot_of(kind) < KIND_COUNT && kind_at(slot_of(kind)) == kind,
            forall|kind: OperationKind| #![trigger self@.dom().contains(kind)]
                self@.dom().contains(kind) <==> self.slots@[slot_of(kind)] is Some,
            forall|kind: OperationKind| #![trigger self@[kind]]
                self@.dom().contains(kind) ==> self@[kind] == self.slots@[slot_of(kind)]->Some_0,
    {
        assert forall|kind: OperationKind| #![trigger slot_of(kind)] 0 <= slot_of(kind) < KIND_COUNT && kind_at(slot_of(kind)) == kind by {
            match kind {
                _ => {},
            }
        }
    }

    /// A registry with no operations.
    pub fn new() -> (registry: OperationRegistry)
        ensures
            registry.well_formed(),
            registry@ == Map::<OperationKind, OperationId>::empty(),
            registry.last_issued() == 0,
    {
        let mut slots: Vec<Option<OperationId>> = Vec::new();
        let mut i: usize = 0;
        while i < KIND_COUNT
            invariant
                i <= KIND_COUNT,
                slots@.len() == i,
                forall|k: int| 0 <= k < i ==> #[trigger] slots@[k] is None,
            decreases KIND_COUNT - i,
        {
            slots.push(None);
            i = i + 1;
        }
        let registry = OperationRegistry { next_id: 0, slots };
        assert(registry@ =~= Map::<OperationKind, OperationId>::empty()) by {
            registry.lemma_slots();
        }
        registry
    }

    /// Supersede any current operation of `kind` and allocate a fresh identity for it.
    pub fn start(&mut self, kind: OperationKind) -> (id: OperationId)
        requires
            old(self).well_formed(),
        ensures
            final(self).well_formed(),
            id == OperationId(next_identity(old(self).last_issued())),
            id.0 != 0,
            final(self).last_issued() == id.0,
            final(self)@ == old(self)@.insert(kind, id),
    {
        let next = if self.next_id == u64::MAX { 1 } else { self.next_id + 1 };
        self.next_id = next;
        let id = OperationId(next);
        let slot = kind_slot(kind);
        self.slots.set(slot, Some(id));
        proof {
            self.lemma_slots();
            old(self).lemma_slots();
            assert(self@ =~= old(self)@.insert(kind, id));
        }
        id
    }

    /// Whether a completion still belongs to the current operation of `kind`.
    pub fn is_current(&self, kind: OperationKind, id: OperationId) -> (current: bool)
        requires
            self.well_formed(),
        ensures
            current == (self@.dom().contains(kind) && self@[kind] == id),
    {
        proof {
            self.lemma_slots();
        }
        let slot = kind_slot(kind);
        match self.slots[slot] {
            Some(running) => running == id,
            None => false,
        }
    }

    /// Whether spawned work for `id` may be attached to `kind`; work for a
    /// superseded identity must be aborted instead.
    pub fn attach(&self, kind: OperationKind, id: OperationId) -> (accepted: bool)
        requires
            self.well_formed(),
        ensures
            accepted == (self@.dom().contains(kind) && self@[kind] == id),
    {
        self.is_current(kind, id)
    }

    /// Accept and retire a current completion; stale completions return false
    /// and change nothing.
    pub fn complete(&mut self, kind: OperationKind, id: OperationId) -> (accepted: bool)
        requires
            old(self).well_formed(),
        ensures
            final(self).well_formed(),
            accepted == (old(self)@.dom().contains(kind) && old(self)@[kind] == id),
            final(self)@ == (if accepted {
                old(self)@.remove(kind)
            } else {
                old(self)@
            }),
            final(self).last_issued() == old(self).last_issued(),
    {
        if !self.is_current(kind, id) {
            return false;
        }
        let slot = kind_slot(kind);
        self.slots.set(slot, None);
        proof {
            self.lemma_slots();
            old(self).lemma_slots();
            assert(self@ =~= old(self)@.remove(kind));
        }
        true
    }

    /// Retire the current operation of `kind`, returning it so its work can be cancelled.
    pub fn cancel(&mut self, kind: OperationKind) -> (cancelled: Option<OperationId>)
        requires
            old(self).well_formed(),
        ensures
            final(self).well_formed(),
            cancelled == (if old(self)@.dom().contains(kind) {
                Some(old(self)@[kind])
            } else {
                None::<OperationId>
            }),
            final(self)@ == old(self)@.remove(kind),
            final(self).last_issued() == old(self).last_issued(),
    {
        proof {
            old(self).lemma_slots();
        }
        let slot = kind_slot(kind);
        let cancelled = self.slots[slot];
        self.slots.set(slot, None);
        proof {
            self.lemma_slots();
            assert(self@ =~= old(self)@.remove(kind));
        }
        cancelled
    }

    /// Retire every current operation, returning each so its work can be cancelled.
    pub fn cancel_all(&mut self) -> (cancelled: Vec<(OperationKind, OperationId)>)
        requires
            old(self).well_formed(),
        ensures
            final(self).well_formed(),
            final(self)@ == Map::<OperationKind, OperationId>::empty(),
            final(self).last_issued() == old(self).last_issued(),
            forall|kind: OperationKind|
                #![trigger old(self)@.dom().contains(kind)]
                old(self)@.dom().contains(kind) ==> cancelled@.contains((kind, old(self)@[kind])),
            forall|i: int|
                0 <= i < cancelled@.len() ==> old(self)@.dom().contains(#[trigger] cancelled@[i].0)
                    && old(self)@[cancelled@[i].0] == cancelled@[i].1,
    {
        proof {
            old(self).lemma_slots();
        }
        let mut cancelled: Vec<(OperationKind, OperationId)> = Vec::new();
        let mut i: usize = 0;
        while i < KIND_COUNT
            invariant
                i <= KIND_COUNT,
                self.slots@.len() == KIND_COUNT,
                self.next_id == old(self).next_id,
                old(self).well_formed(),
                forall|k: int| 0 <= k < i ==> #[trigger] self.slots@[k] is None,
                forall|k: int| i <= k < KIND_COUNT ==> #[trigger] self.slots@[k] == old(self).slots@[k],
                forall|k: int| 0 <= k < i && #[trigger] old(self).slots@[k] is Some ==>
                    cancelled@.contains((kind_at(k), old(self).slots@[k]->Some_0)),
                forall|j: int| 0 <= j < cancelled@.len() ==> {
                    let entry = #[trigger] cancelled@[j];
                    old(self).slots@[slot_of(entry.0)] == Some(entry.1)
                },
            decreases KIND_COUNT - i,
        {
            let entry = self.slots[i];
            let ghost before = cancelled@;
            match entry {
                Some(id) => {
                    let kind = slot_kind(i);
                    cancelled.push((kind, id));
                    proof {
                        assert(cancelled@[cancelled@.len() - 1] == (kind, id));
                        assert forall|k: int| 0 <= k < i && #[trigger] old(self).slots@[k] is Some implies
                            cancelled@.contains((kind_at(k), old(self).slots@[k]->Some_0)) by {
                            let w = choose|w: int| 0 <= w < before.len() && before[w] == (kind_at(k), old(self).slots@[k]->Some_0);
                            assert(cancelled@[w] == before[w]);
                        }
                    }
                },
                None => {},
            }
            self.slots.set(i, None);
            i = i + 1;
        }
        proof {
            self.lemma_slots();
            assert(self@ =~= Map::<OperationKind, OperationId>::empty());
            assert forall|kind: OperationKind|
                #![trigger old(self)@.dom().contains(kind)]
                old(self)@.dom().contains(kind) implies cancelled@.contains((kind, old(self)@[kind])) by {
                assert(0 <= slot_of(kind) < KIND_COUNT);
                assert(old(self).slots@[slot_of(kind)] is Some);
            }
        }
        cancelled
    }
}

/// The family stored in a slot.
fn slot_kind(slot: usize) -> (kind: OperationKind)
    requires
        slot < KIND_COUNT,
    ensures
        kind == kind_at(slot as int),
        slot_of(kind) == slot as int,
{
    if slot == 0 {
        OperationKind::Playback
    } else if slot == 1 {
        OperationKind::Import
    } else if slot == 2 {
        OperationKind::Radio
    } else if slot == 3 {
        OperationKind::Details
    } else if slot == 4 {
        OperationKind::Thumbnail
    } else if slot == 5 {
        OperationKind::SearchThumbnail
    } else if slot == 6 {
        OperationKind::Search
    } else if slot == 7 {
        OperationKind::Prefetch
    } else if slot == 8 {
        OperationKind::Mix
    } else if slot == 9 {
        OperationKind::Session
    } else if slot == 10 {
        OperationKind::PlaybackRecovery
    } else if slot == 11 {
        OperationKind::ExternalCommand
    } else if slot == 12 {
        OperationKind::ChannelResolve
    } else {
        OperationKind::ChannelPage
    }
}

/// Starting an operation of a family supersedes the previous one of that
/// family: the previous identity is no longer current, the new one is, and
/// every other family keeps its current operation. This holds as long as
/// the identity counter has not wrapped past the previous identity.
pub proof fn lemma_restart_supersedes(
    before: Map<OperationKind, OperationId>,
    last_issued: u64,
    kind: OperationKind,
    previous: OperationId,
    other: OperationKind,
)
    requires
        before.dom().contains(kind),
        before[kind] == previous,
        previous.0 <= last_issued < u64::MAX,
        other != kind,
    ensures
        before.insert(kind, OperationId(next_identity(last_issued)))[kind] != previous,
        before.insert(kind, OperationId(next_identity(last_issued))).dom().contains(other)
            == before.dom().contains(other),
        before.dom().contains(other) ==> before.insert(
            kind,
            OperationId(next_identity(last_issued)),
        )[other] == before[other],
{
}

/// A completion is accepted at most once: after an accepted completion the
/// same identity is stale.
pub proof fn lemma_complete_once(before: Map<OperationKind, OperationId>, kind: OperationKind, id: OperationId)
    requires
        before.dom().contains(kind),
        before[kind] == id,
    ensures
        !(before.remove(kind).dom().contains(kind) && before.remove(kind)[kind] == id),
{
}

/// Fresh identities never equal the mirror placeholder.
pub proof fn lemma_fresh_identity_is_not_placeholder(last_issued: u64)
    ensures
        OperationId(next_identity(last_issued)) != OperationId(0),
{
}

} // verus!
