//! Play queue model: tracks in insertion order plus a play order over them.

use vstd::prelude::*;

use crate::media::Track;

verus! {

/// Repeat behavior at the end of a track or of the queue.
#[derive(PartialEq, Eq, Structural, Clone, Copy, Debug)]
pub enum RepeatMode {
    Off,
    Queue,
    Track,
}

/// The play queue. `order` lists indices into `tracks` in play order;
/// `position` is an index into `order`.
#[derive(Debug)]
pub struct Queue {
    pub tracks: Vec<Track>,
    pub order: Vec<usize>,
    pub position: Option<usize>,
    pub shuffle: bool,
    pub repeat: RepeatMode,
}

/// Why a queue was refused.
#[derive(PartialEq, Eq, Structural, Clone, Copy, Debug)]
pub enum QueueError {
    /// `order[order_index]` names a track index past the end of `tracks`.
    OrderEntryOutOfRange { order_index: usize, track_index: usize },
    /// `position` points past the end of `order`.
    PositionOutOfRange { position: usize },
}

/// Every play-order entry names an existing track.
pub open spec fn order_in_range(tracks_len: nat, order: Seq<usize>) -> bool {
    forall|i: int| 0 <= i < order.len() ==> #[trigger] order[i] < tracks_len
}

/// A queue that renderers and playback may index without guards.
pub open spec fn queue_valid(queue: Queue) -> bool {
    &&& order_in_range(queue.tracks@.len(), queue.order@)
    &&& match queue.position {
        Some(position) => position < queue.order@.len(),
        None => true,
    }
}

impl Queue {
    /// An empty queue with shuffle and repeat off.
    pub fn new() -> (queue: Queue)
        ensures
            queue.tracks@.len() == 0,
            queue.order@.len() == 0,
            queue.position is None,
            !queue.shuffle,
            queue.repeat == RepeatMode::Off,
            queue_valid(queue),
    {
        Queue {
            tracks: Vec::new(),
            order: Vec::new(),
            position: None,
            shuffle: false,
            repeat: RepeatMode::Off,
        }
    }

    /// Append a track at the end of the play order.
    pub fn push(&mut self, track: Track)
        requires
            old(self).tracks@.len() < usize::MAX,
        ensures
            final(self).tracks@ == old(self).tracks@.push(track),
            final(self).order@ == old(self).order@.push(old(self).tracks@.len() as usize),
            final(self).position == old(self).position,
            final(self).shuffle == old(self).shuffle,
            final(self).repeat == old(self).repeat,
            queue_valid(*old(self)) ==> queue_valid(*final(self)),
    {
        let index = self.tracks.len();
        self.tracks.push(track);
        self.order.push(index);
        proof {
            if queue_valid(*old(self)) {
                assert forall|i: int| 0 <= i < self.order@.len() implies #[trigger] self.order@[i]
                    < self.tracks@.len() by {
                    if i < old(self).order@.len() {
                        assert(old(self).order@[i] < old(self).tracks@.len());
                    }
                }
            }
        }
    }

    /// Check the indexing invariant renderers and playback rely on.
    pub fn validate(&self) -> (result: Result<(), QueueError>)
        ensures
            result is Ok <==> queue_valid(*self),
            result matches Err(QueueError::OrderEntryOutOfRange { order_index, track_index }) ==> {
                &&& order_index < self.order@.len()
                &&& self.order@[order_index as int] == track_index
                &&& track_index >= self.tracks@.len()
                &&& order_in_range(self.tracks@.len(), self.order@.take(order_index as int))
            },
            result matches Err(QueueError::PositionOutOfRange { position }) ==> {
                &&& order_in_range(self.tracks@.len(), self.order@)
                &&& self.position == Some(position)
                &&& position >= self.order@.len()
            },
    {
        let mut i: usize = 0;
        while i < self.order.len()
            invariant
                i <= self.order@.len(),
                order_in_range(self.tracks@.len(), self.order@.take(i as int)),
            decreases self.order@.len() - i,
        {
            if self.order[i] >= self.tracks.len() {
                return Err(QueueError::OrderEntryOutOfRange { order_index: i, track_index: self.order[i] });
            }
            proof {
                assert forall|k: int| 0 <= k < i + 1 implies #[trigger] self.order@.take(i + 1)[k]
                    < self.tracks@.len() by {
                    if k < i {
                        assert(self.order@.take(i as int)[k] == self.order@.take(i + 1)[k]);
                    }
                }
            }
            i = i + 1;
        }
        assert(self.order@.take(self.order@.len() as int) == self.order@);
        match self.position {
            Some(position) => {
                if position >= self.order.len() {
                    return Err(QueueError::PositionOutOfRange { position });
                }
            },
            None => {},
        }
        Ok(())
    }

    /// An exact copy of this queue.
    pub fn duplicate(&self) -> (copy: Queue)
        ensures
            copy.tracks@ == self.tracks@,
            copy.order@ == self.order@,
            copy.position == self.position,
            copy.shuffle == self.shuffle,
            copy.repeat == self.repeat,
    {
        Queue {
            tracks: crate::media::duplicate_tracks(self.tracks.as_slice()),
            order: self.order.clone(),
            position: self.position,
            shuffle: self.shuffle,
            repeat: self.repeat,
        }
    }

    /// The track at a play-order position, if that position and its entry exist.
    pub fn track_at(&self, order_index: usize) -> (track: Option<Track>)
        ensures
            track == (if order_index < self.order@.len() && self.order@[order_index as int]
                < self.tracks@.len() {
                Some(self.tracks@[self.order@[order_index as int] as int])
            } else {
                None
            }),
    {
        if order_index < self.order.len() {
            let index = self.order[order_index];
            if index < self.tracks.len() {
                return Some(self.tracks[index].duplicate());
            }
        }
        None
    }
}

} // verus!
