//! Work that follows the start of a track: refilling the queue in radio mode
//! and prefetching the stream of the next track in play order.

use vstd::prelude::*;

use crate::media::Track;
use crate::queue::{queue_valid, Queue, RepeatMode};

verus! {

/// What to start after a track started playing.
pub struct FollowUp {
    /// Fetch more radio tracks seeded by this video id.
    pub refill_seed: Option<String>,
    /// Resolve this track's stream ahead of time.
    pub prefetch: Option<Track>,
}

/// The play-order position that follows `position`: the next one, or the
/// first when the whole queue repeats.
pub open spec fn next_position(queue: Queue, position: usize) -> Option<int> {
    if position + 1 < queue.order@.len() {
        Some(position + 1)
    } else if queue.repeat == RepeatMode::Queue && queue.order@.len() > 0 {
        Some(0)
    } else {
        None
    }
}

/// The track to prefetch after a track started at `position`, unless it is
/// already prefetched. Repeating one track needs no prefetch.
pub open spec fn prefetch_target(queue: Queue, position: usize, prefetched_id: Option<Seq<char>>) -> Option<Track> {
    if queue.repeat == RepeatMode::Track {
        None
    } else {
        match next_position(queue, position) {
            Some(next) => {
                let track = queue.tracks@[queue.order@[next] as int];
                if prefetched_id == Some(track.id@) {
                    None
                } else {
                    Some(track)
                }
            },
            None => None,
        }
    }
}

/// Plan the follow-up work once a track started. In radio mode, reaching the
/// last queue position asks for more tracks seeded by the current one, unless
/// a refill is already running. The next track's stream is prefetched unless
/// it already was.
pub fn plan_after_track_started(
    queue: &Queue,
    radio: bool,
    radio_fetching: bool,
    current_track: Option<&Track>,
    prefetched_id: Option<&String>,
) -> (plan: FollowUp)
    requires
        queue_valid(*queue),
    ensures
        match queue.position {
            None => plan.refill_seed is None && plan.prefetch is None,
            Some(position) => {
                &&& match plan.refill_seed {
                    Some(seed) => {
                        &&& radio && position + 1 >= queue.order@.len() && !radio_fetching
                        &&& current_track matches Some(t) && seed@ == t.id@
                    },
                    None => !(radio && position + 1 >= queue.order@.len() && !radio_fetching
                        && current_track is Some),
                }
                &&& plan.prefetch == prefetch_target(*queue, position, match prefetched_id {
                    Some(id) => Some(id@),
                    None => None,
                })
            },
        },
{
    let len = queue.order.len();
    let position = match queue.position {
        Some(position) => position,
        None => return FollowUp { refill_seed: None, prefetch: None },
    };
    let refill_seed = if radio && position + 1 >= len && !radio_fetching {
        match current_track {
            Some(track) => Some(track.id.clone()),
            None => None,
        }
    } else {
        None
    };
    if queue.repeat == RepeatMode::Track {
        return FollowUp { refill_seed, prefetch: None };
    }
    let next = if position + 1 < len {
        Some(position + 1)
    } else if queue.repeat == RepeatMode::Queue && len > 0 {
        Some(0)
    } else {
        None
    };
    let prefetch = match next {
        Some(next) => {
            let track = &queue.tracks[queue.order[next]];
            let already = match prefetched_id {
                Some(id) => track.id == *id,
                None => false,
            };
            if already {
                None
            } else {
                Some(track.duplicate())
            }
        },
        None => None,
    };
    FollowUp { refill_seed, prefetch }
}

/// The prefetched track is never the one that just started unless the whole
/// queue repeats and it is the only entry; it is always the next entry in
/// play order.
pub proof fn lemma_prefetch_follows_play_order(queue: Queue, position: usize, prefetched_id: Option<Seq<char>>)
    requires
        queue_valid(queue),
        queue.position == Some(position),
        prefetch_target(queue, position, prefetched_id) is Some,
    ensures
        next_position(queue, position) matches Some(next) && {
            &&& 0 <= next < queue.order@.len()
            &&& (next == 0 && position + 1 == queue.order@.len() && queue.repeat == RepeatMode::Queue) || next
                == position + 1
            &&& prefetch_target(queue, position, prefetched_id) == Some(queue.tracks@[queue.order@[next] as int])
        },
{
}

/// Longest a prefetched stream URL is trusted, in seconds.
pub const PREFETCH_MAX_AGE_SECS: u64 = 2 * 3600;

/// A stream URL resolved ahead of time for a video.
pub struct Prefetched {
    pub track_id: String,
    pub url: String,
    /// Seconds since it was resolved.
    pub age_secs: u64,
}

/// How to start playing a queue position.
pub struct ResolvePlan {
    pub track: Track,
    /// A fresh prefetched URL for this very track, used instead of resolving.
    pub ready_url: Option<String>,
    /// Notification shown while resolving.
    pub notice: String,
}

/// Plan the resolution of the track at play-order `position`. A prefetched
/// URL is used only for the same video and only while fresh; it is consumed
/// either way.
pub fn plan_resolution(queue: &Queue, position: usize, prefetched: Option<Prefetched>) -> (plan: Option<ResolvePlan>)
    ensures
        match plan {
            Some(p) => {
                &&& position < queue.order@.len()
                &&& queue.order@[position as int] < queue.tracks@.len()
                &&& p.track == queue.tracks@[queue.order@[position as int] as int]
                &&& p.notice@ == "Resolving: "@ + p.track.title@
                &&& p.ready_url == match prefetched {
                    Some(f) => if f.track_id@ == p.track.id@ && f.age_secs < PREFETCH_MAX_AGE_SECS {
                        Some(f.url)
                    } else {
                        None
                    },
                    None => None,
                }
            },
            None => !(position < queue.order@.len() && queue.order@[position as int] < queue.tracks@.len()),
        },
{
    if position >= queue.order.len() {
        return None;
    }
    let index = queue.order[position];
    if index >= queue.tracks.len() {
        return None;
    }
    let track = queue.tracks[index].duplicate();
    let ready_url = match prefetched {
        Some(f) => if f.track_id == track.id && f.age_secs < PREFETCH_MAX_AGE_SECS {
            Some(f.url)
        } else {
            None
        },
        None => None,
    };
    proof {
        reveal_strlit("Resolving: ");
    }
    let notice = String::from_str("Resolving: ").concat(track.title.as_str());
    Some(ResolvePlan { track, ready_url, notice })
}

} // verus!
