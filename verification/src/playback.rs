//! Application-level playback queue state.

use vstd::prelude::*;

verus! {

/// One entry of a playback queue.
#[derive(Debug, Clone, PartialEq, Eq)]
pub struct PlaylistItem {
    pub bvid: String,
    pub aid: i64,
    pub cid: Option<i64>,
    pub title: String,
    pub uploader_mid: Option<i64>,
    pub duration: Option<i64>,
    pub page: Option<i32>,
}

/// The order in which a queue is walked.
#[derive(Debug, Clone, Copy, PartialEq, Eq, Structural)]
pub enum PlayOrder {
    Forward,
    Reverse,
    Shuffle,
}

impl Default for PlayOrder {
    fn default() -> (r: PlayOrder)
        ensures
            r == PlayOrder::Forward,
    {
        PlayOrder::Forward
    }
}

/// Where the items of a queue came from.
#[derive(Debug, Clone, PartialEq, Eq)]
pub enum PlaylistSource {
    Manual,
    Uploader { mid: i64, name: String },
    Favorites { media_id: i64, title: String },
}

/// What the player is doing with the current queue entry.
#[derive(Debug, Clone, Copy, PartialEq, Eq, Structural)]
pub enum PlaybackStatus {
    Idle,
    Starting,
    Playing,
    Paused,
    Failed,
    Finished,
}

impl Default for PlaybackStatus {
    fn default() -> (r: PlaybackStatus)
        ensures
            r == PlaybackStatus::Idle,
    {
        PlaybackStatus::Idle
    }
}

/// Events that the player reports back to the application.
#[derive(Debug, Clone, PartialEq, Eq)]
pub enum PlaybackEvent {
    Finished { bvid: String },
}

/// The playback queue and the position in it.
#[derive(Debug)]
pub struct PlaybackState {
    pub queue: Vec<PlaylistItem>,
    pub current_index: Option<usize>,
    pub order: PlayOrder,
    pub source: Option<PlaylistSource>,
    pub status: PlaybackStatus,
    pub last_error: Option<String>,
}

impl Default for PlaybackState {
    fn default() -> (r: PlaybackState)
        ensures
            r.queue@.len() == 0,
            r.current_index is None,
            r.order == PlayOrder::Forward,
            r.source is None,
            r.status == PlaybackStatus::Idle,
            r.last_error is None,
    {
        PlaybackState {
            queue: Vec::new(),
            current_index: None,
            order: PlayOrder::Forward,
            source: None,
            status: PlaybackStatus::Idle,
            last_error: None,
        }
    }
}

/// The index that follows `current` in a queue of `len` items walked in `order`,
/// or `None` when the walk is over.
pub open spec fn next_index(order: PlayOrder, current: usize, len: nat) -> Option<usize> {
    match order {
        PlayOrder::Forward => if current + 1 < len {
            Some((current + 1) as usize)
        } else {
            None
        },
        PlayOrder::Reverse => if current >= 1 {
            Some((current - 1) as usize)
        } else {
            None
        },
        PlayOrder::Shuffle => None,
    }
}

impl PlaybackState {
    /// The position, when there is one, points into the queue.
    pub open spec fn position_in_queue(&self) -> bool {
        self.current_index matches Some(i) ==> i < self.queue@.len()
    }

    /// Replaces the queue, rewinds to its first entry and clears any error.
    pub fn replace_queue(&mut self, source: PlaylistSource, items: Vec<PlaylistItem>)
        ensures
            final(self).queue@ == items@,
            final(self).source == Some(source),
            final(self).current_index == (if items@.len() > 0 {
                Some(0usize)
            } else {
                None
            }),
            final(self).status == PlaybackStatus::Idle,
            final(self).last_error is None,
            final(self).order == old(self).order,
            final(self).position_in_queue(),
    {
        self.queue = items;
        self.source = Some(source);
        self.current_index = if self.queue.len() > 0 {
            Some(0)
        } else {
            None
        };
        self.status = PlaybackStatus::Idle;
        self.last_error = None;
    }

    /// Jumps to `index` when it lies inside the queue; otherwise changes nothing.
    pub fn play_from(&mut self, index: usize) -> (moved: bool)
        ensures
            moved == (index < old(self).queue@.len()),
            moved ==> {
                &&& final(self).current_index == Some(index)
                &&& final(self).status == PlaybackStatus::Starting
                &&& final(self).last_error is None
                &&& final(self).queue == old(self).queue
                &&& final(self).order == old(self).order
                &&& final(self).source == old(self).source
            },
            !moved ==> *final(self) == *old(self),
            old(self).position_in_queue() ==> final(self).position_in_queue(),
    {
        if index >= self.queue.len() {
            return false;
        }
        self.current_index = Some(index);
        self.status = PlaybackStatus::Starting;
        self.last_error = None;
        true
    }

    /// Moves to the next entry in the queue's order. When there is none the
    /// queue is marked finished and `false` is returned.
    pub fn advance(&mut self) -> (moved: bool)
        ensures
            old(self).current_index is None ==> !moved && *final(self) == *old(self),
            old(self).current_index matches Some(current) ==> {
                let next = next_index(old(self).order, current, old(self).queue@.len());
                &&& moved == next is Some
                &&& moved ==> final(self).current_index == next
                    && final(self).status == PlaybackStatus::Starting
                &&& !moved ==> final(self).current_index == old(self).current_index
                    && final(self).status == PlaybackStatus::Finished
                &&& final(self).queue == old(self).queue
                &&& final(self).order == old(self).order
                &&& final(self).source == old(self).source
                &&& final(self).last_error == old(self).last_error
            },
            old(self).position_in_queue() ==> final(self).position_in_queue(),
    {
        let current = match self.current_index {
            Some(current) => current,
            None => return false,
        };
        let len = self.queue.len();
        let next = match self.order {
            PlayOrder::Forward => {
                if current < usize::MAX && current + 1 < len {
                    Some(current + 1)
                } else {
                    None
                }
            },
            PlayOrder::Reverse => {
                if current >= 1 {
                    Some(current - 1)
                } else {
                    None
                }
            },
            PlayOrder::Shuffle => None,
        };
        match next {
            Some(next) => {
                self.current_index = Some(next);
                self.status = PlaybackStatus::Starting;
                true
            },
            None => {
                self.status = PlaybackStatus::Finished;
                false
            },
        }
    }
}

} // verus!

verus! {

/// The position reached from `start` after `k` advances through a queue of
/// `len` entries walked in `order`, or `None` once the walk has finished.
pub open spec fn position_after(order: PlayOrder, start: usize, len: nat, k: nat) -> Option<usize>
    decreases k,
{
    if k == 0 {
        Some(start)
    } else {
        match position_after(order, start, len, (k - 1) as nat) {
            Some(c) => next_index(order, c, len),
            None => None,
        }
    }
}

/// Walking forward from any entry visits every later entry once, in queue
/// order, and the walk is over after the last one.
pub proof fn forward_walk_visits_rest_of_queue(start: usize, len: nat, k: nat)
    requires
        start < len,
        len <= usize::MAX,
    ensures
        start + k < len ==> position_after(PlayOrder::Forward, start, len, k) == Some((start + k) as usize),
        start + k >= len ==> position_after(PlayOrder::Forward, start, len, k) is None,
    decreases k,
{
    if k > 0 {
        forward_walk_visits_rest_of_queue(start, len, (k - 1) as nat);
    }
}

/// Walking in reverse from an entry visits every earlier entry once, back to
/// the first, and the walk is over after it.
pub proof fn reverse_walk_visits_earlier_entries(start: usize, len: nat, k: nat)
    requires
        start < len,
    ensures
        k <= start ==> position_after(PlayOrder::Reverse, start, len, k) == Some((start - k) as usize),
        k > start ==> position_after(PlayOrder::Reverse, start, len, k) is None,
    decreases k,
{
    if k > 0 {
        reverse_walk_visits_earlier_entries(start, len, (k - 1) as nat);
    }
}

/// A shuffled queue does not advance by itself: the first advance finishes it.
pub proof fn shuffle_walk_finishes_at_once(start: usize, len: nat, k: nat)
    requires
        k >= 1,
    ensures
        position_after(PlayOrder::Shuffle, start, len, k) is None,
    decreases k,
{
    if k > 1 {
        shuffle_walk_finishes_at_once(start, len, (k - 1) as nat);
    }
}

} // verus!
