//! Playback queue with next/previous navigation, shuffle and repeat.
//!
//! Generic over the item type so both API models and UI track cards can be
//! queued.

use std::collections::VecDeque;
use std::time::{Duration, SystemTime, SystemTimeError, UNIX_EPOCH};
use vstd::prelude::*;

verus! {

/// `min(i, len - 1)` with `len - 1` saturating at zero: the position that a
/// requested index lands on in a queue of `len` items.
pub open spec fn clamp_to_queue(i: int, len: int) -> int {
    if len == 0 {
        0
    } else if i < len - 1 {
        i
    } else {
        len - 1
    }
}

/// Repeat mode of the player (Deezer-style): off, whole queue, single track.
#[derive(Debug, Clone, Copy, PartialEq, Eq, Structural)]
pub enum RepeatMode {
    Off,
    All,
    One,
}

impl RepeatMode {
    /// Cycle Off -> All -> One -> Off (the Deezer repeat button behaviour).
    pub fn cycle(&self) -> (r: RepeatMode)
        ensures
            r == (match *self {
                RepeatMode::Off => RepeatMode::All,
                RepeatMode::All => RepeatMode::One,
                RepeatMode::One => RepeatMode::Off,
            }),
    {
        match self {
            RepeatMode::Off => RepeatMode::All,
            RepeatMode::All => RepeatMode::One,
            RepeatMode::One => RepeatMode::Off,
        }
    }

    /// The number the UI shows for the mode: 0 off, 1 all, 2 one.
    pub fn as_i32(&self) -> (r: i32)
        ensures
            r == (match *self {
                RepeatMode::Off => 0i32,
                RepeatMode::All => 1i32,
                RepeatMode::One => 2i32,
            }),
    {
        match self {
            RepeatMode::Off => 0,
            RepeatMode::All => 1,
            RepeatMode::One => 2,
        }
    }
}

/// Three cycles of the repeat button bring the mode back.
pub proof fn lemma_repeat_cycle_period(m: RepeatMode)
    ensures
        ({
            let a = match m {
                RepeatMode::Off => RepeatMode::All,
                RepeatMode::All => RepeatMode::One,
                RepeatMode::One => RepeatMode::Off,
            };
            let b = match a {
                RepeatMode::Off => RepeatMode::All,
                RepeatMode::All => RepeatMode::One,
                RepeatMode::One => RepeatMode::Off,
            };
            let c = match b {
                RepeatMode::Off => RepeatMode::All,
                RepeatMode::All => RepeatMode::One,
                RepeatMode::One => RepeatMode::Off,
            };
            c == m
        }),
{
}

/// The golden-ratio constant that spreads the current index over the seed.
pub const SHUFFLE_MIX: u32 = 0x9e3779b9u32;

/// One round of the xorshift32 generator (shifts 13, 17, 5).
pub open spec fn xorshift32(x: u32) -> u32 {
    let a = x ^ ((x << 13u32) as u32);
    let b = a ^ (a >> 17u32);
    b ^ ((b << 5u32) as u32)
}

/// The generator state for a seed and the current index (odd, hence nonzero).
pub open spec fn shuffle_state(seed: u32, current: usize) -> u32 {
    (seed ^ (current as u32).wrapping_mul(SHUFFLE_MIX)) | 1u32
}

/// The index that shuffle picks: a draw among the `len - 1` other positions,
/// shifted past `current`.
pub open spec fn shuffle_pick(seed: u32, current: usize, len: usize) -> int {
    let pick = (xorshift32(shuffle_state(seed, current)) as int) % (len - 1);
    if pick >= current {
        pick + 1
    } else {
        pick
    }
}

/// Whatever the seed, the shuffle pick is another position of the queue.
pub proof fn lemma_shuffle_pick_other(seed: u32, current: usize, len: usize)
    requires
        len > 1,
    ensures
        shuffle_pick(seed, current, len) != current,
        0 <= shuffle_pick(seed, current, len) < len,
{
}

/// Pick a queued index different from `current`, from the given seed.
pub fn pick_other_from_seed(seed: u32, current: usize, len: usize) -> (r: usize)
    requires
        len > 1,
    ensures
        r == shuffle_pick(seed, current, len),
        r != current,
        r < len,
{
    let mut x: u32 = (seed ^ (current as u32).wrapping_mul(SHUFFLE_MIX)) | 1;
    x = x ^ (x << 13u32);
    x = x ^ (x >> 17u32);
    x = x ^ (x << 5u32);
    let pick = (x as usize) % (len - 1);
    if pick >= current {
        pick + 1
    } else {
        pick
    }
}

#[verifier::external_type_specification]
#[verifier::external_body]
pub struct ExSystemTime(SystemTime);

#[verifier::external_type_specification]
#[verifier::external_body]
pub struct ExSystemTimeError(SystemTimeError);

/// `SystemTime::now` (std): the wall clock. Its value depends on the time of
/// the call, so nothing is claimed of it.
#[verifier::external_body]
fn clock_now() -> SystemTime {
    SystemTime::now()
}

/// `SystemTime::duration_since(UNIX_EPOCH)` (std): the time elapsed since
/// the epoch, an error when the clock is before it. Which of the two comes
/// back depends on the clock, so nothing is claimed of it.
#[verifier::external_body]
fn since_epoch(t: &SystemTime) -> Result<Duration, SystemTimeError> {
    t.duration_since(UNIX_EPOCH)
}

/// `Duration::subsec_nanos` (std): the fractional part of a duration in
/// nanoseconds, which its documentation bounds below one billion.
#[verifier::external_body]
fn duration_subsec_nanos(d: &Duration) -> (r: u32)
    ensures
        r < 1_000_000_000,
{
    d.subsec_nanos()
}

/// A seed for shuffling, taken from the wall clock: the sub-second
/// nanoseconds, or [`SHUFFLE_MIX`] when the clock is before the epoch.
fn shuffle_seed() -> (r: u32)
    ensures
        r < 1_000_000_000 || r == SHUFFLE_MIX,
{
    let now = clock_now();
    match since_epoch(&now) {
        Ok(d) => duration_subsec_nanos(&d),
        Err(_) => SHUFFLE_MIX,
    }
}

/// Tiny xorshift32 PRNG seeded by the clock: picks a random queued index
/// different from `current` (playlist "shuffle next").
pub fn pick_random_other(current: usize, len: usize) -> (r: usize)
    requires
        len > 1,
    ensures
        r != current,
        r < len,
{
    pick_other_from_seed(shuffle_seed(), current, len)
}

/// Navigation law: inside the queue, a step forward then a step back lands
/// on the same position, and so does a step back then a step forward.
pub proof fn lemma_next_prev_inverse(i: int, len: int)
    requires
        0 <= i < len,
    ensures
        i + 1 < len ==> ({
            let j = clamp_to_queue(i + 1, len);
            (if j == 0 { 0 } else { j - 1 }) == i
        }),
        i > 0 ==> clamp_to_queue((i - 1) + 1, len) == i,
{
}

/// A simple FIFO queue of tracks with a current index.
#[derive(Debug)]
pub struct PlayQueue<T> {
    tracks: VecDeque<T>,
    index: Option<usize>,
}

impl<T> PlayQueue<T> {
    /// The queued items, in order.
    pub closed spec fn items(&self) -> Seq<T> {
        self.tracks@
    }

    /// The current position, `None` before any track was set.
    pub closed spec fn cursor(&self) -> Option<usize> {
        self.index
    }

    /// The index is either zero (possibly in an empty queue) or in bounds.
    #[verifier::type_invariant]
    closed spec fn well_formed(&self) -> bool {
        self.index matches Some(i) ==> (i == 0 || i < self.tracks@.len())
    }

    /// Index law: a set cursor lies inside the queue, or is zero while the
    /// queue is empty.
    pub open spec fn cursor_in_queue(&self) -> bool {
        self.cursor() matches Some(i) ==> (i == 0 || i < self.items().len())
    }

    /// The item under the cursor, if the cursor points into the queue.
    pub open spec fn current_item(&self) -> Option<&T> {
        match self.cursor() {
            Some(i) => if i < self.items().len() {
                Some(&self.items()[i as int])
            } else {
                None
            },
            None => None,
        }
    }
}

impl<T: Clone> Clone for PlayQueue<T> {
    /// A queue of clones of the items, at the same position.
    fn clone(&self) -> (c: Self)
        ensures
            c.items().len() == self.items().len(),
            c.cursor() == self.cursor(),
            forall|i: int| 0 <= i < self.items().len() ==> cloned::<T>(self.items()[i], #[trigger] c.items()[i]),
    {
        proof {
            use_type_invariant(self);
        }
        PlayQueue { tracks: self.tracks.clone(), index: self.index }
    }
}

impl<T> Default for PlayQueue<T> {
    /// An empty queue with no current track.
    fn default() -> (q: Self)
        ensures
            q.items().len() == 0,
            q.cursor() is None,
    {
        PlayQueue { tracks: VecDeque::new(), index: None }
    }
}

/// A deque holding the vector's elements in the same order.
fn deque_from_vec<T>(v: Vec<T>) -> (d: VecDeque<T>)
    ensures
        d@ == v@,
{
    let ghost all = v@;
    let mut v = v;
    let mut d: VecDeque<T> = VecDeque::new();
    assert(all =~= v@ + d@);
    while v.len() > 0
        invariant
            all == v@ + d@,
        decreases v.len(),
    {
        let ghost rest = v@;
        match v.pop() {
            Some(x) => {
                d.push_front(x);
                assert(all =~= v@ + d@) by {
                    assert(rest =~= v@.push(x));
                }
            },
            None => {},
        }
    }
    assert(all =~= d@);
    d
}

impl<T: Clone> PlayQueue<T> {
    /// An empty queue with no current track.
    pub fn new() -> (q: Self)
        ensures
            q.items().len() == 0,
            q.cursor() is None,
    {
        PlayQueue { tracks: VecDeque::new(), index: None }
    }

    /// Replace the whole queue (e.g. search results / playlist) and start at
    /// `start_at` (clamped to the queue bounds).
    pub fn set_tracks(&mut self, tracks: Vec<T>, start_at: usize)
        ensures
            final(self).cursor_in_queue(),
            final(self).items() == tracks@,
            final(self).cursor() == Some(clamp_to_queue(start_at as int, tracks@.len() as int) as usize),
    {
        let tracks = deque_from_vec(tracks);
        let last = if tracks.len() == 0 { 0 } else { tracks.len() - 1 };
        let index = if start_at < last { start_at } else { last };
        *self = PlayQueue { tracks, index: Some(index) };
    }

    pub fn is_empty(&self) -> (b: bool)
        ensures
            b == (self.items().len() == 0),
    {
        self.tracks.len() == 0
    }

    pub fn len(&self) -> (n: usize)
        ensures
            n == self.items().len(),
    {
        self.tracks.len()
    }

    /// The track under the cursor, `None` when there is none.
    pub fn current(&self) -> (r: Option<&T>)
        ensures
            r == self.current_item(),
            self.cursor_in_queue(),
            r is Some <==> (self.cursor() is Some && self.items().len() > 0),
    {
        proof {
            use_type_invariant(self);
        }
        match self.index {
            Some(i) => if i < self.tracks.len() {
                Some(&self.tracks[i])
            } else {
                None
            },
            None => None,
        }
    }

    pub fn index(&self) -> (r: Option<usize>)
        ensures
            r == self.cursor(),
            self.cursor_in_queue(),
    {
        proof {
            use_type_invariant(self);
        }
        self.index
    }

    /// Move one track forward, staying on the last one at the end.
    pub fn next(&mut self) -> (r: Option<&T>)
        ensures
            final(self).cursor_in_queue(),
            final(self).items() == old(self).items(),
            final(self).cursor() == (match old(self).cursor() {
                Some(i) => Some(clamp_to_queue(i + 1, old(self).items().len() as int) as usize),
                None => None,
            }),
            r == final(self).current_item(),
    {
        proof {
            use_type_invariant(&*self);
        }
        let len = self.tracks.len();
        let last = if len == 0 { 0 } else { len - 1 };
        let index = match self.index {
            Some(i) => Some(if i + 1 < last { i + 1 } else { last }),
            None => None,
        };
        self.index = index;
        self.current()
    }

    /// Jump to a specific index (used by shuffle). Clamped to the queue bounds.
    pub fn jump_to(&mut self, i: usize) -> (r: Option<&T>)
        ensures
            final(self).cursor_in_queue(),
            final(self).items() == old(self).items(),
            final(self).cursor() == Some(clamp_to_queue(i as int, old(self).items().len() as int) as usize),
            r == final(self).current_item(),
    {
        let len = self.tracks.len();
        let last = if len == 0 { 0 } else { len - 1 };
        self.index = Some(if i < last { i } else { last });
        self.current()
    }

    /// Move one track back, staying on the first one at the start.
    pub fn prev(&mut self) -> (r: Option<&T>)
        ensures
            final(self).cursor_in_queue(),
            final(self).items() == old(self).items(),
            final(self).cursor() == (match old(self).cursor() {
                Some(i) => Some(if i == 0 { 0usize } else { (i - 1) as usize }),
                None => None,
            }),
            r == final(self).current_item(),
    {
        proof {
            use_type_invariant(&*self);
        }
        self.index = match self.index {
            Some(i) => Some(if i == 0 { 0 } else { i - 1 }),
            None => None,
        };
        self.current()
    }

    /// Advance to the next queued track respecting shuffle / repeat
    /// preferences, drawing the shuffle pick from `seed`. `ignore_one` is set
    /// when the user explicitly pressed "next" (with repeat "one", manual next
    /// still moves to the following track). Returns the track to play, or
    /// `None` at the end of the queue.
    pub fn advance_with_seed(&mut self, shuffle: bool, repeat: RepeatMode, ignore_one: bool, seed: u32) -> (r: Option<&T>)
        ensures
            final(self).cursor_in_queue(),
            final(self).items() == old(self).items(),
            ({
                let len = old(self).items().len();
                let cur = old(self).cursor();
                let from = match cur { Some(i) => i, None => 0usize };
                if len == 0 {
                    final(self).cursor() == cur && r is None
                } else if shuffle && len > 1 {
                    final(self).cursor() == Some(shuffle_pick(seed, from, len as usize) as usize)
                        && r == final(self).current_item()
                } else if repeat == RepeatMode::One && !ignore_one {
                    final(self).cursor() == cur && r == final(self).current_item()
                } else if cur == Some((len - 1) as usize) {
                    if repeat == RepeatMode::All {
                        final(self).cursor() == Some(0usize) && r == final(self).current_item()
                    } else {
                        final(self).cursor() == cur && r is None
                    }
                } else {
                    final(self).cursor() == (match cur {
                        Some(i) => Some(clamp_to_queue(i + 1, len as int) as usize),
                        None => None,
                    }) && r == final(self).current_item()
                }
            }),
    {
        proof {
            use_type_invariant(&*self);
        }
        let len = self.tracks.len();
        if len == 0 {
            None
        } else if shuffle && len > 1 {
            let cur = match self.index {
                Some(i) => i,
                None => 0,
            };
            let target = pick_other_from_seed(seed, cur, len);
            self.jump_to(target)
        } else if repeat == RepeatMode::One && !ignore_one {
            self.current()
        } else if self.index == Some(len - 1) {
            if repeat == RepeatMode::All {
                self.jump_to(0)
            } else {
                None
            }
        } else {
            self.next()
        }
    }

    /// Advance to the next queued track, drawing shuffle picks from the clock.
    /// With shuffle on and more than one track, the new position differs from
    /// the old one; otherwise the outcome is that of `advance_with_seed`.
    pub fn advance(&mut self, shuffle: bool, repeat: RepeatMode, ignore_one: bool) -> (r: Option<&T>)
        ensures
            final(self).cursor_in_queue(),
            final(self).items() == old(self).items(),
            ({
                let len = old(self).items().len();
                let cur = old(self).cursor();
                let from = match cur { Some(i) => i, None => 0usize };
                if len == 0 {
                    final(self).cursor() == cur && r is None
                } else if shuffle && len > 1 {
                    (final(self).cursor() matches Some(j) && j != from && j < len)
                        && r == final(self).current_item()
                } else if repeat == RepeatMode::One && !ignore_one {
                    final(self).cursor() == cur && r == final(self).current_item()
                } else if cur == Some((len - 1) as usize) {
                    if repeat == RepeatMode::All {
                        final(self).cursor() == Some(0usize) && r == final(self).current_item()
                    } else {
                        final(self).cursor() == cur && r is None
                    }
                } else {
                    final(self).cursor() == (match cur {
                        Some(i) => Some(clamp_to_queue(i + 1, len as int) as usize),
                        None => None,
                    }) && r == final(self).current_item()
                }
            }),
    {
        let seed = shuffle_seed();
        let len = self.tracks.len();
        proof {
            let from = match self.cursor() { Some(i) => i, None => 0usize };
            if len > 1 {
                lemma_shuffle_pick_other(seed, from, len);
            }
        }
        self.advance_with_seed(shuffle, repeat, ignore_one, seed)
    }

    /// All queued items (borrowed).
    pub fn tracks(&self) -> (r: &VecDeque<T>)
        ensures
            r@ == self.items(),
    {
        &self.tracks
    }
}

} // verus!
