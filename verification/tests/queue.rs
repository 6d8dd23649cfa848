use breezer::player::queue::{pick_other_from_seed, pick_random_other, PlayQueue, RepeatMode};

#[derive(Debug, Clone, PartialEq)]
struct T(u64);

#[test]
fn nav() {
    let mut q = PlayQueue::new();
    q.set_tracks(vec![T(1), T(2), T(3)], 0);
    assert_eq!(q.current().unwrap().0, 1);
    assert_eq!(q.next().unwrap().0, 2);
    assert_eq!(q.next().unwrap().0, 3);
    assert_eq!(q.next().unwrap().0, 3); // clamped at end
    assert_eq!(q.prev().unwrap().0, 2);
    assert_eq!(q.index(), Some(1));
}

#[test]
fn clamp_start() {
    let mut q = PlayQueue::new();
    q.set_tracks(vec![T(9), T(8)], 99);
    assert_eq!(q.current().unwrap().0, 8);
}

#[test]
fn new_queue_is_empty() {
    let q: PlayQueue<T> = PlayQueue::new();
    assert!(q.is_empty());
    assert_eq!(q.len(), 0);
    assert_eq!(q.index(), None);
    assert!(q.current().is_none());
}

#[test]
fn default_queue_is_empty() {
    let q: PlayQueue<T> = PlayQueue::default();
    assert!(q.is_empty());
    assert_eq!(q.index(), None);
    assert!(q.tracks().is_empty());
}

#[test]
fn empty_tracks_leave_no_current() {
    let mut q: PlayQueue<T> = PlayQueue::new();
    q.set_tracks(vec![], 5);
    assert_eq!(q.index(), Some(0));
    assert!(q.current().is_none());
    assert!(q.next().is_none());
    assert!(q.prev().is_none());
    assert_eq!(q.index(), Some(0));
}

#[test]
fn prev_stays_at_start() {
    let mut q = PlayQueue::new();
    q.set_tracks(vec![T(1), T(2)], 0);
    assert_eq!(q.prev().unwrap().0, 1);
    assert_eq!(q.index(), Some(0));
}

#[test]
fn jump_to_clamps() {
    let mut q = PlayQueue::new();
    q.set_tracks(vec![T(1), T(2), T(3)], 0);
    assert_eq!(q.jump_to(1).unwrap().0, 2);
    assert_eq!(q.jump_to(40).unwrap().0, 3);
    assert_eq!(q.index(), Some(2));
    assert_eq!(q.tracks().len(), 3);
    assert_eq!(q.tracks()[0], T(1));
}

#[test]
fn repeat_cycle_and_numbers() {
    assert_eq!(RepeatMode::Off.cycle(), RepeatMode::All);
    assert_eq!(RepeatMode::All.cycle(), RepeatMode::One);
    assert_eq!(RepeatMode::One.cycle(), RepeatMode::Off);
    assert_eq!(RepeatMode::Off.as_i32(), 0);
    assert_eq!(RepeatMode::All.as_i32(), 1);
    assert_eq!(RepeatMode::One.as_i32(), 2);
    // Three presses of the repeat button bring the mode back.
    for m in [RepeatMode::Off, RepeatMode::All, RepeatMode::One] {
        assert_eq!(m.cycle().cycle().cycle(), m);
    }
}

#[test]
fn shuffle_pick_from_seed_is_exact() {
    // xorshift32 of (0 ^ 0) | 1 = 1 is 270369; 270369 % 4 = 1; 1 >= 0 so 2.
    assert_eq!(pick_other_from_seed(0, 0, 5), 2);
    // Always another index of the queue.
    for seed in 0..200u32 {
        for len in 2..7usize {
            for cur in 0..len {
                let p = pick_other_from_seed(seed.wrapping_mul(2654435761), cur, len);
                assert!(p < len);
                assert_ne!(p, cur);
            }
        }
    }
}

#[test]
fn shuffle_pick_random_is_another_index() {
    for _ in 0..50 {
        let p = pick_random_other(1, 3);
        assert!(p == 0 || p == 2);
    }
}

#[test]
fn advance_plain_moves_forward_and_stops() {
    let mut q = PlayQueue::new();
    q.set_tracks(vec![T(1), T(2)], 0);
    assert_eq!(q.advance_with_seed(false, RepeatMode::Off, false, 7).unwrap().0, 2);
    assert!(q.advance_with_seed(false, RepeatMode::Off, false, 7).is_none());
    assert_eq!(q.index(), Some(1));
}

#[test]
fn advance_repeat_all_wraps() {
    let mut q = PlayQueue::new();
    q.set_tracks(vec![T(1), T(2)], 1);
    assert_eq!(q.advance_with_seed(false, RepeatMode::All, false, 7).unwrap().0, 1);
    assert_eq!(q.index(), Some(0));
}

#[test]
fn advance_repeat_one_replays_unless_manual() {
    let mut q = PlayQueue::new();
    q.set_tracks(vec![T(1), T(2)], 0);
    assert_eq!(q.advance_with_seed(false, RepeatMode::One, false, 7).unwrap().0, 1);
    assert_eq!(q.advance_with_seed(false, RepeatMode::One, true, 7).unwrap().0, 2);
}

#[test]
fn advance_shuffle_picks_another_track() {
    let mut q = PlayQueue::new();
    q.set_tracks(vec![T(1), T(2), T(3), T(4), T(5)], 0);
    assert_eq!(q.advance_with_seed(true, RepeatMode::Off, false, 0).unwrap().0, 3);
    for _ in 0..20 {
        let before = q.index().unwrap();
        q.advance(true, RepeatMode::Off, false);
        assert_ne!(q.index().unwrap(), before);
    }
}

#[test]
fn advance_empty_queue_is_none() {
    let mut q: PlayQueue<T> = PlayQueue::new();
    assert!(q.advance(true, RepeatMode::All, false).is_none());
    assert_eq!(q.index(), None);
}

#[test]
fn advance_single_track_with_shuffle_moves_like_next() {
    let mut q = PlayQueue::new();
    q.set_tracks(vec![T(1)], 0);
    assert!(q.advance(true, RepeatMode::Off, false).is_none());
    assert_eq!(q.advance(true, RepeatMode::All, false).unwrap().0, 1);
}

#[test]
fn clone_keeps_items_and_position() {
    let mut q = PlayQueue::new();
    q.set_tracks(vec![T(1), T(2)], 1);
    let c = q.clone();
    assert_eq!(c.index(), Some(1));
    assert_eq!(c.current().unwrap().0, 2);
}

#[test]
fn cursor_stays_inside_the_queue() {
    let mut q = PlayQueue::new();
    q.set_tracks(vec![T(1), T(2)], 1);
    q.next();
    q.next();
    assert_eq!(q.index(), Some(1));
    assert!(q.current().is_some());
    q.set_tracks(vec![], 3);
    assert_eq!(q.index(), Some(0));
    assert!(q.current().is_none());
}
