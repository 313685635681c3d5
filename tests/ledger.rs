use soar::error::SoarError;
use soar::key::Key;
use soar::ledger::PlayerScoresList;
use soar::score::ScoreEntry;

fn key(b: u8) -> Key {
    Key::new([b; 32])
}

fn list_with(count: usize) -> PlayerScoresList {
    let mut list = PlayerScoresList::new(key(1), key(2));
    for i in 0..count {
        let r = list.append(ScoreEntry::new(i as u64, i as i64), 0, u64::MAX, true);
        assert_eq!(r, Ok(i));
    }
    list
}

#[test]
fn new_list_is_empty_with_initial_room() {
    let list = PlayerScoresList::new(key(1), key(2));
    assert_eq!(list.alloc_count, 10);
    assert_eq!(list.len(), 0);
    assert!(list.player_account == key(1));
    assert!(list.leaderboard == key(2));
    assert!(!list.needs_growth());
    assert_eq!(list.last_entry(), None);
}

#[test]
fn storage_sizes() {
    assert_eq!(PlayerScoresList::initial_size(), 74 + 4 + 10 * 16);
    let list = PlayerScoresList::new(key(1), key(2));
    assert_eq!(list.current_size(), 238);
    assert_eq!(list.grown_size(), 74 + 4 + 20 * 16);
}

#[test]
fn append_returns_position_and_keeps_order() {
    let mut list = PlayerScoresList::new(key(1), key(2));
    assert_eq!(list.append(ScoreEntry::new(7, 100), 0, 10, false), Ok(0));
    assert_eq!(list.append(ScoreEntry::new(3, 101), 0, 10, false), Ok(1));
    assert_eq!(list.len(), 2);
    assert_eq!(list.scores[0], ScoreEntry::new(7, 100));
    assert_eq!(list.last_entry(), Some(ScoreEntry::new(3, 101)));
    assert_eq!(list.alloc_count, 10);
}

#[test]
fn score_below_minimum_is_rejected() {
    let mut list = list_with(3);
    let r = list.append(ScoreEntry::new(50, 0), 100, 200, true);
    assert_eq!(r, Err(SoarError::ScoreNotWithinBounds));
    assert_eq!(list.len(), 3);
    assert_eq!(list.alloc_count, 10);
}

#[test]
fn score_above_maximum_is_rejected() {
    let mut list = list_with(3);
    let r = list.append(ScoreEntry::new(201, 0), 100, 200, true);
    assert_eq!(r, Err(SoarError::ScoreNotWithinBounds));
    assert_eq!(list.len(), 3);
}

#[test]
fn bounds_are_inclusive() {
    let mut list = PlayerScoresList::new(key(1), key(2));
    assert_eq!(list.append(ScoreEntry::new(100, 0), 100, 200, false), Ok(0));
    assert_eq!(list.append(ScoreEntry::new(200, 0), 100, 200, false), Ok(1));
}

#[test]
fn eleventh_append_grows_by_one_window() {
    let mut list = list_with(10);
    assert_eq!(list.alloc_count, 10);
    assert!(list.needs_growth());
    let r = list.append(ScoreEntry::new(150, 9), 100, 200, true);
    assert_eq!(r, Ok(10));
    assert_eq!(list.alloc_count, 20);
    assert_eq!(list.len(), 11);
}

#[test]
fn capacity_does_not_change_while_room_is_left() {
    let mut list = list_with(9);
    assert_eq!(list.alloc_count, 10);
    assert_eq!(list.append(ScoreEntry::new(1, 1), 0, 5, false), Ok(9));
    assert_eq!(list.alloc_count, 10);
    assert_eq!(list.len(), 10);
}

#[test]
fn unfunded_growth_fails_and_changes_nothing() {
    let mut list = list_with(10);
    let r = list.append(ScoreEntry::new(1, 1), 0, 5, false);
    assert_eq!(r, Err(SoarError::InsufficientCapacityFunds));
    assert_eq!(list.alloc_count, 10);
    assert_eq!(list.len(), 10);
}

#[test]
fn out_of_bounds_is_reported_before_growth() {
    let mut list = list_with(10);
    let r = list.append(ScoreEntry::new(9, 1), 0, 5, false);
    assert_eq!(r, Err(SoarError::ScoreNotWithinBounds));
}

#[test]
fn growth_past_the_largest_capacity_fails() {
    let mut list = PlayerScoresList::new(key(1), key(2));
    list.alloc_count = 65530;
    list.scores = vec![ScoreEntry::new(0, 0); 65530];
    let r = list.append(ScoreEntry::new(1, 1), 0, 5, true);
    assert_eq!(r, Err(SoarError::InsufficientCapacityFunds));
    assert_eq!(list.alloc_count, 65530);
    assert_eq!(list.len(), 65530);
}

#[test]
fn capacity_grows_in_windows_only() {
    let mut list = PlayerScoresList::new(key(1), key(2));
    let mut seen = vec![list.alloc_count];
    for i in 0..35u64 {
        let before = list.alloc_count;
        let full = list.needs_growth();
        list.append(ScoreEntry::new(i, 0), 0, u64::MAX, true).unwrap();
        if full {
            assert_eq!(list.alloc_count, before + 10);
        } else {
            assert_eq!(list.alloc_count, before);
        }
        assert!(list.len() <= list.alloc_count as usize);
        seen.push(list.alloc_count);
    }
    assert_eq!(list.alloc_count, 40);
    assert_eq!(list.len(), 35);
}

#[test]
fn well_formed_list() {
    let mut list = list_with(3);
    assert!(list.is_well_formed());
    list.alloc_count = 2;
    assert!(!list.is_well_formed());
}

#[test]
fn growth_step_and_record_size() {
    assert_eq!(soar::capacity::grow(10, 10), Some(20));
    assert_eq!(soar::capacity::grow(65530, 10), None);
    assert_eq!(soar::capacity::grow(65525, 10), Some(65535));
    assert_eq!(soar::capacity::list_record_size(74, 10, 16), 238);
    assert_eq!(soar::capacity::list_record_size(0, 0, 48), 4);
}
