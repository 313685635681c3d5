use soar::key::Key;
use soar::ranking::{outranks, LeaderBoardScore, LeaderTopEntries};
use soar::score::ScoreEntry;

fn key(b: u8) -> Key {
    Key::new([b; 32])
}

fn scores(t: &LeaderTopEntries) -> Vec<u64> {
    t.top_scores.iter().map(|s| s.entry.score).collect()
}

fn is_sorted(t: &LeaderTopEntries) -> bool {
    t.top_scores.windows(2).all(|w| {
        if t.is_ascending {
            w[0].entry.score <= w[1].entry.score
        } else {
            w[0].entry.score >= w[1].entry.score
        }
    })
}

#[test]
fn new_ranking_holds_sentinels() {
    let asc = LeaderTopEntries::new(3, true, 1000);
    assert_eq!(asc.top_scores.len(), 3);
    assert_eq!(scores(&asc), vec![1000, 1000, 1000]);
    assert!(asc.top_scores.iter().all(|s| s.player == Key::zero() && s.entry.timestamp == 0));
    let desc = LeaderTopEntries::new(2, false, 1000);
    assert_eq!(scores(&desc), vec![0, 0]);
}

#[test]
fn ranking_size() {
    assert_eq!(LeaderTopEntries::size(10), 8 + 1 + 4 + 10 * 48);
    assert_eq!(LeaderTopEntries::size(0), 13);
}

#[test]
fn outranks_follows_order() {
    assert!(outranks(true, 1, 2));
    assert!(!outranks(true, 2, 2));
    assert!(outranks(false, 3, 2));
    assert!(!outranks(false, 2, 3));
}

#[test]
fn ascending_keeps_three_lowest() {
    let mut t = LeaderTopEntries::new(3, true, u64::MAX);
    for (i, s) in [50u64, 10, 30, 5].iter().enumerate() {
        t.consider(key(i as u8 + 1), ScoreEntry::new(*s, i as i64), true);
        assert_eq!(t.top_scores.len(), 3);
        assert!(is_sorted(&t));
    }
    assert_eq!(scores(&t), vec![5, 10, 30]);
    assert!(t.top_scores[0].player == key(4));
}

#[test]
fn descending_one_slot_per_player() {
    let mut t = LeaderTopEntries::new(2, false, u64::MAX);
    let first = key(1);
    let second = key(2);
    assert!(t.consider(first, ScoreEntry::new(10, 1), false));
    assert!(t.consider(second, ScoreEntry::new(20, 2), false));
    assert!(t.consider(first, ScoreEntry::new(15, 3), false));
    assert_eq!(scores(&t), vec![20, 15]);
    assert!(t.top_scores[0].player == second);
    assert!(t.top_scores[1].player == first);
    assert_eq!(t.top_scores[1].entry.timestamp, 3);
}

#[test]
fn worse_own_score_leaves_ranking_unchanged() {
    let mut t = LeaderTopEntries::new(3, false, u64::MAX);
    t.consider(key(1), ScoreEntry::new(40, 1), false);
    let before = scores(&t);
    assert!(!t.consider(key(1), ScoreEntry::new(30, 2), false));
    assert_eq!(scores(&t), before);
    assert_eq!(t.top_scores[0].entry.timestamp, 1);
}

#[test]
fn multiple_scores_may_share_a_player() {
    let mut t = LeaderTopEntries::new(3, false, u64::MAX);
    t.consider(key(1), ScoreEntry::new(40, 1), true);
    t.consider(key(1), ScoreEntry::new(30, 2), true);
    assert_eq!(scores(&t), vec![40, 30, 0]);
    assert!(t.contains_player(&key(1)));
    assert!(!t.contains_player(&key(2)));
}

#[test]
fn score_not_better_than_last_is_ignored() {
    let mut t = LeaderTopEntries::new(2, true, 100);
    assert!(t.consider(key(1), ScoreEntry::new(10, 1), true));
    assert!(t.consider(key(2), ScoreEntry::new(20, 2), true));
    assert!(!t.consider(key(3), ScoreEntry::new(20, 3), true));
    assert!(!t.consider(key(3), ScoreEntry::new(50, 3), true));
    assert_eq!(scores(&t), vec![10, 20]);
    assert!(t.top_scores[1].player == key(2));
}

#[test]
fn sentinel_cannot_be_displaced_by_an_equal_score() {
    let mut t = LeaderTopEntries::new(2, true, 100);
    assert!(!t.consider(key(1), ScoreEntry::new(100, 1), true));
    assert_eq!(scores(&t), vec![100, 100]);
}

#[test]
fn earlier_entry_wins_ties() {
    let mut t = LeaderTopEntries::new(3, true, 1000);
    t.consider(key(1), ScoreEntry::new(10, 1), true);
    t.consider(key(2), ScoreEntry::new(10, 2), true);
    assert_eq!(scores(&t), vec![10, 10, 1000]);
    assert!(t.top_scores[0].player == key(1));
    assert!(t.top_scores[1].player == key(2));
}

#[test]
fn improved_own_score_moves_up() {
    let mut t = LeaderTopEntries::new(4, true, 1000);
    t.consider(key(1), ScoreEntry::new(3, 1), false);
    t.consider(key(2), ScoreEntry::new(5, 2), false);
    t.consider(key(3), ScoreEntry::new(9, 3), false);
    assert!(t.consider(key(3), ScoreEntry::new(4, 4), false));
    assert_eq!(scores(&t), vec![3, 4, 5, 1000]);
    assert!(t.top_scores[1].player == key(3));
    assert_eq!(t.top_scores.iter().filter(|s| s.player == key(3)).count(), 1);
}

#[test]
fn ranking_stays_sorted_and_sized() {
    let mut t = LeaderTopEntries::new(5, false, u64::MAX);
    let input = [7u64, 3, 9, 9, 1, 12, 4, 8, 15, 2, 11, 6];
    for (i, s) in input.iter().enumerate() {
        t.consider(key((i % 4) as u8), ScoreEntry::new(*s, i as i64), i % 3 == 0);
        assert_eq!(t.top_scores.len(), 5);
        assert!(is_sorted(&t));
    }
}

#[test]
fn changing_order_reverses_slots() {
    let mut t = LeaderTopEntries::new(3, true, 1000);
    t.consider(key(1), ScoreEntry::new(10, 1), true);
    t.consider(key(2), ScoreEntry::new(20, 2), true);
    t.set_ordering(true);
    assert_eq!(scores(&t), vec![10, 20, 1000]);
    t.set_ordering(false);
    assert!(!t.is_ascending);
    assert_eq!(scores(&t), vec![1000, 20, 10]);
    assert!(is_sorted(&t));
}

#[test]
fn slot_value() {
    let s = LeaderBoardScore::new(key(9), ScoreEntry::new(5, 6));
    assert!(s.player == key(9));
    assert_eq!(s.entry, ScoreEntry { score: 5, timestamp: 6 });
    assert_eq!(position_of_second(), Some(1));
}

fn position_of_second() -> Option<usize> {
    let mut t = LeaderTopEntries::new(3, true, 1000);
    t.consider(key(1), ScoreEntry::new(1, 1), true);
    t.consider(key(2), ScoreEntry::new(2, 1), true);
    t.position_of(&key(2))
}

#[test]
fn well_formed_ranking() {
    let mut t = LeaderTopEntries::new(3, true, 1000);
    assert!(t.is_well_formed());
    t.top_scores[0].entry.score = 2000;
    assert!(!t.is_well_formed());
    t.is_ascending = false;
    assert!(t.is_well_formed());
    t.top_scores.clear();
    assert!(!t.is_well_formed());
}
