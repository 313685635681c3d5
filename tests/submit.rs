use soar::error::SoarError;
use soar::key::Key;
use soar::leaderboard::LeaderBoard;
use soar::ledger::PlayerScoresList;
use soar::ranking::LeaderTopEntries;
use soar::score::ScoreEntry;
use soar::submit::{submit_score, Submission};

fn key(b: u8) -> Key {
    Key::new([b; 32])
}

fn board(min: u64, max: u64, allow_multiple: bool) -> LeaderBoard {
    let mut lb = LeaderBoard::new(1, key(50), String::from("board"), key(51), None, Some(min), Some(max));
    lb.allow_multiple_scores = allow_multiple;
    lb
}

#[test]
fn rejected_score_changes_neither_list_nor_ranking() {
    let lb = board(100, 200, false);
    let mut list = PlayerScoresList::new(key(1), key(60));
    let mut top = Some(LeaderTopEntries::new(3, false, 200));
    submit_score(&mut list, &lb, &mut top, 150, 1, false).unwrap();
    let before: Vec<u64> = top.as_ref().unwrap().top_scores.iter().map(|s| s.entry.score).collect();
    let r = submit_score(&mut list, &lb, &mut top, 50, 2, false);
    assert_eq!(r, Err(SoarError::ScoreNotWithinBounds));
    assert_eq!(list.len(), 1);
    let after: Vec<u64> = top.as_ref().unwrap().top_scores.iter().map(|s| s.entry.score).collect();
    assert_eq!(before, after);
    assert_eq!(after, vec![150, 0, 0]);
}

#[test]
fn accepted_score_enters_ledger_and_ranking() {
    let lb = board(0, 1000, false);
    let mut list = PlayerScoresList::new(key(1), key(60));
    let mut top = Some(LeaderTopEntries::new(2, true, 1000));
    let r = submit_score(&mut list, &lb, &mut top, 42, 7, false);
    assert_eq!(r, Ok(Submission { position: 0, ranking_changed: true }));
    assert_eq!(list.scores[0], ScoreEntry::new(42, 7));
    let t = top.unwrap();
    assert!(t.top_scores[0].player == key(1));
    assert_eq!(t.top_scores[0].entry, ScoreEntry::new(42, 7));
}

#[test]
fn submission_without_ranking() {
    let lb = board(0, 1000, true);
    let mut list = PlayerScoresList::new(key(1), key(60));
    let mut top: Option<LeaderTopEntries> = None;
    let r = submit_score(&mut list, &lb, &mut top, 5, 7, false);
    assert_eq!(r, Ok(Submission { position: 0, ranking_changed: false }));
    assert!(top.is_none());
}

#[test]
fn failed_growth_changes_neither_list_nor_ranking() {
    let lb = board(0, 1000, true);
    let mut list = PlayerScoresList::new(key(1), key(60));
    let mut top = Some(LeaderTopEntries::new(2, false, 1000));
    for i in 0..10u64 {
        submit_score(&mut list, &lb, &mut top, i, 0, false).unwrap();
    }
    let r = submit_score(&mut list, &lb, &mut top, 999, 1, false);
    assert_eq!(r, Err(SoarError::InsufficientCapacityFunds));
    assert_eq!(list.len(), 10);
    let t = top.as_ref().unwrap();
    assert_eq!(t.top_scores[0].entry.score, 9);
    let r = submit_score(&mut list, &lb, &mut top, 999, 1, true);
    assert_eq!(r, Ok(Submission { position: 10, ranking_changed: true }));
    assert_eq!(list.alloc_count, 20);
    assert_eq!(top.unwrap().top_scores[0].entry.score, 999);
}
