use vstd::prelude::*;
use crate::error::SoarError;
use crate::leaderboard::LeaderBoard;
use crate::ledger::{within_bounds, PlayerScoresList};
use crate::ranking::{consider_outcome, LeaderBoardScore, LeaderTopEntries};
use crate::score::ScoreEntry;

verus! {

/// What an accepted score submission changed.
#[derive(Clone, Copy, Debug, PartialEq, Eq, Structural)]
pub struct Submission {
    /// Position of the new entry in the player's score list.
    pub position: usize,
    /// Whether the leaderboard's ranking changed.
    pub ranking_changed: bool,
}

/// The slots of a ranking after a score of `player` is considered for it.
pub open spec fn ranked_after(
    t: LeaderTopEntries,
    cand: LeaderBoardScore,
    allow_multiple: bool,
) -> Seq<LeaderBoardScore> {
    match consider_outcome(t.is_ascending, t.top_scores@, cand, allow_multiple) {
        Some(s) => s,
        None => t.top_scores@,
    }
}

/// Submits `score`, made at `timestamp`, to the player's score list for
/// `leaderboard`, then considers it for the leaderboard's ranking, if it
/// keeps one.
///
/// A score outside the leaderboard's bounds is refused. When the list is
/// full its room grows first; `growth_funded` tells whether the storage for
/// that growth could be provisioned. On failure nothing changes.
pub fn submit_score(
    list: &mut PlayerScoresList,
    leaderboard: &LeaderBoard,
    top_entries: &mut Option<LeaderTopEntries>,
    score: u64,
    timestamp: i64,
    growth_funded: bool,
) -> (r: Result<Submission, SoarError>)
    requires
        old(list).wf(),
        *old(top_entries) matches Some(t) ==> t.wf(),
    ensures
        final(list).wf(),
        *final(top_entries) matches Some(t) ==> t.wf(),
        !within_bounds(score, leaderboard.min_score, leaderboard.max_score) ==> r == Err::<
            Submission,
            SoarError,
        >(SoarError::ScoreNotWithinBounds),
        within_bounds(score, leaderboard.min_score, leaderboard.max_score) && old(list).scores@.len()
            == old(list).alloc_count && (!growth_funded || old(list).alloc_count
            + PlayerScoresList::REALLOC_WINDOW > u16::MAX) ==> r == Err::<Submission, SoarError>(
            SoarError::InsufficientCapacityFunds,
        ),
        within_bounds(score, leaderboard.min_score, leaderboard.max_score) && (old(list).scores@.len()
            < old(list).alloc_count || (growth_funded && old(list).alloc_count
            + PlayerScoresList::REALLOC_WINDOW <= u16::MAX)) ==> r is Ok,
        r is Err ==> *final(list) == *old(list) && *final(top_entries) == *old(top_entries),
        r matches Ok(sub) ==> {
            let entry = ScoreEntry { score, timestamp };
            let cand = LeaderBoardScore { player: old(list).player_account, entry };
            &&& sub.position == old(list).scores@.len()
            &&& final(list).scores@ == old(list).scores@.push(entry)
            &&& final(list).player_account == old(list).player_account
            &&& final(list).leaderboard == old(list).leaderboard
            &&& final(list).alloc_count == if old(list).scores@.len() == old(list).alloc_count {
                old(list).alloc_count + PlayerScoresList::REALLOC_WINDOW
            } else {
                old(list).alloc_count as int
            }
            &&& match *old(top_entries) {
                None => {
                    &&& *final(top_entries) is None
                    &&& !sub.ranking_changed
                },
                Some(t) => {
                    &&& *final(top_entries) matches Some(u)
                    &&& u.is_ascending == t.is_ascending
                    &&& u.top_scores@ == ranked_after(t, cand, leaderboard.allow_multiple_scores)
                    &&& sub.ranking_changed == consider_outcome(
                        t.is_ascending,
                        t.top_scores@,
                        cand,
                        leaderboard.allow_multiple_scores,
                    ) is Some
                },
            }
        },
{
    let entry = ScoreEntry::new(score, timestamp);
    let position = match list.append(entry, leaderboard.min_score, leaderboard.max_score, growth_funded) {
        Ok(p) => p,
        Err(e) => {
            return Err(e);
        },
    };
    let player = list.player_account;
    let ranking_changed = match top_entries {
        Some(t) => t.consider(player, entry, leaderboard.allow_multiple_scores),
        None => false,
    };
    Ok(Submission { position, ranking_changed })
}

} // verus!
