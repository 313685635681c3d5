use vstd::prelude::*;
use crate::capacity::{grow, list_record_size, LIST_PREFIX};
use crate::error::SoarError;
use crate::key::Key;
use crate::score::ScoreEntry;

verus! {

/// Whether `score` lies within the inclusive bounds `[min_score, max_score]`.
pub open spec fn within_bounds(score: u64, min_score: u64, max_score: u64) -> bool {
    min_score <= score <= max_score
}

/// The append-only list of a player's scores for one leaderboard.
///
/// `alloc_count` is the number of entries its storage has room for; the
/// list never holds more entries than that.
#[derive(Clone, Debug)]
pub struct PlayerScoresList {
    /// The player account this list belongs to.
    pub player_account: Key,
    /// The leaderboard the scores were submitted to.
    pub leaderboard: Key,
    /// Number of entries the current storage has room for.
    pub alloc_count: u16,
    /// The entries, in submission order.
    pub scores: Vec<ScoreEntry>,
}

impl PlayerScoresList {
    /// Size of the fixed fields of a serialized list:
    /// discriminator, player account, leaderboard and allocation count.
    pub const SIZE_WITHOUT_VEC: usize = 74;

    /// Number of entries room is made for when a list is created.
    pub const INITIAL_SCORES_LENGTH: usize = 10;

    /// Number of entries room is added for in one growth step.
    pub const REALLOC_WINDOW: usize = 10;

    /// The list holds no more entries than its storage has room for.
    pub open spec fn wf(&self) -> bool {
        self.scores@.len() <= self.alloc_count
    }

    /// Storage size, in bytes, of a list with room for `alloc` entries.
    pub open spec fn size_for(alloc: nat) -> nat {
        (Self::SIZE_WITHOUT_VEC + LIST_PREFIX + alloc * ScoreEntry::SIZE) as nat
    }

    /// Storage size of a newly created list.
    pub fn initial_size() -> (r: usize)
        ensures
            r == Self::size_for(Self::INITIAL_SCORES_LENGTH as nat),
    {
        list_record_size(Self::SIZE_WITHOUT_VEC, Self::INITIAL_SCORES_LENGTH, ScoreEntry::SIZE)
    }

    /// Current storage size of this list.
    pub fn current_size(&self) -> (r: usize)
        ensures
            r == Self::size_for(self.alloc_count as nat),
    {
        list_record_size(Self::SIZE_WITHOUT_VEC, self.alloc_count as usize, ScoreEntry::SIZE)
    }

    /// Storage size the list needs after one growth step.
    pub fn grown_size(&self) -> (r: usize)
        ensures
            r == Self::size_for((self.alloc_count + Self::REALLOC_WINDOW) as nat),
    {
        list_record_size(
            Self::SIZE_WITHOUT_VEC,
            self.alloc_count as usize + Self::REALLOC_WINDOW,
            ScoreEntry::SIZE,
        )
    }

    /// An empty list for a player and a leaderboard, with room for the
    /// initial number of entries.
    pub fn new(player_account: Key, leaderboard: Key) -> (r: PlayerScoresList)
        ensures
            r.wf(),
            r.player_account == player_account,
            r.leaderboard == leaderboard,
            r.alloc_count == Self::INITIAL_SCORES_LENGTH,
            r.scores@.len() == 0,
    {
        PlayerScoresList {
            player_account,
            leaderboard,
            alloc_count: Self::INITIAL_SCORES_LENGTH as u16,
            scores: Vec::with_capacity(Self::INITIAL_SCORES_LENGTH),
        }
    }

    /// Whether the list holds no more entries than its storage has room for.
    pub fn is_well_formed(&self) -> (r: bool)
        ensures
            r == self.wf(),
    {
        self.scores.len() <= self.alloc_count as usize
    }

    /// Number of entries in the list.
    pub fn len(&self) -> (r: usize)
        ensures
            r == self.scores@.len(),
    {
        self.scores.len()
    }

    /// The most recent entry, if any.
    pub fn last_entry(&self) -> (r: Option<ScoreEntry>)
        ensures
            self.scores@.len() == 0 ==> r is None,
            self.scores@.len() > 0 ==> r == Some(self.scores@.last()),
    {
        if self.scores.len() == 0 {
            None
        } else {
            Some(self.scores[self.scores.len() - 1])
        }
    }

    /// Whether the next append must first grow the storage.
    pub fn needs_growth(&self) -> (r: bool)
        ensures
            r == (self.scores@.len() == self.alloc_count),
    {
        self.scores.len() == self.alloc_count as usize
    }

    /// Appends `entry` if its score lies within `[min_score, max_score]`.
    ///
    /// When the list is full, its room first grows by
    /// [`REALLOC_WINDOW`](Self::REALLOC_WINDOW) entries; `growth_funded`
    /// tells whether the storage for that growth could be provisioned.
    /// On success the position of the new entry is returned; on failure the
    /// list is left as it was.
    pub fn append(
        &mut self,
        entry: ScoreEntry,
        min_score: u64,
        max_score: u64,
        growth_funded: bool,
    ) -> (r: Result<usize, SoarError>)
        requires
            old(self).wf(),
        ensures
            final(self).wf(),
            !within_bounds(entry.score, min_score, max_score) ==> r == Err::<usize, SoarError>(
                SoarError::ScoreNotWithinBounds,
            ),
            within_bounds(entry.score, min_score, max_score) && old(self).scores@.len()
                == old(self).alloc_count && (!growth_funded || old(self).alloc_count
                + Self::REALLOC_WINDOW > u16::MAX) ==> r == Err::<usize, SoarError>(
                SoarError::InsufficientCapacityFunds,
            ),
            r is Err ==> *final(self) == *old(self),
            within_bounds(entry.score, min_score, max_score) && (old(self).scores@.len()
                < old(self).alloc_count || (growth_funded && old(self).alloc_count
                + Self::REALLOC_WINDOW <= u16::MAX)) ==> r == Ok::<usize, SoarError>(
                old(self).scores@.len() as usize,
            ),
            r is Ok ==> {
                &&& final(self).scores@ == old(self).scores@.push(entry)
                &&& final(self).player_account == old(self).player_account
                &&& final(self).leaderboard == old(self).leaderboard
                &&& final(self).alloc_count == if old(self).scores@.len() == old(self).alloc_count {
                    old(self).alloc_count + Self::REALLOC_WINDOW
                } else {
                    old(self).alloc_count as int
                }
            },
    {
        if entry.score < min_score || entry.score > max_score {
            return Err(SoarError::ScoreNotWithinBounds);
        }
        let count = self.scores.len();
        if count == self.alloc_count as usize {
            if !growth_funded {
                return Err(SoarError::InsufficientCapacityFunds);
            }
            match grow(self.alloc_count, Self::REALLOC_WINDOW as u16) {
                Some(c) => {
                    self.alloc_count = c;
                },
                None => {
                    return Err(SoarError::InsufficientCapacityFunds);
                },
            }
        }
        self.scores.push(entry);
        Ok(count)
    }
}

} // verus!
