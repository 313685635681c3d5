use vstd::prelude::*;

verus! {

/// A single score submitted by a player, with the time it was made.
#[derive(Clone, Copy, Debug, PartialEq, Eq, Structural)]
pub struct ScoreEntry {
    /// The player's score.
    pub score: u64,
    /// When this entry was made (unix seconds).
    pub timestamp: i64,
}

impl ScoreEntry {
    /// Size of a serialized score entry.
    pub const SIZE: usize = 16;

    /// Creates an entry.
    pub fn new(score: u64, timestamp: i64) -> (r: ScoreEntry)
        ensures
            r.score == score,
            r.timestamp == timestamp,
    {
        ScoreEntry { score, timestamp }
    }
}

} // verus!
