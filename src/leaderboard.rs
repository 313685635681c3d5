use vstd::prelude::*;
use crate::error::SoarError;
use crate::fields::{byte_len, text_len, FieldsCheck, MAX_DESCRIPTION_LEN};
use crate::key::Key;
use crate::ranking::LeaderTopEntries;

verus! {

/// A leaderboard of a game: the bounds of the scores it accepts and how
/// it treats several scores of one player.
#[derive(Clone, Debug)]
pub struct LeaderBoard {
    /// The leaderboard's id within its game.
    pub id: u64,
    /// The game this leaderboard belongs to.
    pub game: Key,
    /// Leaderboard description.
    pub description: String,
    /// An NFT metadata account that describes this leaderboard.
    pub nft_meta: Key,
    /// Number of decimals scores are displayed with.
    pub decimals: u8,
    /// Smallest accepted score.
    pub min_score: u64,
    /// Largest accepted score.
    pub max_score: u64,
    /// The ranking of the leaderboard's top scores, if it keeps one.
    pub top_entries: Option<Key>,
    /// Whether one player may hold several slots of the ranking.
    pub allow_multiple_scores: bool,
}

/// Parameters for registering a leaderboard.
#[derive(Clone, Debug)]
pub struct RegisterLeaderBoardInput {
    /// Leaderboard description.
    pub description: String,
    /// NFT metadata describing the leaderboard.
    pub nft_meta: Key,
    /// Display decimals; zero when `None`.
    pub decimals: Option<u8>,
    /// Smallest accepted score; `u64::MIN` when `None`.
    pub min_score: Option<u64>,
    /// Largest accepted score; `u64::MAX` when `None`.
    pub max_score: Option<u64>,
    /// Number of top scores the ranking keeps; no ranking when zero.
    pub scores_to_retain: u8,
    /// Ranking order: `true` when lower scores rank better.
    pub is_ascending: bool,
    /// Whether one player may hold several slots of the ranking.
    pub allow_multiple_scores: bool,
}

/// The value of `o`, or `d` when it is `None`.
pub open spec fn or_default<T>(o: Option<T>, d: T) -> T {
    match o {
        Some(v) => v,
        None => d,
    }
}

impl LeaderBoard {
    /// Size of a serialized leaderboard.
    pub const SIZE: usize = 8 + 8 + 32 + 4 + MAX_DESCRIPTION_LEN + 32 + 1 + 8 + 8 + 1 + 1 + 32;

    /// Creates a leaderboard that keeps no ranking and lets a player hold
    /// one slot at most.
    pub fn new(
        id: u64,
        game: Key,
        description: String,
        nft_meta: Key,
        decimals: Option<u8>,
        min_score: Option<u64>,
        max_score: Option<u64>,
    ) -> (r: LeaderBoard)
        ensures
            r.id == id,
            r.game == game,
            r.description == description,
            r.nft_meta == nft_meta,
            r.decimals == or_default(decimals, 0u8),
            r.min_score == or_default(min_score, u64::MIN),
            r.max_score == or_default(max_score, u64::MAX),
            r.top_entries is None,
            !r.allow_multiple_scores,
    {
        LeaderBoard {
            id,
            game,
            description,
            nft_meta,
            decimals: decimals.unwrap_or(0),
            min_score: min_score.unwrap_or(u64::MIN),
            max_score: max_score.unwrap_or(u64::MAX),
            top_entries: None,
            allow_multiple_scores: false,
        }
    }

    /// Whether `top_entries` is the ranking this leaderboard keeps; any
    /// ranking is accepted when it names none.
    pub fn check_top_entries(&self, top_entries: &Key) -> (r: bool)
        ensures
            r == match self.top_entries {
                Some(expected) => expected == *top_entries,
                None => true,
            },
    {
        match &self.top_entries {
            Some(expected) => *expected == *top_entries,
            None => true,
        }
    }

    /// The leaderboard with the given fields replaced.
    pub open spec fn updated(
        self,
        new_description: Option<String>,
        new_nft_meta: Option<Key>,
        new_min_score: Option<u64>,
        new_max_score: Option<u64>,
        new_allow_multiple_scores: Option<bool>,
    ) -> LeaderBoard {
        LeaderBoard {
            description: or_default(new_description, self.description),
            nft_meta: or_default(new_nft_meta, self.nft_meta),
            min_score: or_default(new_min_score, self.min_score),
            max_score: or_default(new_max_score, self.max_score),
            allow_multiple_scores: or_default(new_allow_multiple_scores, self.allow_multiple_scores),
            ..self
        }
    }

    /// Replaces the fields that are given; a new order is applied to the
    /// leaderboard's ranking, if any. Fails, changing nothing, when the
    /// resulting description is too long.
    pub fn update(
        &mut self,
        top_entries: &mut Option<LeaderTopEntries>,
        new_description: Option<String>,
        new_nft_meta: Option<Key>,
        new_min_score: Option<u64>,
        new_max_score: Option<u64>,
        new_is_ascending: Option<bool>,
        new_allow_multiple_scores: Option<bool>,
    ) -> (r: Result<(), SoarError>)
        requires
            *old(top_entries) matches Some(t) ==> t.wf(),
        ensures
            *final(top_entries) matches Some(t) ==> t.wf(),
            ({
                let next = old(self).updated(
                    new_description,
                    new_nft_meta,
                    new_min_score,
                    new_max_score,
                    new_allow_multiple_scores,
                );
                &&& !next.fields_within_limits() ==> r == Err::<(), SoarError>(
                    SoarError::InvalidFieldLength,
                ) && *final(self) == *old(self) && *final(top_entries) == *old(top_entries)
                &&& next.fields_within_limits() ==> r is Ok && *final(self) == next
            }),
            r is Ok ==> match *old(top_entries) {
                None => *final(top_entries) is None,
                Some(t) => *final(top_entries) matches Some(u) && u.is_ascending == or_default(
                    new_is_ascending,
                    t.is_ascending,
                ) && (u.is_ascending == t.is_ascending ==> u.top_scores@ == t.top_scores@) && (
                u.is_ascending != t.is_ascending ==> u.top_scores@ == t.top_scores@.reverse()),
            },
    {
        let mut next = LeaderBoard {
            id: self.id,
            game: self.game,
            description: self.description.clone(),
            nft_meta: self.nft_meta,
            decimals: self.decimals,
            min_score: self.min_score,
            max_score: self.max_score,
            top_entries: self.top_entries,
            allow_multiple_scores: self.allow_multiple_scores,
        };
        if let Some(d) = new_description {
            next.description = d;
        }
        if let Some(m) = new_nft_meta {
            next.nft_meta = m;
        }
        if let Some(v) = new_max_score {
            next.max_score = v;
        }
        if let Some(v) = new_min_score {
            next.min_score = v;
        }
        if let Some(v) = new_allow_multiple_scores {
            next.allow_multiple_scores = v;
        }
        if let Err(e) = next.check() {
            return Err(e);
        }
        if let Some(asc) = new_is_ascending {
            if let Some(t) = top_entries {
                t.set_ordering(asc);
            }
        }
        *self = next;
        Ok(())
    }

    /// Whether `score` lies within the leaderboard's bounds.
    pub fn accepts(&self, score: u64) -> (r: bool)
        ensures
            r == (self.min_score <= score <= self.max_score),
    {
        self.min_score <= score && score <= self.max_score
    }
}

impl FieldsCheck for LeaderBoard {
    open spec fn fields_within_limits(&self) -> bool {
        text_len(&self.description) <= MAX_DESCRIPTION_LEN
    }

    fn check(&self) -> (r: Result<(), SoarError>) {
        if byte_len(&self.description) > MAX_DESCRIPTION_LEN {
            return Err(SoarError::InvalidFieldLength);
        }
        Ok(())
    }
}

impl RegisterLeaderBoardInput {
    /// The leaderboard registered by this input, with the given id and game.
    pub fn into_leaderboard(self, id: u64, game: Key) -> (r: LeaderBoard)
        ensures
            r.id == id,
            r.game == game,
            r.description == self.description,
            r.nft_meta == self.nft_meta,
            r.decimals == or_default(self.decimals, 0u8),
            r.min_score == or_default(self.min_score, u64::MIN),
            r.max_score == or_default(self.max_score, u64::MAX),
            r.top_entries is None,
            r.allow_multiple_scores == self.allow_multiple_scores,
    {
        LeaderBoard {
            id,
            game,
            description: self.description,
            nft_meta: self.nft_meta,
            decimals: self.decimals.unwrap_or(0),
            min_score: self.min_score.unwrap_or(u64::MIN),
            max_score: self.max_score.unwrap_or(u64::MAX),
            top_entries: None,
            allow_multiple_scores: self.allow_multiple_scores,
        }
    }
}

impl FieldsCheck for RegisterLeaderBoardInput {
    open spec fn fields_within_limits(&self) -> bool {
        text_len(&self.description) <= MAX_DESCRIPTION_LEN
    }

    fn check(&self) -> (r: Result<(), SoarError>) {
        if byte_len(&self.description) > MAX_DESCRIPTION_LEN {
            return Err(SoarError::InvalidFieldLength);
        }
        Ok(())
    }
}

} // verus!
