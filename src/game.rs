use vstd::prelude::*;
use crate::achievement::Achievement;
use crate::capacity::list_record_size;
use crate::error::SoarError;
use crate::fields::{byte_len, text_len, FieldsCheck, MAX_DESCRIPTION_LEN, MAX_TITLE_LEN};
use crate::key::Key;
use crate::leaderboard::{LeaderBoard, RegisterLeaderBoardInput};
use crate::ranking::LeaderTopEntries;

verus! {

/// Descriptive information about a game.
#[derive(Clone, Debug)]
pub struct GameAttributes {
    /// The game's title.
    pub title: String,
    /// The game's description.
    pub description: String,
    /// The game's genre, as a code (see `Genre`).
    pub genre: u8,
    /// The game's type, as a code (see `GameType`).
    pub game_type: u8,
    /// An NFT metadata account describing the game.
    pub nft_meta: Key,
}

impl GameAttributes {
    /// Size of serialized game attributes.
    pub const SIZE: usize = 4 + MAX_TITLE_LEN + 4 + MAX_DESCRIPTION_LEN + 1 + 1 + 32;

    /// Creates game attributes.
    pub fn new(title: String, description: String, genre: u8, game_type: u8, nft_meta: Key) -> (r:
        GameAttributes)
        ensures
            r.title == title,
            r.description == description,
            r.genre == genre,
            r.game_type == game_type,
            r.nft_meta == nft_meta,
    {
        GameAttributes { title, description, genre, game_type, nft_meta }
    }
}

impl FieldsCheck for GameAttributes {
    open spec fn fields_within_limits(&self) -> bool {
        text_len(&self.title) <= MAX_TITLE_LEN && text_len(&self.description) <= MAX_DESCRIPTION_LEN
    }

    fn check(&self) -> (r: Result<(), SoarError>) {
        if byte_len(&self.title) > MAX_TITLE_LEN || byte_len(&self.description) > MAX_DESCRIPTION_LEN {
            return Err(SoarError::InvalidFieldLength);
        }
        Ok(())
    }
}

/// A game: its attributes, the number of leaderboards and achievements it
/// has created, and the keys allowed to act as its authority.
#[derive(Clone, Debug)]
pub struct Game {
    /// Game attributes.
    pub meta: GameAttributes,
    /// Number of leaderboards created; the last one's id.
    pub leaderboard_count: u64,
    /// Number of achievements created; the last one's id.
    pub achievement_count: u64,
    /// The keys that are authorities of the game.
    pub auth: Vec<Key>,
}

impl FieldsCheck for Game {
    open spec fn fields_within_limits(&self) -> bool {
        self.meta.fields_within_limits()
    }

    fn check(&self) -> (r: Result<(), SoarError>) {
        self.meta.check()
    }
}

impl Game {
    /// Size of the fixed part of a serialized game: discriminator,
    /// attributes and the two counters.
    pub const SIZE_NO_AUTHS: usize = 8 + GameAttributes::SIZE + 8 + 8;

    /// Storage size of a game with `auth_len` authorities.
    pub open spec fn size_for(auth_len: nat) -> nat {
        (Self::SIZE_NO_AUTHS + 4 + auth_len * 32) as nat
    }

    /// Storage size of a game with `auth_len` authorities.
    pub fn size(auth_len: usize) -> (r: usize)
        requires
            Self::size_for(auth_len as nat) <= usize::MAX,
        ensures
            r == Self::size_for(auth_len as nat),
    {
        list_record_size(Self::SIZE_NO_AUTHS, auth_len, 32)
    }

    /// Creates a game with no leaderboard and no achievement. Fails when
    /// a text field of `meta` exceeds its limit.
    pub fn create(meta: GameAttributes, auth: Vec<Key>) -> (r: Result<Game, SoarError>)
        ensures
            meta.fields_within_limits() ==> (r matches Ok(g) && g.meta == meta && g.auth@ == auth@
                && g.leaderboard_count == 0 && g.achievement_count == 0),
            !meta.fields_within_limits() ==> r == Err::<Game, SoarError>(
                SoarError::InvalidFieldLength,
            ),
    {
        match meta.check() {
            Ok(()) => Ok(Game { meta, leaderboard_count: 0, achievement_count: 0, auth }),
            Err(e) => Err(e),
        }
    }

    /// Whether `key` is one of the game's authorities.
    pub fn check_signer(&self, key: &Key) -> (r: bool)
        ensures
            r == self.auth@.contains(*key),
    {
        let mut i: usize = 0;
        while i < self.auth.len()
            invariant
                i <= self.auth@.len(),
                forall|j: int| 0 <= j < i ==> self.auth@[j] != *key,
            decreases self.auth@.len() - i,
        {
            if self.auth[i] == *key {
                return true;
            }
            i = i + 1;
        }
        false
    }

    /// Replaces the game's attributes.
    pub fn set_attributes(&mut self, new_meta: GameAttributes)
        ensures
            *final(self) == (Game { meta: new_meta, ..*old(self) }),
    {
        self.meta = new_meta;
    }

    /// The id of the next achievement.
    pub fn next_achievement(&self) -> (r: u64)
        requires
            self.achievement_count < u64::MAX,
        ensures
            r == self.achievement_count + 1,
    {
        self.achievement_count + 1
    }

    /// The id of the next leaderboard.
    pub fn next_leaderboard(&self) -> (r: u64)
        requires
            self.leaderboard_count < u64::MAX,
        ensures
            r == self.leaderboard_count + 1,
    {
        self.leaderboard_count + 1
    }

    /// Replaces the attributes and the authorities that are given. Fails,
    /// changing nothing, when new attributes exceed a length limit.
    pub fn update(&mut self, new_meta: Option<GameAttributes>, new_auth: Option<Vec<Key>>) -> (r:
        Result<(), SoarError>)
        ensures
            new_meta matches Some(m) && !m.fields_within_limits() ==> r == Err::<(), SoarError>(
                SoarError::InvalidFieldLength,
            ) && *final(self) == *old(self),
            !(new_meta matches Some(m) && !m.fields_within_limits()) ==> {
                &&& r is Ok
                &&& final(self).meta == match new_meta {
                    Some(m) => m,
                    None => old(self).meta,
                }
                &&& final(self).auth@ == match new_auth {
                    Some(a) => a@,
                    None => old(self).auth@,
                }
                &&& final(self).leaderboard_count == old(self).leaderboard_count
                &&& final(self).achievement_count == old(self).achievement_count
            },
    {
        if let Some(m) = &new_meta {
            if let Err(e) = m.check() {
                return Err(e);
            }
        }
        if let Some(m) = new_meta {
            self.meta = m;
        }
        if let Some(a) = new_auth {
            self.auth = a;
        }
        Ok(())
    }

    /// Adds an achievement to the game, whose key is `game_key`. Fails,
    /// changing nothing, when a text field exceeds its limit.
    pub fn add_achievement(
        &mut self,
        game_key: Key,
        title: String,
        description: String,
        nft_meta: Key,
    ) -> (r: Result<Achievement, SoarError>)
        requires
            old(self).achievement_count < u64::MAX,
        ensures
            ({
                let a = Achievement {
                    game: game_key,
                    id: (old(self).achievement_count + 1) as u64,
                    title,
                    description,
                    nft_meta,
                    reward: None,
                };
                &&& a.fields_within_limits() ==> r == Ok::<Achievement, SoarError>(a) && *final(self)
                    == (Game { achievement_count: a.id, ..*old(self) })
                &&& !a.fields_within_limits() ==> r == Err::<Achievement, SoarError>(
                    SoarError::InvalidFieldLength,
                ) && *final(self) == *old(self)
            }),
    {
        let id = self.next_achievement();
        let a = Achievement::new(game_key, title, description, nft_meta, id);
        match a.check() {
            Ok(()) => {
                self.achievement_count = id;
                Ok(a)
            },
            Err(e) => Err(e),
        }
    }

    /// Adds a leaderboard to the game, whose key is `game_key`, with a
    /// ranking of `input.scores_to_retain` unfilled slots when that is not
    /// zero; `top_entries` is the key of that ranking. Fails, changing
    /// nothing, when the description is too long or when a ranking is asked
    /// for without its key.
    pub fn add_leaderboard(
        &mut self,
        game_key: Key,
        input: RegisterLeaderBoardInput,
        top_entries: Option<Key>,
    ) -> (r: Result<(LeaderBoard, Option<LeaderTopEntries>), SoarError>)
        requires
            old(self).leaderboard_count < u64::MAX,
        ensures
            !input.fields_within_limits() ==> r == Err::<
                (LeaderBoard, Option<LeaderTopEntries>),
                SoarError,
            >(SoarError::InvalidFieldLength),
            input.fields_within_limits() && input.scores_to_retain > 0 && top_entries is None ==> r
                == Err::<(LeaderBoard, Option<LeaderTopEntries>), SoarError>(
                SoarError::MissingExpectedAccount,
            ),
            r is Err ==> *final(self) == *old(self),
            input.fields_within_limits() && (input.scores_to_retain == 0 || top_entries is Some)
                ==> r is Ok,
            r matches Ok((lb, ranking)) ==> {
                &&& *final(self) == (Game {
                    leaderboard_count: (old(self).leaderboard_count + 1) as u64,
                    ..*old(self)
                })
                &&& lb.id == old(self).leaderboard_count + 1
                &&& lb.game == game_key
                &&& lb.description == input.description
                &&& lb.nft_meta == input.nft_meta
                &&& lb.decimals == crate::leaderboard::or_default(input.decimals, 0u8)
                &&& lb.min_score == crate::leaderboard::or_default(input.min_score, u64::MIN)
                &&& lb.max_score == crate::leaderboard::or_default(input.max_score, u64::MAX)
                &&& lb.allow_multiple_scores == input.allow_multiple_scores
                &&& input.scores_to_retain == 0 ==> lb.top_entries is None && ranking is None
                &&& input.scores_to_retain > 0 ==> {
                    &&& lb.top_entries == top_entries
                    &&& (ranking matches Some(t) && t.wf() && t.is_ascending == input.is_ascending
                        && t.top_scores@.len() == input.scores_to_retain
                        && forall|i: int|
                        0 <= i < t.top_scores@.len() ==> (#[trigger] t.top_scores@[i]).entry.score
                            == LeaderTopEntries::sentinel_score(input.is_ascending, lb.max_score)
                        && t.top_scores@[i].entry.timestamp == 0 && t.top_scores@[i].player.is_zero())
                }
            },
    {
        if let Err(e) = input.check() {
            return Err(e);
        }
        let retain_count = input.scores_to_retain;
        let is_ascending = input.is_ascending;
        if retain_count > 0 && top_entries.is_none() {
            return Err(SoarError::MissingExpectedAccount);
        }
        let id = self.next_leaderboard();
        let mut lb = input.into_leaderboard(id, game_key);
        self.leaderboard_count = id;
        if retain_count > 0 {
            let ranking = LeaderTopEntries::new(retain_count as usize, is_ascending, lb.max_score);
            lb.top_entries = top_entries;
            Ok((lb, Some(ranking)))
        } else {
            Ok((lb, None))
        }
    }
}

} // verus!
