use vstd::prelude::*;
use crate::error::SoarError;
use crate::fields::{byte_len, text_len, FieldsCheck};
use crate::key::Key;

verus! {

/// A player, owned by a user's wallet.
#[derive(Clone, Debug)]
pub struct Player {
    /// The wallet that owns this player.
    pub user: Key,
    /// The player's username.
    pub username: String,
    /// An NFT metadata account representing this player.
    pub nft_meta: Key,
}

impl Player {
    /// Largest length, in bytes, of a username.
    pub const MAX_USERNAME_LEN: usize = 100;

    /// Size of a serialized player.
    pub const SIZE: usize = 8 + 32 + Self::MAX_USERNAME_LEN + 32;

    /// Creates a player.
    pub fn new(username: String, nft_meta: Key, user: Key) -> (r: Player)
        ensures
            r.user == user,
            r.username == username,
            r.nft_meta == nft_meta,
    {
        Player { user, username, nft_meta }
    }

    /// Replaces the fields that are given. Fails, changing nothing, when the
    /// resulting username is too long.
    pub fn update(&mut self, username: Option<String>, nft_meta: Option<Key>) -> (r: Result<
        (),
        SoarError,
    >)
        ensures
            ({
                let next = Player {
                    username: match username {
                        Some(u) => u,
                        None => old(self).username,
                    },
                    nft_meta: match nft_meta {
                        Some(m) => m,
                        None => old(self).nft_meta,
                    },
                    ..*old(self)
                };
                &&& next.fields_within_limits() ==> r is Ok && *final(self) == next
                &&& !next.fields_within_limits() ==> r == Err::<(), SoarError>(
                    SoarError::InvalidFieldLength,
                ) && *final(self) == *old(self)
            }),
    {
        let mut next = Player {
            user: self.user,
            username: self.username.clone(),
            nft_meta: self.nft_meta,
        };
        if let Some(u) = username {
            next.username = u;
        }
        if let Some(m) = nft_meta {
            next.nft_meta = m;
        }
        if let Err(e) = next.check() {
            return Err(e);
        }
        *self = next;
        Ok(())
    }
}

impl FieldsCheck for Player {
    open spec fn fields_within_limits(&self) -> bool {
        text_len(&self.username) <= Self::MAX_USERNAME_LEN
    }

    fn check(&self) -> (r: Result<(), SoarError>) {
        if byte_len(&self.username) > Self::MAX_USERNAME_LEN {
            return Err(SoarError::InvalidFieldLength);
        }
        Ok(())
    }
}

/// A player's status for one achievement.
#[derive(Clone, Copy, Debug)]
pub struct PlayerAchievement {
    /// The player.
    pub player_account: Key,
    /// The achievement unlocked.
    pub achievement: Key,
    /// When the achievement was unlocked (unix seconds).
    pub timestamp: i64,
    /// Whether the achievement is unlocked.
    pub unlocked: bool,
    /// Whether the player has claimed the achievement's reward.
    pub claimed: bool,
}

impl PlayerAchievement {
    /// Size of a serialized player achievement.
    pub const SIZE: usize = 8 + 32 + 32 + 8 + 1 + 1;

    /// An achievement unlocked at `timestamp`, its reward not yet claimed.
    pub fn new(player_account: Key, achievement: Key, timestamp: i64) -> (r: PlayerAchievement)
        ensures
            r.player_account == player_account,
            r.achievement == achievement,
            r.timestamp == timestamp,
            r.unlocked,
            !r.claimed,
    {
        PlayerAchievement { player_account, achievement, timestamp, unlocked: true, claimed: false }
    }
}

} // verus!
