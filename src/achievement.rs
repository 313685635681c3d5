use vstd::prelude::*;
use crate::error::SoarError;
use crate::fields::{byte_len, text_len, FieldsCheck, MAX_DESCRIPTION_LEN, MAX_TITLE_LEN};
use crate::key::Key;

verus! {

/// An achievement of a game that players can attain, with an optional
/// reward.
#[derive(Clone, Debug)]
pub struct Achievement {
    /// The game this achievement belongs to.
    pub game: Key,
    /// The game's achievement count when this achievement was added.
    pub id: u64,
    /// Achievement title.
    pub title: String,
    /// Achievement description.
    pub description: String,
    /// An NFT metadata account describing this achievement.
    pub nft_meta: Key,
    /// The reward for unlocking this achievement, if any.
    pub reward: Option<Key>,
}

impl Achievement {
    /// Size of a serialized achievement.
    pub const SIZE: usize = 8 + 32 + 8 + 4 + MAX_TITLE_LEN + 4 + MAX_DESCRIPTION_LEN + 32 + 1 + 32;

    /// Creates an achievement without a reward.
    pub fn new(game: Key, title: String, description: String, nft_meta: Key, id: u64) -> (r:
        Achievement)
        ensures
            r.game == game,
            r.id == id,
            r.title == title,
            r.description == description,
            r.nft_meta == nft_meta,
            r.reward is None,
    {
        Achievement { game, id, title, description, nft_meta, reward: None }
    }

    /// Replaces the fields that are given. Fails, changing nothing, when a
    /// resulting text field exceeds its limit.
    pub fn update(
        &mut self,
        new_title: Option<String>,
        new_description: Option<String>,
        new_meta: Option<Key>,
    ) -> (r: Result<(), SoarError>)
        ensures
            ({
                let next = Achievement {
                    title: match new_title {
                        Some(t) => t,
                        None => old(self).title,
                    },
                    description: match new_description {
                        Some(d) => d,
                        None => old(self).description,
                    },
                    nft_meta: match new_meta {
                        Some(m) => m,
                        None => old(self).nft_meta,
                    },
                    ..*old(self)
                };
                &&& next.fields_within_limits() ==> r is Ok && *final(self) == next
                &&& !next.fields_within_limits() ==> r == Err::<(), SoarError>(
                    SoarError::InvalidFieldLength,
                ) && *final(self) == *old(self)
            }),
    {
        let mut next = self.clone_fields();
        if let Some(t) = new_title {
            next.title = t;
        }
        if let Some(d) = new_description {
            next.description = d;
        }
        if let Some(m) = new_meta {
            next.nft_meta = m;
        }
        match next.check() {
            Ok(()) => {
                *self = next;
                Ok(())
            },
            Err(e) => Err(e),
        }
    }

    fn clone_fields(&self) -> (r: Achievement)
        ensures
            r == *self,
    {
        Achievement {
            game: self.game,
            id: self.id,
            title: self.title.clone(),
            description: self.description.clone(),
            nft_meta: self.nft_meta,
            reward: self.reward,
        }
    }
}

impl FieldsCheck for Achievement {
    open spec fn fields_within_limits(&self) -> bool {
        text_len(&self.title) <= MAX_TITLE_LEN && text_len(&self.description) <= MAX_DESCRIPTION_LEN
    }

    fn check(&self) -> (r: Result<(), SoarError>) {
        if byte_len(&self.title) > MAX_TITLE_LEN || byte_len(&self.description) > MAX_DESCRIPTION_LEN {
            return Err(SoarError::InvalidFieldLength);
        }
        Ok(())
    }
}

} // verus!
