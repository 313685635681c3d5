use vstd::prelude::*;
use crate::error::SoarError;
use crate::fields::{byte_len, text_len, FieldsCheck};
use crate::key::Key;

verus! {

/// Marks that an NFT reward was claimed; its existence is what is checked.
#[derive(Clone, Copy, Debug)]
pub struct NftClaim {}

impl NftClaim {
    /// Size of a serialized claim marker.
    pub const SIZE: usize = 8;
}

/// The kind of reward given for an achievement.
#[derive(Clone, Debug)]
pub enum RewardKind {
    /// Fungible tokens, paid from a token account.
    FungibleToken {
        /// The mint of the token given out.
        mint: Key,
        /// The token account paid from.
        account: Key,
        /// Amount given to each user.
        amount: u64,
    },
    /// An NFT minted for each user.
    NonFungibleToken {
        /// URI of the NFT minted.
        uri: String,
        /// Name of the NFT minted.
        name: String,
        /// Symbol of the NFT minted.
        symbol: String,
        /// Number of NFTs minted so far.
        minted: u64,
        /// A collection the minted NFTs are verified against, if any.
        collection: Option<Key>,
    },
}

/// A reward given for unlocking an achievement.
#[derive(Clone, Debug)]
pub struct Reward {
    /// The achievement this reward is given for.
    pub achievement: Key,
    /// Number of rewards still available.
    pub available_spots: u64,
    /// The reward kind.
    pub reward: RewardKind,
}

/// The kind of a reward to be added.
#[derive(Clone, Debug)]
pub enum RewardKindInput {
    /// Fungible tokens.
    Ft {
        /// Amount the achievement is allowed to spend for claims.
        deposit: u64,
        /// Amount given to each user.
        amount: u64,
    },
    /// NFTs.
    Nft {
        /// URI of the NFT minted.
        uri: String,
        /// Name of the NFT minted.
        name: String,
        /// Symbol of the NFT minted.
        symbol: String,
    },
}

/// Input for adding a reward to an achievement.
#[derive(Clone, Debug)]
pub struct AddNewRewardInput {
    /// Number of rewards to give out.
    pub available_spots: u64,
    /// The reward kind.
    pub kind: RewardKindInput,
}

impl Reward {
    /// Largest length, in bytes, of an NFT URI.
    pub const MAX_URI_LENGTH: usize = 200;

    /// Largest length, in bytes, of an NFT name.
    pub const MAX_NAME_LENGTH: usize = 32;

    /// Largest length, in bytes, of an NFT symbol.
    pub const MAX_SYMBOL_LENGTH: usize = 10;

    /// Size of a serialized reward, room for its largest kind included.
    pub const SIZE: usize = 8 + 32 + 8 + (200 + 4) + (32 + 4) + (10 + 4) + 8 + 1 + 32;

    /// Creates a fungible-token reward for `achievement`, paid from
    /// `account` of tokens of `mint`, and returns it with the amount the
    /// achievement must be allowed to spend. Fails when the input asks for
    /// an NFT reward.
    pub fn new_ft(achievement: Key, input: AddNewRewardInput, mint: Key, account: Key) -> (r: Result<
        (Reward, u64),
        SoarError,
    >)
        ensures
            match input.kind {
                RewardKindInput::Ft { deposit, amount } => r matches Ok((rw, d)) && d == deposit
                    && rw.achievement == achievement && rw.available_spots == input.available_spots
                    && rw.reward == (RewardKind::FungibleToken { mint, account, amount }),
                RewardKindInput::Nft { .. } => r == Err::<(Reward, u64), SoarError>(
                    SoarError::MissingRequiredAccountsForNftReward,
                ),
            },
    {
        match input.kind {
            RewardKindInput::Ft { deposit, amount } => {
                let reward = Reward {
                    achievement,
                    available_spots: input.available_spots,
                    reward: RewardKind::FungibleToken { mint, account, amount },
                };
                Ok((reward, deposit))
            },
            RewardKindInput::Nft { .. } => Err(SoarError::MissingRequiredAccountsForNftReward),
        }
    }

    /// Creates an NFT reward for `achievement`, with no NFT minted yet,
    /// verified against `collection` when one is given. Fails when the
    /// input asks for a fungible-token reward or a text field is too long.
    pub fn new_nft(achievement: Key, input: AddNewRewardInput, collection: Option<Key>) -> (r:
        Result<Reward, SoarError>)
        ensures
            match input.kind {
                RewardKindInput::Nft { uri, name, symbol } => {
                    let rw = Reward {
                        achievement,
                        available_spots: input.available_spots,
                        reward: RewardKind::NonFungibleToken {
                            uri,
                            name,
                            symbol,
                            minted: 0,
                            collection,
                        },
                    };
                    &&& rw.fields_within_limits() ==> r == Ok::<Reward, SoarError>(rw)
                    &&& !rw.fields_within_limits() ==> r == Err::<Reward, SoarError>(
                        SoarError::InvalidFieldLength,
                    )
                },
                RewardKindInput::Ft { .. } => r == Err::<Reward, SoarError>(
                    SoarError::MissingRequiredAccountsForFtReward,
                ),
            },
    {
        match input.kind {
            RewardKindInput::Nft { uri, name, symbol } => {
                let reward = Reward {
                    achievement,
                    available_spots: input.available_spots,
                    reward: RewardKind::NonFungibleToken { uri, name, symbol, minted: 0, collection },
                };
                match reward.check() {
                    Ok(()) => Ok(reward),
                    Err(e) => Err(e),
                }
            },
            RewardKindInput::Ft { .. } => Err(SoarError::MissingRequiredAccountsForFtReward),
        }
    }

    /// Whether this is an NFT reward verified against the collection
    /// `collection_mint`.
    pub fn check_reward_collection(&self, collection_mint: &Key) -> (r: bool)
        ensures
            r == (self.reward matches RewardKind::NonFungibleToken { collection: Some(k), .. }
                && k == *collection_mint),
    {
        match &self.reward {
            RewardKind::NonFungibleToken { collection: Some(k), .. } => *k == *collection_mint,
            _ => false,
        }
    }

    /// For a fungible-token reward with spots left, the token account it
    /// is paid from and the amount each user gets.
    pub fn ft_payout(&self) -> (r: Result<(Key, u64), SoarError>)
        ensures
            self.available_spots == 0 ==> r == Err::<(Key, u64), SoarError>(
                SoarError::NoAvailableRewards,
            ),
            self.available_spots > 0 ==> match self.reward {
                RewardKind::FungibleToken { account, amount, .. } => r == Ok::<
                    (Key, u64),
                    SoarError,
                >((account, amount)),
                RewardKind::NonFungibleToken { .. } => r == Err::<(Key, u64), SoarError>(
                    SoarError::InvalidRewardKind,
                ),
            },
    {
        if self.available_spots == 0 {
            return Err(SoarError::NoAvailableRewards);
        }
        match &self.reward {
            RewardKind::FungibleToken { account, amount, .. } => Ok((*account, *amount)),
            RewardKind::NonFungibleToken { .. } => Err(SoarError::InvalidRewardKind),
        }
    }

    /// Records one claim: one spot fewer and, for an NFT reward, one more
    /// NFT minted.
    pub fn record_claim(&mut self)
        requires
            old(self).available_spots > 0,
            old(self).reward matches RewardKind::NonFungibleToken { minted, .. } ==> minted
                < u64::MAX,
        ensures
            final(self).achievement == old(self).achievement,
            final(self).available_spots == old(self).available_spots - 1,
            match old(self).reward {
                RewardKind::FungibleToken { .. } => final(self).reward == old(self).reward,
                RewardKind::NonFungibleToken { uri, name, symbol, minted, collection } => final(self).reward
                    == (RewardKind::NonFungibleToken {
                    uri,
                    name,
                    symbol,
                    minted: (minted + 1) as u64,
                    collection,
                }),
            },
    {
        self.available_spots = self.available_spots - 1;
        match &mut self.reward {
            RewardKind::NonFungibleToken { minted, .. } => {
                *minted = *minted + 1;
            },
            RewardKind::FungibleToken { .. } => {},
        }
    }
}

impl FieldsCheck for Reward {
    open spec fn fields_within_limits(&self) -> bool {
        match self.reward {
            RewardKind::NonFungibleToken { uri, name, symbol, .. } => text_len(&uri)
                <= Self::MAX_URI_LENGTH && text_len(&name) <= Self::MAX_NAME_LENGTH && text_len(
                &symbol,
            ) <= Self::MAX_SYMBOL_LENGTH,
            RewardKind::FungibleToken { .. } => true,
        }
    }

    fn check(&self) -> (r: Result<(), SoarError>) {
        match &self.reward {
            RewardKind::NonFungibleToken { uri, name, symbol, .. } => {
                if byte_len(uri) > Self::MAX_URI_LENGTH || byte_len(name) > Self::MAX_NAME_LENGTH
                    || byte_len(symbol) > Self::MAX_SYMBOL_LENGTH {
                    Err(SoarError::InvalidFieldLength)
                } else {
                    Ok(())
                }
            },
            RewardKind::FungibleToken { .. } => Ok(()),
        }
    }
}

} // verus!
