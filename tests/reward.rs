use soar::error::SoarError;
use soar::fields::FieldsCheck;
use soar::key::Key;
use soar::reward::{AddNewRewardInput, Reward, RewardKind, RewardKindInput};

fn key(b: u8) -> Key {
    Key::new([b; 32])
}

fn nft_input(name: &str) -> AddNewRewardInput {
    AddNewRewardInput {
        available_spots: 2,
        kind: RewardKindInput::Nft {
            uri: String::from("https://x"),
            name: String::from(name),
            symbol: String::from("SYM"),
        },
    }
}

fn ft_input() -> AddNewRewardInput {
    AddNewRewardInput { available_spots: 1, kind: RewardKindInput::Ft { deposit: 500, amount: 50 } }
}

#[test]
fn fungible_reward() {
    let (r, deposit) = Reward::new_ft(key(1), ft_input(), key(2), key(3)).unwrap();
    assert_eq!(deposit, 500);
    assert_eq!(r.available_spots, 1);
    assert!(r.check().is_ok());
    match r.reward {
        RewardKind::FungibleToken { mint, account, amount } => {
            assert!(mint == key(2) && account == key(3));
            assert_eq!(amount, 50);
        }
        _ => panic!("wrong kind"),
    }
    assert_eq!(
        Reward::new_ft(key(1), nft_input("n"), key(2), key(3)).err(),
        Some(SoarError::MissingRequiredAccountsForNftReward)
    );
}

#[test]
fn nft_reward() {
    let r = Reward::new_nft(key(1), nft_input("name"), Some(key(4))).unwrap();
    assert!(r.check_reward_collection(&key(4)));
    assert!(!r.check_reward_collection(&key(5)));
    let r = Reward::new_nft(key(1), nft_input("name"), None).unwrap();
    assert!(!r.check_reward_collection(&key(4)));
    assert_eq!(
        Reward::new_nft(key(1), nft_input(&"n".repeat(33)), None).err(),
        Some(SoarError::InvalidFieldLength)
    );
    assert_eq!(
        Reward::new_nft(key(1), ft_input(), None).err(),
        Some(SoarError::MissingRequiredAccountsForFtReward)
    );
}

#[test]
fn fungible_payout_and_claims() {
    let (mut r, _) = Reward::new_ft(key(1), ft_input(), key(2), key(3)).unwrap();
    assert_eq!(r.ft_payout(), Ok((key(3), 50)));
    r.record_claim();
    assert_eq!(r.available_spots, 0);
    assert_eq!(r.ft_payout(), Err(SoarError::NoAvailableRewards));
    let nft = Reward::new_nft(key(1), nft_input("n"), None).unwrap();
    assert_eq!(nft.ft_payout(), Err(SoarError::InvalidRewardKind));
    assert!(!r.check_reward_collection(&key(3)));
}

#[test]
fn nft_claim_counts_mints() {
    let mut r = Reward::new_nft(key(1), nft_input("n"), None).unwrap();
    r.record_claim();
    r.record_claim();
    assert_eq!(r.available_spots, 0);
    match r.reward {
        RewardKind::NonFungibleToken { minted, .. } => assert_eq!(minted, 2),
        _ => panic!("wrong kind"),
    }
    assert_eq!(Reward::SIZE, 8 + 32 + 8 + 204 + 36 + 14 + 8 + 1 + 32);
}
