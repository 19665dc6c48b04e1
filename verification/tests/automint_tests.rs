use gig_economy::automint::{AutoMintErc20, AIRDROP_AMOUNT};
use gig_economy::port::TransferError;
use gig_economy::identity::Address;
use gig_economy::uint256::U256;

fn user(n: u8) -> Address {
    Address::new([n; 20])
}

fn n(x: u64) -> U256 {
    U256::from_u64(x)
}

#[test]
fn airdrop_amount_is_five_tokens() {
    assert_eq!(AIRDROP_AMOUNT, 5_000_000_000_000_000_000u64);
}

#[test]
fn first_look_mints_once() {
    let mut token = AutoMintErc20::new();
    assert_eq!(token.total_supply(), U256::zero());
    assert_eq!(token.name(), "");
    assert_eq!(token.symbol(), "");
    assert_eq!(token.decimals(), U256::zero());
    assert_eq!(token.balance_of(user(1)), n(AIRDROP_AMOUNT));
    assert_eq!(token.total_supply(), n(AIRDROP_AMOUNT));
    assert_eq!(token.balance_of(user(1)), n(AIRDROP_AMOUNT));
    assert_eq!(token.total_supply(), n(AIRDROP_AMOUNT));
    assert_eq!(token.balance_of(user(2)), n(AIRDROP_AMOUNT));
    assert_eq!(token.total_supply(), n(AIRDROP_AMOUNT).wrapping_add(n(AIRDROP_AMOUNT)));
}

#[test]
fn allowance_mints_for_the_owner_only() {
    let mut token = AutoMintErc20::new();
    assert_eq!(token.allowance(user(1), user(2)), U256::zero());
    assert_eq!(token.total_supply(), n(AIRDROP_AMOUNT));
    assert_eq!(token.balance_of(user(1)), n(AIRDROP_AMOUNT));
    assert_eq!(token.total_supply(), n(AIRDROP_AMOUNT));
}

#[test]
fn transfer_mints_for_the_sender() {
    let mut token = AutoMintErc20::new();
    assert_eq!(token.transfer(user(1), user(2), n(10)), Ok(()));
    assert_eq!(token.total_supply(), n(AIRDROP_AMOUNT));
    assert_eq!(token.balance_of(user(1)), n(AIRDROP_AMOUNT - 10));
    assert_eq!(token.balance_of(user(2)), n(AIRDROP_AMOUNT).wrapping_add(n(10)));
}

#[test]
fn failed_transfer_mints_nothing() {
    let mut token = AutoMintErc20::new();
    assert_eq!(token.transfer(user(1), user(2), U256::zero()), Err(TransferError::ZeroAmount));
    assert_eq!(token.total_supply(), U256::zero());
    assert_eq!(
        token.transfer(user(1), user(2), n(AIRDROP_AMOUNT + 1)),
        Err(TransferError::InsufficientBalance)
    );
    assert_eq!(token.total_supply(), U256::zero());
    assert_eq!(token.transfer(user(1), user(2), n(AIRDROP_AMOUNT)), Ok(()));
    assert_eq!(token.balance_of(user(1)), U256::zero());
    assert_eq!(token.transfer(user(1), user(2), n(1)), Err(TransferError::InsufficientBalance));
}

#[test]
fn approve_and_transfer_from() {
    let mut token = AutoMintErc20::new();
    assert!(token.approve(user(1), user(9), n(100)));
    assert_eq!(token.total_supply(), n(AIRDROP_AMOUNT));
    assert_eq!(token.allowance(user(1), user(9)), n(100));
    assert_eq!(token.transfer_from(user(9), user(1), user(2), n(60)), Ok(()));
    assert_eq!(token.allowance(user(1), user(9)), n(40));
    assert_eq!(token.balance_of(user(1)), n(AIRDROP_AMOUNT - 60));
    assert_eq!(
        token.transfer_from(user(9), user(1), user(2), n(41)),
        Err(TransferError::InsufficientAllowance)
    );
    assert_eq!(token.transfer_from(user(9), user(1), user(2), U256::zero()), Err(TransferError::ZeroAmount));
    assert_eq!(token.allowance(user(1), user(9)), n(40));
}

#[test]
fn failed_transfer_from_mints_nothing() {
    let mut token = AutoMintErc20::new();
    assert_eq!(
        token.transfer_from(user(9), user(1), user(2), n(1)),
        Err(TransferError::InsufficientAllowance)
    );
    assert_eq!(token.total_supply(), U256::zero());
}
