use nft_escrow::errors::ErrorCodes;
use nft_escrow::instructions::{CancelEscrow, ConfirmDelivery, DepositTakerToken, InitializeEscrow};
use nft_escrow::keys::{authority_address, escrow_address, vault_nft_address, vault_token_address, Key};
use nft_escrow::state::{Escrow, StatusStage};
use nft_escrow::token::TokenAccount;
use nft_escrow::{cancel_escrow, confirm_delivery, deposit_taker_token, initialize_escrow};

fn key(b: u8) -> Key {
    Key::new([b; 32])
}

/// Every account one escrow touches, as a host would hold them.
struct World {
    program_id: Key,
    alice: Key,
    bob: Key,
    nft: Key,
    token: Key,
    escrow_key: Key,
    authority: Key,
    escrow: Option<Escrow>,
    vault_nft: TokenAccount,
    vault_token: TokenAccount,
    alice_nft_account: TokenAccount,
    alice_token_account: TokenAccount,
    bob_nft_account: TokenAccount,
    bob_token_account: TokenAccount,
}

fn account(k: u8, mint: Key, owner: Key, amount: u64) -> TokenAccount {
    TokenAccount { key: key(k), mint, owner, amount }
}

fn world() -> World {
    let program_id = key(7);
    let alice = key(1);
    let bob = key(2);
    let nft = key(3);
    let token = key(4);
    let escrow_key = escrow_address(&program_id, &alice, &nft, &bob).unwrap();
    let authority = authority_address(&program_id, &escrow_key).unwrap();
    let vn = vault_nft_address(&program_id, &escrow_key, &nft).unwrap();
    let vt = vault_token_address(&program_id, &escrow_key, &token).unwrap();
    World {
        program_id,
        alice,
        bob,
        nft,
        token,
        escrow_key,
        authority,
        escrow: None,
        vault_nft: TokenAccount { key: vn, mint: nft, owner: authority, amount: 0 },
        vault_token: TokenAccount { key: vt, mint: token, owner: authority, amount: 0 },
        alice_nft_account: account(10, nft, alice, 1),
        alice_token_account: account(11, token, alice, 0),
        bob_nft_account: account(12, nft, bob, 0),
        bob_token_account: account(13, token, bob, 1000),
    }
}

fn init_ctx(w: &World) -> InitializeEscrow {
    InitializeEscrow {
        program_id: w.program_id,
        alice: w.alice,
        escrow_key: w.escrow_key,
        escrow: w.escrow,
        vault_nft: w.vault_nft,
        vault_token: w.vault_token,
        alice_nft: w.nft,
        alice_nft_account: w.alice_nft_account,
        taker_token: w.token,
        authority_vault: w.authority,
    }
}

fn initialize(w: &mut World, amount: u64) -> Result<(), ErrorCodes> {
    let mut c = init_ctx(w);
    let bob = w.bob;
    let r = initialize_escrow(&mut c, bob, amount);
    w.escrow = c.escrow;
    w.vault_nft = c.vault_nft;
    w.vault_token = c.vault_token;
    w.alice_nft_account = c.alice_nft_account;
    r
}

fn deposit_as(w: &mut World, signer: Key) -> Result<(), ErrorCodes> {
    let mut c = DepositTakerToken {
        program_id: w.program_id,
        bob: signer,
        escrow_key: w.escrow_key,
        escrow: w.escrow.unwrap(),
        vault_token: w.vault_token,
        bob_taker_token_account: w.bob_token_account,
        taker_token: w.token,
        authority_vault: w.authority,
    };
    let r = deposit_taker_token(&mut c);
    w.escrow = Some(c.escrow);
    w.vault_token = c.vault_token;
    w.bob_token_account = c.bob_taker_token_account;
    r
}

fn confirm_as(w: &mut World, signer: Key) -> Result<(), ErrorCodes> {
    let mut c = ConfirmDelivery {
        program_id: w.program_id,
        alice: signer,
        escrow_key: w.escrow_key,
        escrow: w.escrow.unwrap(),
        vault_nft: w.vault_nft,
        vault_token: w.vault_token,
        alice_taker_token_account: w.alice_token_account,
        bob_nft_account: w.bob_nft_account,
        alice_nft: w.nft,
        taker_token: w.token,
        authority_vault: w.authority,
    };
    let r = confirm_delivery(&mut c);
    w.escrow = Some(c.escrow);
    w.vault_nft = c.vault_nft;
    w.vault_token = c.vault_token;
    w.alice_token_account = c.alice_taker_token_account;
    w.bob_nft_account = c.bob_nft_account;
    r
}

fn cancel_as(w: &mut World, signer: Key) -> Result<(), ErrorCodes> {
    let mut c = CancelEscrow {
        program_id: w.program_id,
        caller: signer,
        escrow_key: w.escrow_key,
        escrow: w.escrow.unwrap(),
        vault_nft: w.vault_nft,
        vault_token: w.vault_token,
        alice_nft_account: w.alice_nft_account,
        bob_taker_token_account: w.bob_token_account,
        alice_nft: w.nft,
        taker_token: w.token,
        authority_vault: w.authority,
    };
    let r = cancel_escrow(&mut c);
    w.escrow = Some(c.escrow);
    w.vault_nft = c.vault_nft;
    w.vault_token = c.vault_token;
    w.alice_nft_account = c.alice_nft_account;
    w.bob_token_account = c.bob_taker_token_account;
    r
}

fn status(w: &World) -> StatusStage {
    w.escrow.unwrap().status
}

#[test]
fn initialize_locks_collectible() {
    let mut w = world();
    assert_eq!(initialize(&mut w, 500), Ok(()));
    assert_eq!(status(&w), StatusStage::NftDeposited);
    assert_eq!(w.vault_nft.amount, 1);
    assert_eq!(w.vault_token.amount, 0);
    assert_eq!(w.alice_nft_account.amount, 0);
    let e = w.escrow.unwrap();
    assert_eq!(e.taker_amount, 500);
    assert!(e.bob_key.same(&w.bob));
    assert!(e.alice_key.same(&w.alice));
    assert!(e.alice_nft_key.same(&w.nft));
    assert!(e.taker_token_key.same(&w.token));
}

#[test]
fn initialize_rejects_zero_amount() {
    let mut w = world();
    assert_eq!(initialize(&mut w, 0), Err(ErrorCodes::InvalidAmount));
    assert!(w.escrow.is_none());
    assert_eq!(w.alice_nft_account.amount, 1);
}

#[test]
fn initialize_rejects_wrong_asset() {
    let mut w = world();
    w.alice_nft_account.mint = key(9);
    assert_eq!(initialize(&mut w, 500), Err(ErrorCodes::InvalidMintNft));
    assert_eq!(w.vault_nft.amount, 0);
}

#[test]
fn initialize_rejects_missing_collectible() {
    let mut w = world();
    w.alice_nft_account.amount = 0;
    assert_eq!(initialize(&mut w, 500), Err(ErrorCodes::NotEnoughLamport));
}

#[test]
fn initialize_rejects_wrong_escrow_address() {
    let mut w = world();
    w.escrow_key = key(99);
    assert_eq!(initialize(&mut w, 500), Err(ErrorCodes::InvalidAddress));
}

#[test]
fn initialize_rejects_foreign_source_account() {
    let mut w = world();
    w.alice_nft_account.owner = w.bob;
    assert_eq!(initialize(&mut w, 500), Err(ErrorCodes::InvalidBobOrAlice));
}

#[test]
fn second_initialize_is_duplicate() {
    let mut w = world();
    assert_eq!(initialize(&mut w, 500), Ok(()));
    w.alice_nft_account.amount = 1;
    assert_eq!(initialize(&mut w, 500), Err(ErrorCodes::DuplicateEscrow));
    assert_eq!(initialize(&mut w, 700), Err(ErrorCodes::DuplicateEscrow));
    assert_eq!(w.vault_nft.amount, 1);
    assert_eq!(status(&w), StatusStage::NftDeposited);
}

#[test]
fn finished_record_reused_only_on_same_terms() {
    let mut w = world();
    assert_eq!(initialize(&mut w, 500), Ok(()));
    let alice = w.alice;
    assert_eq!(cancel_as(&mut w, alice), Ok(()));
    assert_eq!(initialize(&mut w, 700), Err(ErrorCodes::DuplicateEscrow));
    assert_eq!(initialize(&mut w, 500), Ok(()));
    assert_eq!(status(&w), StatusStage::NftDeposited);
    assert_eq!(w.vault_nft.amount, 1);
}

#[test]
fn deposit_moves_exact_amount() {
    let mut w = world();
    assert_eq!(initialize(&mut w, 500), Ok(()));
    let bob = w.bob;
    assert_eq!(deposit_as(&mut w, bob), Ok(()));
    assert_eq!(status(&w), StatusStage::TokenDeposited);
    assert_eq!(w.vault_token.amount, 500);
    assert_eq!(w.bob_token_account.amount, 500);
}

#[test]
fn deposit_twice_is_invalid_state() {
    let mut w = world();
    assert_eq!(initialize(&mut w, 500), Ok(()));
    let bob = w.bob;
    assert_eq!(deposit_as(&mut w, bob), Ok(()));
    assert_eq!(deposit_as(&mut w, bob), Err(ErrorCodes::InvalidEscrow));
    assert_eq!(w.vault_token.amount, 500);
    assert_eq!(w.bob_token_account.amount, 500);
}

#[test]
fn deposit_by_other_is_unauthorized() {
    let mut w = world();
    assert_eq!(initialize(&mut w, 500), Ok(()));
    let alice = w.alice;
    assert_eq!(deposit_as(&mut w, alice), Err(ErrorCodes::InvalidBobOrAlice));
    assert_eq!(deposit_as(&mut w, key(42)), Err(ErrorCodes::InvalidBobOrAlice));
    assert_eq!(status(&w), StatusStage::NftDeposited);
    assert_eq!(w.vault_token.amount, 0);
}

#[test]
fn deposit_short_of_funds() {
    let mut w = world();
    assert_eq!(initialize(&mut w, 500), Ok(()));
    w.bob_token_account.amount = 499;
    let bob = w.bob;
    assert_eq!(deposit_as(&mut w, bob), Err(ErrorCodes::NotEnoughLamport));
    assert_eq!(status(&w), StatusStage::NftDeposited);
}

#[test]
fn deposit_of_wrong_asset() {
    let mut w = world();
    assert_eq!(initialize(&mut w, 500), Ok(()));
    w.bob_token_account.mint = key(9);
    let bob = w.bob;
    assert_eq!(deposit_as(&mut w, bob), Err(ErrorCodes::InvalidMintNft));
}

#[test]
fn confirm_before_deposit_is_invalid_state() {
    let mut w = world();
    assert_eq!(initialize(&mut w, 500), Ok(()));
    let alice = w.alice;
    assert_eq!(confirm_as(&mut w, alice), Err(ErrorCodes::InvalidEscrow));
    assert_eq!(w.vault_nft.amount, 1);
}

#[test]
fn confirm_by_bob_is_unauthorized() {
    let mut w = world();
    assert_eq!(initialize(&mut w, 500), Ok(()));
    let bob = w.bob;
    assert_eq!(deposit_as(&mut w, bob), Ok(()));
    assert_eq!(confirm_as(&mut w, bob), Err(ErrorCodes::InvalidBobOrAlice));
    assert_eq!(status(&w), StatusStage::TokenDeposited);
}

#[test]
fn confirm_with_full_destination_overflows() {
    let mut w = world();
    assert_eq!(initialize(&mut w, 500), Ok(()));
    let bob = w.bob;
    let alice = w.alice;
    assert_eq!(deposit_as(&mut w, bob), Ok(()));
    w.alice_token_account.amount = u64::MAX - 499;
    assert_eq!(confirm_as(&mut w, alice), Err(ErrorCodes::AmountOverflow));
    w.alice_token_account.amount = u64::MAX - 500;
    assert_eq!(confirm_as(&mut w, alice), Ok(()));
    assert_eq!(w.alice_token_account.amount, u64::MAX);
}

#[test]
fn swap_end_to_end() {
    let mut w = world();
    let alice = w.alice;
    let bob = w.bob;
    assert_eq!(initialize(&mut w, 500), Ok(()));
    assert_eq!(deposit_as(&mut w, bob), Ok(()));
    assert_eq!(confirm_as(&mut w, alice), Ok(()));
    assert_eq!(w.bob_nft_account.amount, 1);
    assert_eq!(w.alice_token_account.amount, 500);
    assert_eq!(w.vault_nft.amount, 0);
    assert_eq!(w.vault_token.amount, 0);
    assert_eq!(status(&w), StatusStage::Delivered);
    assert_eq!(confirm_as(&mut w, alice), Err(ErrorCodes::InvalidEscrow));
    assert_eq!(cancel_as(&mut w, alice), Err(ErrorCodes::InvalidEscrow));
}

#[test]
fn cancel_before_deposit_end_to_end() {
    let mut w = world();
    let alice = w.alice;
    let bob = w.bob;
    assert_eq!(initialize(&mut w, 500), Ok(()));
    assert_eq!(cancel_as(&mut w, alice), Ok(()));
    assert_eq!(w.alice_nft_account.amount, 1);
    assert_eq!(w.vault_nft.amount, 0);
    assert_eq!(status(&w), StatusStage::CancelByAlice);
    assert_eq!(deposit_as(&mut w, bob), Err(ErrorCodes::InvalidEscrow));
    assert_eq!(cancel_as(&mut w, alice), Err(ErrorCodes::InvalidEscrow));
    assert_eq!(w.bob_token_account.amount, 1000);
}

#[test]
fn bob_cannot_cancel_before_paying() {
    let mut w = world();
    let bob = w.bob;
    assert_eq!(initialize(&mut w, 500), Ok(()));
    assert_eq!(cancel_as(&mut w, bob), Err(ErrorCodes::InvalidBobOrAlice));
    assert_eq!(cancel_as(&mut w, key(42)), Err(ErrorCodes::InvalidBobOrAlice));
    assert_eq!(status(&w), StatusStage::NftDeposited);
}

#[test]
fn bob_cancels_after_paying() {
    let mut w = world();
    let bob = w.bob;
    assert_eq!(initialize(&mut w, 500), Ok(()));
    assert_eq!(deposit_as(&mut w, bob), Ok(()));
    assert_eq!(cancel_as(&mut w, bob), Ok(()));
    assert_eq!(status(&w), StatusStage::CancelByBob);
    assert_eq!(w.bob_token_account.amount, 1000);
    assert_eq!(w.alice_nft_account.amount, 1);
    assert_eq!(w.vault_nft.amount, 0);
    assert_eq!(w.vault_token.amount, 0);
}

#[test]
fn alice_cancels_after_payment() {
    let mut w = world();
    let alice = w.alice;
    let bob = w.bob;
    assert_eq!(initialize(&mut w, 500), Ok(()));
    assert_eq!(deposit_as(&mut w, bob), Ok(()));
    assert_eq!(cancel_as(&mut w, alice), Ok(()));
    assert_eq!(status(&w), StatusStage::CancelByAlice);
    assert_eq!(w.bob_token_account.amount, 1000);
    assert_eq!(w.alice_nft_account.amount, 1);
}
