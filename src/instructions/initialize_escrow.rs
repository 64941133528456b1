use crate::errors::ErrorCodes;
use crate::keys::{
    authority_address, authority_address_spec, escrow_address, escrow_address_spec, is_address,
    matches_address, vault_nft_address, vault_nft_address_spec, vault_token_address,
    vault_token_address_spec, Key,
};
use crate::state::{Escrow, StatusStage};
use crate::token::{transfer, TokenAccount};
use vstd::prelude::*;

verus! {

/// The accounts that opening an escrow reads and writes. The vaults are
/// allocated by the host before the operation runs.
#[derive(Clone, Copy, Debug)]
pub struct InitializeEscrow {
    pub program_id: Key,
    /// The signer.
    pub alice: Key,
    /// Address of the escrow record.
    pub escrow_key: Key,
    /// The record stored at that address, if there is one.
    pub escrow: Option<Escrow>,
    pub vault_nft: TokenAccount,
    pub vault_token: TokenAccount,
    /// The collectible.
    pub alice_nft: Key,
    /// Alice's account the collectible comes from.
    pub alice_nft_account: TokenAccount,
    /// The payment asset bob is to deposit.
    pub taker_token: Key,
    pub authority_vault: Key,
}

/// Whether an existing record blocks a new one with these terms: a live
/// record always does, a finished one where the payment terms differ.
pub open spec fn blocks(existing: Option<Escrow>, taker_token: Seq<u8>, taker_amount: u64) -> bool {
    match existing {
        None => false,
        Some(e) => !e.status.is_terminal_spec() || e.taker_token_key@ != taker_token
            || e.taker_amount != taker_amount,
    }
}

/// The first check that opening an escrow fails, in the order they are
/// made; `None` where all pass.
pub open spec fn initialize_error(ctx: InitializeEscrow, bob_key: Key, taker_amount: u64) -> Option<ErrorCodes> {
    let pid = ctx.program_id@;
    if !is_address(ctx.escrow_key@, escrow_address_spec(pid, ctx.alice@, ctx.alice_nft@, bob_key@)) {
        Some(ErrorCodes::InvalidAddress)
    } else if blocks(ctx.escrow, ctx.taker_token@, taker_amount) {
        Some(ErrorCodes::DuplicateEscrow)
    } else if !is_address(ctx.vault_nft.key@, vault_nft_address_spec(pid, ctx.escrow_key@, ctx.alice_nft@)) {
        Some(ErrorCodes::InvalidAddress)
    } else if !is_address(ctx.vault_token.key@, vault_token_address_spec(pid, ctx.escrow_key@, ctx.taker_token@)) {
        Some(ErrorCodes::InvalidAddress)
    } else if !is_address(ctx.authority_vault@, authority_address_spec(pid, ctx.escrow_key@)) {
        Some(ErrorCodes::InvalidAddress)
    } else if ctx.alice_nft_account.mint@ != ctx.alice_nft@
        || ctx.vault_nft.mint@ != ctx.alice_nft@
        || ctx.vault_token.mint@ != ctx.taker_token@ {
        Some(ErrorCodes::InvalidMintNft)
    } else if ctx.vault_nft.owner@ != ctx.authority_vault@ || ctx.vault_token.owner@ != ctx.authority_vault@
        || ctx.vault_nft.amount != 0 || ctx.vault_token.amount != 0 {
        Some(ErrorCodes::InvalidEscrow)
    } else if taker_amount == 0 {
        Some(ErrorCodes::InvalidAmount)
    } else if ctx.alice_nft_account.owner@ != ctx.alice@ {
        Some(ErrorCodes::InvalidBobOrAlice)
    } else if ctx.alice_nft_account.amount < 1 {
        Some(ErrorCodes::NotEnoughLamport)
    } else {
        None
    }
}

/// The record that opening an escrow writes.
pub open spec fn new_record(ctx: InitializeEscrow, bob_key: Key, taker_amount: u64) -> Escrow {
    Escrow {
        alice_nft_key: ctx.alice_nft,
        bob_key,
        alice_key: ctx.alice,
        taker_amount,
        taker_token_key: ctx.taker_token,
        status: StatusStage::NftDeposited,
    }
}

/// The accounts after opening an escrow that passed every check: the record
/// holds the terms with status `NftDeposited`, and the collectible has moved
/// from alice to its vault.
pub open spec fn initialized(ctx: InitializeEscrow, bob_key: Key, taker_amount: u64) -> InitializeEscrow {
    InitializeEscrow {
        escrow: Some(new_record(ctx, bob_key, taker_amount)),
        vault_nft: ctx.vault_nft.with_amount(ctx.vault_nft.amount + 1),
        alice_nft_account: ctx.alice_nft_account.with_amount(ctx.alice_nft_account.amount - 1),
        ..ctx
    }
}

/// Whether an existing record blocks a new one with these terms.
fn is_blocked(existing: &Option<Escrow>, taker_token: &Key, taker_amount: u64) -> (r: bool)
    ensures
        r == blocks(*existing, taker_token@, taker_amount),
{
    match existing {
        None => false,
        Some(e) => !e.status.is_terminal() || !e.taker_token_key.same(taker_token)
            || e.taker_amount != taker_amount,
    }
}

/// Alice opens an escrow with bob: the record binds the terms and the
/// collectible moves into the custodial vault, authorized by alice.
pub fn handler(ctx: &mut InitializeEscrow, bob_key: Key, taker_amount: u64) -> (r: Result<(), ErrorCodes>)
    ensures
        r == match initialize_error(*old(ctx), bob_key, taker_amount) {
            Some(e) => Err::<(), ErrorCodes>(e),
            None => Ok(()),
        },
        r is Ok ==> *final(ctx) == initialized(*old(ctx), bob_key, taker_amount),
        r is Err ==> *final(ctx) == *old(ctx),
{
    let pid = ctx.program_id;
    let escrow_key = ctx.escrow_key;
    let found = escrow_address(&pid, &ctx.alice, &ctx.alice_nft, &bob_key);
    if !matches_address(&found, &escrow_key) {
        return Err(ErrorCodes::InvalidAddress);
    }
    if is_blocked(&ctx.escrow, &ctx.taker_token, taker_amount) {
        return Err(ErrorCodes::DuplicateEscrow);
    }
    let found = vault_nft_address(&pid, &escrow_key, &ctx.alice_nft);
    if !matches_address(&found, &ctx.vault_nft.key) {
        return Err(ErrorCodes::InvalidAddress);
    }
    let found = vault_token_address(&pid, &escrow_key, &ctx.taker_token);
    if !matches_address(&found, &ctx.vault_token.key) {
        return Err(ErrorCodes::InvalidAddress);
    }
    let found = authority_address(&pid, &escrow_key);
    if !matches_address(&found, &ctx.authority_vault) {
        return Err(ErrorCodes::InvalidAddress);
    }
    if !ctx.alice_nft_account.mint.same(&ctx.alice_nft) || !ctx.vault_nft.mint.same(&ctx.alice_nft)
        || !ctx.vault_token.mint.same(&ctx.taker_token) {
        return Err(ErrorCodes::InvalidMintNft);
    }
    if !ctx.vault_nft.owner.same(&ctx.authority_vault) || !ctx.vault_token.owner.same(&ctx.authority_vault)
        || ctx.vault_nft.amount != 0 || ctx.vault_token.amount != 0 {
        return Err(ErrorCodes::InvalidEscrow);
    }
    if taker_amount == 0 {
        return Err(ErrorCodes::InvalidAmount);
    }
    if !ctx.alice_nft_account.owner.same(&ctx.alice) {
        return Err(ErrorCodes::InvalidBobOrAlice);
    }
    if ctx.alice_nft_account.amount < 1 {
        return Err(ErrorCodes::NotEnoughLamport);
    }
    ctx.escrow = Some(
        Escrow {
            alice_nft_key: ctx.alice_nft,
            bob_key,
            alice_key: ctx.alice,
            taker_amount,
            taker_token_key: ctx.taker_token,
            status: StatusStage::NftDeposited,
        },
    );
    transfer(&mut ctx.alice_nft_account, &mut ctx.vault_nft, 1);
    Ok(())
}

} // verus!
