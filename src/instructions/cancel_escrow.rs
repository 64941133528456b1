use crate::errors::ErrorCodes;
use crate::keys::{
    authority_address, authority_address_spec, escrow_address, escrow_address_spec, is_address,
    matches_address, vault_nft_address, vault_nft_address_spec, vault_token_address,
    vault_token_address_spec, Key,
};
use crate::state::{Escrow, StatusStage};
use crate::token::{transfer, TokenAccount};
use vstd::prelude::*;

verus! {

/// The accounts that cancelling an escrow reads and writes.
///
/// Alice may cancel while the escrow is `NftDeposited` or `TokenDeposited`;
/// bob only after paying, from `TokenDeposited`. Either way every
/// deposit goes back to whoever made it.
#[derive(Clone, Copy, Debug)]
pub struct CancelEscrow {
    pub program_id: Key,
    /// The signer: alice or bob.
    pub caller: Key,
    /// Address of the escrow record.
    pub escrow_key: Key,
    pub escrow: Escrow,
    pub vault_nft: TokenAccount,
    pub vault_token: TokenAccount,
    /// Alice's account that gets the collectible back.
    pub alice_nft_account: TokenAccount,
    /// Bob's account that gets the payment back.
    pub bob_taker_token_account: TokenAccount,
    pub alice_nft: Key,
    pub taker_token: Key,
    pub authority_vault: Key,
}

/// What the payment vault holds in a live escrow of this status.
pub open spec fn paid_in(e: Escrow) -> int {
    if e.status is TokenDeposited {
        e.taker_amount as int
    } else {
        0
    }
}

/// The first check that a cancellation fails, in the order they are made;
/// `None` where all pass.
pub open spec fn cancel_error(ctx: CancelEscrow) -> Option<ErrorCodes> {
    let e = ctx.escrow;
    let pid = ctx.program_id@;
    if ctx.caller@ != e.alice_key@ && ctx.caller@ != e.bob_key@ {
        Some(ErrorCodes::InvalidBobOrAlice)
    } else if !is_address(ctx.escrow_key@, escrow_address_spec(pid, e.alice_key@, e.alice_nft_key@, e.bob_key@)) {
        Some(ErrorCodes::InvalidAddress)
    } else if !is_address(ctx.vault_nft.key@, vault_nft_address_spec(pid, ctx.escrow_key@, ctx.alice_nft@)) {
        Some(ErrorCodes::InvalidAddress)
    } else if !is_address(ctx.vault_token.key@, vault_token_address_spec(pid, ctx.escrow_key@, ctx.taker_token@)) {
        Some(ErrorCodes::InvalidAddress)
    } else if !is_address(ctx.authority_vault@, authority_address_spec(pid, ctx.escrow_key@)) {
        Some(ErrorCodes::InvalidAddress)
    } else if ctx.alice_nft_account.mint@ != ctx.alice_nft@
        || ctx.bob_taker_token_account.mint@ != ctx.taker_token@
        || e.alice_nft_key@ != ctx.alice_nft@
        || e.taker_token_key@ != ctx.taker_token@
        || ctx.vault_nft.mint@ != ctx.alice_nft@
        || ctx.vault_token.mint@ != ctx.taker_token@ {
        Some(ErrorCodes::InvalidMintNft)
    } else if ctx.vault_nft.owner@ != ctx.authority_vault@ || ctx.vault_token.owner@ != ctx.authority_vault@ {
        Some(ErrorCodes::InvalidEscrow)
    } else if ctx.alice_nft_account.owner@ != e.alice_key@ || ctx.bob_taker_token_account.owner@ != e.bob_key@ {
        Some(ErrorCodes::InvalidBobOrAlice)
    } else if e.status.is_terminal_spec() {
        Some(ErrorCodes::InvalidEscrow)
    } else if e.status is NftDeposited && ctx.caller@ != e.alice_key@ {
        Some(ErrorCodes::InvalidBobOrAlice)
    } else if ctx.vault_nft.amount != 1 || ctx.vault_token.amount != paid_in(e) {
        Some(ErrorCodes::InvalidEscrow)
    } else if ctx.alice_nft_account.amount + 1 > u64::MAX
        || ctx.bob_taker_token_account.amount + paid_in(e) > u64::MAX {
        Some(ErrorCodes::AmountOverflow)
    } else {
        None
    }
}

/// The terminal status that a cancellation by `caller` sets.
pub open spec fn cancel_status(e: Escrow, caller: Key) -> StatusStage {
    if caller@ == e.alice_key@ {
        StatusStage::CancelByAlice
    } else {
        StatusStage::CancelByBob
    }
}

/// The accounts after a cancellation that passed every check: the
/// collectible is back with alice, any payment back with bob, both vaults
/// are empty and the status is the caller's cancellation.
pub open spec fn cancelled(ctx: CancelEscrow) -> CancelEscrow {
    let refund = paid_in(ctx.escrow);
    CancelEscrow {
        escrow: ctx.escrow.with_status(cancel_status(ctx.escrow, ctx.caller)),
        vault_nft: ctx.vault_nft.with_amount(0),
        vault_token: ctx.vault_token.with_amount(0),
        alice_nft_account: ctx.alice_nft_account.with_amount(ctx.alice_nft_account.amount + 1),
        bob_taker_token_account: ctx.bob_taker_token_account.with_amount(
            ctx.bob_taker_token_account.amount + refund,
        ),
        ..ctx
    }
}

/// Alice, or bob after paying, calls the escrow off: the custodial
/// authority refunds each deposit to its depositor.
pub fn handler(ctx: &mut CancelEscrow) -> (r: Result<(), ErrorCodes>)
    ensures
        r == match cancel_error(*old(ctx)) {
            Some(e) => Err::<(), ErrorCodes>(e),
            None => Ok(()),
        },
        r is Ok ==> *final(ctx) == cancelled(*old(ctx)),
        r is Err ==> *final(ctx) == *old(ctx),
{
    let pid = ctx.program_id;
    let escrow_key = ctx.escrow_key;
    let by_alice = ctx.caller.same(&ctx.escrow.alice_key);
    if !by_alice && !ctx.caller.same(&ctx.escrow.bob_key) {
        return Err(ErrorCodes::InvalidBobOrAlice);
    }
    let found = escrow_address(&pid, &ctx.escrow.alice_key, &ctx.escrow.alice_nft_key, &ctx.escrow.bob_key);
    if !matches_address(&found, &escrow_key) {
        return Err(ErrorCodes::InvalidAddress);
    }
    let found = vault_nft_address(&pid, &escrow_key, &ctx.alice_nft);
    if !matches_address(&found, &ctx.vault_nft.key) {
        return Err(ErrorCodes::InvalidAddress);
    }
    let found = vault_token_address(&pid, &escrow_key, &ctx.taker_token);
    if !matches_address(&found, &ctx.vault_token.key) {
        return Err(ErrorCodes::InvalidAddress);
    }
    let found = authority_address(&pid, &escrow_key);
    if !matches_address(&found, &ctx.authority_vault) {
        return Err(ErrorCodes::InvalidAddress);
    }
    if !ctx.alice_nft_account.mint.same(&ctx.alice_nft)
        || !ctx.bob_taker_token_account.mint.same(&ctx.taker_token)
        || !ctx.escrow.alice_nft_key.same(&ctx.alice_nft)
        || !ctx.escrow.taker_token_key.same(&ctx.taker_token)
        || !ctx.vault_nft.mint.same(&ctx.alice_nft)
        || !ctx.vault_token.mint.same(&ctx.taker_token) {
        return Err(ErrorCodes::InvalidMintNft);
    }
    if !ctx.vault_nft.owner.same(&ctx.authority_vault) || !ctx.vault_token.owner.same(&ctx.authority_vault) {
        return Err(ErrorCodes::InvalidEscrow);
    }
    if !ctx.alice_nft_account.owner.same(&ctx.escrow.alice_key)
        || !ctx.bob_taker_token_account.owner.same(&ctx.escrow.bob_key) {
        return Err(ErrorCodes::InvalidBobOrAlice);
    }
    if ctx.escrow.status.is_terminal() {
        return Err(ErrorCodes::InvalidEscrow);
    }
    let paid = ctx.escrow.status == StatusStage::TokenDeposited;
    if !paid && !by_alice {
        return Err(ErrorCodes::InvalidBobOrAlice);
    }
    let refund: u64 = if paid { ctx.escrow.taker_amount } else { 0 };
    if ctx.vault_nft.amount != 1 || ctx.vault_token.amount != refund {
        return Err(ErrorCodes::InvalidEscrow);
    }
    if ctx.alice_nft_account.amount > u64::MAX - 1 || ctx.bob_taker_token_account.amount > u64::MAX - refund {
        return Err(ErrorCodes::AmountOverflow);
    }
    ctx.escrow.status = if by_alice { StatusStage::CancelByAlice } else { StatusStage::CancelByBob };
    transfer(&mut ctx.vault_nft, &mut ctx.alice_nft_account, 1);
    transfer(&mut ctx.vault_token, &mut ctx.bob_taker_token_account, refund);
    Ok(())
}

} // verus!
