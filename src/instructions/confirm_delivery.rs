use crate::errors::ErrorCodes;
use crate::keys::{
    authority_address, authority_address_spec, escrow_address, escrow_address_spec, is_address,
    matches_address, vault_nft_address, vault_nft_address_spec, vault_token_address,
    vault_token_address_spec, Key,
};
use crate::state::{Escrow, StatusStage};
use crate::token::{transfer, TokenAccount};
use vstd::prelude::*;

verus! {

/// The accounts that alice's confirmation of delivery reads and writes.
#[derive(Clone, Copy, Debug)]
pub struct ConfirmDelivery {
    pub program_id: Key,
    /// The signer.
    pub alice: Key,
    /// Address of the escrow record.
    pub escrow_key: Key,
    pub escrow: Escrow,
    pub vault_nft: TokenAccount,
    pub vault_token: TokenAccount,
    /// Alice's account that receives the payment.
    pub alice_taker_token_account: TokenAccount,
    /// Bob's account that receives the collectible.
    pub bob_nft_account: TokenAccount,
    pub alice_nft: Key,
    pub taker_token: Key,
    pub authority_vault: Key,
}

/// The first check that a confirmation fails, in the order they are made;
/// `None` where all pass.
pub open spec fn confirm_error(ctx: ConfirmDelivery) -> Option<ErrorCodes> {
    let e = ctx.escrow;
    let pid = ctx.program_id@;
    if ctx.alice@ != e.alice_key@ {
        Some(ErrorCodes::InvalidBobOrAlice)
    } else if !is_address(ctx.escrow_key@, escrow_address_spec(pid, ctx.alice@, e.alice_nft_key@, e.bob_key@)) {
        Some(ErrorCodes::InvalidAddress)
    } else if !is_address(ctx.vault_nft.key@, vault_nft_address_spec(pid, ctx.escrow_key@, ctx.alice_nft@)) {
        Some(ErrorCodes::InvalidAddress)
    } else if !is_address(ctx.vault_token.key@, vault_token_address_spec(pid, ctx.escrow_key@, ctx.taker_token@)) {
        Some(ErrorCodes::InvalidAddress)
    } else if !is_address(ctx.authority_vault@, authority_address_spec(pid, ctx.escrow_key@)) {
        Some(ErrorCodes::InvalidAddress)
    } else if ctx.alice_taker_token_account.mint@ != ctx.taker_token@
        || ctx.bob_nft_account.mint@ != ctx.alice_nft@
        || e.alice_nft_key@ != ctx.alice_nft@
        || e.taker_token_key@ != ctx.taker_token@
        || ctx.vault_nft.mint@ != ctx.alice_nft@
        || ctx.vault_token.mint@ != ctx.taker_token@ {
        Some(ErrorCodes::InvalidMintNft)
    } else if ctx.vault_nft.owner@ != ctx.authority_vault@ || ctx.vault_token.owner@ != ctx.authority_vault@ {
        Some(ErrorCodes::InvalidEscrow)
    } else if ctx.bob_nft_account.owner@ != e.bob_key@ || ctx.alice_taker_token_account.owner@ != ctx.alice@ {
        Some(ErrorCodes::InvalidBobOrAlice)
    } else if e.status != StatusStage::TokenDeposited
        || ctx.vault_nft.amount != 1
        || ctx.vault_token.amount != e.taker_amount {
        Some(ErrorCodes::InvalidEscrow)
    } else if ctx.bob_nft_account.amount + 1 > u64::MAX
        || ctx.alice_taker_token_account.amount + e.taker_amount > u64::MAX {
        Some(ErrorCodes::AmountOverflow)
    } else {
        None
    }
}

/// The accounts after a confirmation that passed every check: the
/// collectible has gone to bob, the payment to alice, both vaults are empty
/// and the status is `Delivered`.
pub open spec fn delivered(ctx: ConfirmDelivery) -> ConfirmDelivery {
    let amount = ctx.escrow.taker_amount;
    ConfirmDelivery {
        escrow: ctx.escrow.with_status(StatusStage::Delivered),
        vault_nft: ctx.vault_nft.with_amount(0),
        vault_token: ctx.vault_token.with_amount(0),
        bob_nft_account: ctx.bob_nft_account.with_amount(ctx.bob_nft_account.amount + 1),
        alice_taker_token_account: ctx.alice_taker_token_account.with_amount(
            ctx.alice_taker_token_account.amount + amount,
        ),
        ..ctx
    }
}

/// Alice confirms delivery: the custodial authority releases the collectible
/// to bob and the payment to alice, together.
pub fn handler(ctx: &mut ConfirmDelivery) -> (r: Result<(), ErrorCodes>)
    ensures
        r == match confirm_error(*old(ctx)) {
            Some(e) => Err::<(), ErrorCodes>(e),
            None => Ok(()),
        },
        r is Ok ==> *final(ctx) == delivered(*old(ctx)),
        r is Err ==> *final(ctx) == *old(ctx),
{
    let pid = ctx.program_id;
    let escrow_key = ctx.escrow_key;
    if !ctx.alice.same(&ctx.escrow.alice_key) {
        return Err(ErrorCodes::InvalidBobOrAlice);
    }
    let found = escrow_address(&pid, &ctx.alice, &ctx.escrow.alice_nft_key, &ctx.escrow.bob_key);
    if !matches_address(&found, &escrow_key) {
        return Err(ErrorCodes::InvalidAddress);
    }
    let found = vault_nft_address(&pid, &escrow_key, &ctx.alice_nft);
    if !matches_address(&found, &ctx.vault_nft.key) {
        return Err(ErrorCodes::InvalidAddress);
    }
    let found = vault_token_address(&pid, &escrow_key, &ctx.taker_token);
    if !matches_address(&found, &ctx.vault_token.key) {
        return Err(ErrorCodes::InvalidAddress);
    }
    let found = authority_address(&pid, &escrow_key);
    if !matches_address(&found, &ctx.authority_vault) {
        return Err(ErrorCodes::InvalidAddress);
    }
    if !ctx.alice_taker_token_account.mint.same(&ctx.taker_token)
        || !ctx.bob_nft_account.mint.same(&ctx.alice_nft)
        || !ctx.escrow.alice_nft_key.same(&ctx.alice_nft)
        || !ctx.escrow.taker_token_key.same(&ctx.taker_token)
        || !ctx.vault_nft.mint.same(&ctx.alice_nft)
        || !ctx.vault_token.mint.same(&ctx.taker_token) {
        return Err(ErrorCodes::InvalidMintNft);
    }
    if !ctx.vault_nft.owner.same(&ctx.authority_vault) || !ctx.vault_token.owner.same(&ctx.authority_vault) {
        return Err(ErrorCodes::InvalidEscrow);
    }
    if !ctx.bob_nft_account.owner.same(&ctx.escrow.bob_key)
        || !ctx.alice_taker_token_account.owner.same(&ctx.alice) {
        return Err(ErrorCodes::InvalidBobOrAlice);
    }
    let amount = ctx.escrow.taker_amount;
    if ctx.escrow.status != StatusStage::TokenDeposited || ctx.vault_nft.amount != 1
        || ctx.vault_token.amount != amount {
        return Err(ErrorCodes::InvalidEscrow);
    }
    if ctx.bob_nft_account.amount > u64::MAX - 1
        || ctx.alice_taker_token_account.amount > u64::MAX - amount {
        return Err(ErrorCodes::AmountOverflow);
    }
    ctx.escrow.status = StatusStage::Delivered;
    transfer(&mut ctx.vault_nft, &mut ctx.bob_nft_account, 1);
    transfer(&mut ctx.vault_token, &mut ctx.alice_taker_token_account, amount);
    Ok(())
}

} // verus!
