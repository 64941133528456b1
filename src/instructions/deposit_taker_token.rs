use crate::errors::ErrorCodes;
use crate::keys::{
    authority_address, authority_address_spec, escrow_address, escrow_address_spec, is_address,
    matches_address, vault_token_address, vault_token_address_spec, Key,
};
use crate::state::{Escrow, StatusStage};
use crate::token::{transfer, TokenAccount};
use vstd::prelude::*;

verus! {

/// The accounts that bob's payment deposit reads and writes.
#[derive(Clone, Copy, Debug)]
pub struct DepositTakerToken {
    pub program_id: Key,
    /// The signer.
    pub bob: Key,
    /// Address of the escrow record.
    pub escrow_key: Key,
    pub escrow: Escrow,
    pub vault_token: TokenAccount,
    /// Bob's account the payment comes from.
    pub bob_taker_token_account: TokenAccount,
    /// The payment asset presented.
    pub taker_token: Key,
    pub authority_vault: Key,
}

/// The first check that a deposit fails, in the order they are made; `None`
/// where all pass.
pub open spec fn deposit_error(ctx: DepositTakerToken) -> Option<ErrorCodes> {
    let e = ctx.escrow;
    let pid = ctx.program_id@;
    if ctx.bob@ != e.bob_key@ {
        Some(ErrorCodes::InvalidBobOrAlice)
    } else if !is_address(ctx.escrow_key@, escrow_address_spec(pid, e.alice_key@, e.alice_nft_key@, ctx.bob@)) {
        Some(ErrorCodes::InvalidAddress)
    } else if !is_address(ctx.vault_token.key@, vault_token_address_spec(pid, ctx.escrow_key@, ctx.taker_token@)) {
        Some(ErrorCodes::InvalidAddress)
    } else if !is_address(ctx.authority_vault@, authority_address_spec(pid, ctx.escrow_key@)) {
        Some(ErrorCodes::InvalidAddress)
    } else if ctx.bob_taker_token_account.mint@ != ctx.taker_token@
        || e.taker_token_key@ != ctx.taker_token@
        || ctx.vault_token.mint@ != ctx.taker_token@ {
        Some(ErrorCodes::InvalidMintNft)
    } else if ctx.vault_token.owner@ != ctx.authority_vault@ {
        Some(ErrorCodes::InvalidEscrow)
    } else if e.status != StatusStage::NftDeposited || ctx.vault_token.amount != 0 {
        Some(ErrorCodes::InvalidEscrow)
    } else if ctx.bob_taker_token_account.owner@ != ctx.bob@ {
        Some(ErrorCodes::InvalidBobOrAlice)
    } else if ctx.bob_taker_token_account.amount < e.taker_amount {
        Some(ErrorCodes::NotEnoughLamport)
    } else {
        None
    }
}

/// The accounts after a deposit that passed every check: the payment has
/// moved from bob to the vault and the status is `TokenDeposited`.
pub open spec fn deposited(ctx: DepositTakerToken) -> DepositTakerToken {
    let amount = ctx.escrow.taker_amount;
    DepositTakerToken {
        escrow: ctx.escrow.with_status(StatusStage::TokenDeposited),
        vault_token: ctx.vault_token.with_amount(ctx.vault_token.amount + amount),
        bob_taker_token_account: ctx.bob_taker_token_account.with_amount(
            ctx.bob_taker_token_account.amount - amount,
        ),
        ..ctx
    }
}

/// Bob funds the payment leg with exactly the amount bound to the escrow.
pub fn handler(ctx: &mut DepositTakerToken) -> (r: Result<(), ErrorCodes>)
    ensures
        r == match deposit_error(*old(ctx)) {
            Some(e) => Err::<(), ErrorCodes>(e),
            None => Ok(()),
        },
        r is Ok ==> *final(ctx) == deposited(*old(ctx)),
        r is Err ==> *final(ctx) == *old(ctx),
{
    let pid = ctx.program_id;
    let escrow_key = ctx.escrow_key;
    if !ctx.bob.same(&ctx.escrow.bob_key) {
        return Err(ErrorCodes::InvalidBobOrAlice);
    }
    let found = escrow_address(&pid, &ctx.escrow.alice_key, &ctx.escrow.alice_nft_key, &ctx.bob);
    if !matches_address(&found, &escrow_key) {
        return Err(ErrorCodes::InvalidAddress);
    }
    let found = vault_token_address(&pid, &escrow_key, &ctx.taker_token);
    if !matches_address(&found, &ctx.vault_token.key) {
        return Err(ErrorCodes::InvalidAddress);
    }
    let found = authority_address(&pid, &escrow_key);
    if !matches_address(&found, &ctx.authority_vault) {
        return Err(ErrorCodes::InvalidAddress);
    }
    if !ctx.bob_taker_token_account.mint.same(&ctx.taker_token)
        || !ctx.escrow.taker_token_key.same(&ctx.taker_token)
        || !ctx.vault_token.mint.same(&ctx.taker_token) {
        return Err(ErrorCodes::InvalidMintNft);
    }
    if !ctx.vault_token.owner.same(&ctx.authority_vault) {
        return Err(ErrorCodes::InvalidEscrow);
    }
    if ctx.escrow.status != StatusStage::NftDeposited || ctx.vault_token.amount != 0 {
        return Err(ErrorCodes::InvalidEscrow);
    }
    if !ctx.bob_taker_token_account.owner.same(&ctx.bob) {
        return Err(ErrorCodes::InvalidBobOrAlice);
    }
    let amount = ctx.escrow.taker_amount;
    if ctx.bob_taker_token_account.amount < amount {
        return Err(ErrorCodes::NotEnoughLamport);
    }
    ctx.escrow.status = StatusStage::TokenDeposited;
    transfer(&mut ctx.bob_taker_token_account, &mut ctx.vault_token, amount);
    Ok(())
}

} // verus!
