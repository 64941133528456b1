//! What the four operations guarantee, stated over their contracts.
use crate::errors::ErrorCodes;
use crate::instructions::cancel_escrow::{cancel_error, cancelled};
use crate::instructions::confirm_delivery::{confirm_error, delivered};
use crate::instructions::deposit_taker_token::{deposit_error, deposited};
use crate::instructions::initialize_escrow::{initialize_error, initialized, new_record};
use crate::instructions::{CancelEscrow, ConfirmDelivery, DepositTakerToken, InitializeEscrow};
use crate::keys::Key;
use crate::state::escrow::step_allowed;
use crate::state::{Escrow, StatusStage};
use vstd::prelude::*;

verus! {

/// The terms bound to a record, which no operation changes.
pub open spec fn same_terms(a: Escrow, b: Escrow) -> bool {
    a.alice_nft_key == b.alice_nft_key && a.bob_key == b.bob_key && a.alice_key == b.alice_key
        && a.taker_amount == b.taker_amount && a.taker_token_key == b.taker_token_key
}

/// An accepted initialization leaves the record in `NftDeposited`, one unit
/// of the collectible in its vault and nothing in the payment vault.
pub proof fn initialize_fills_collectible_vault(ctx: InitializeEscrow, bob_key: Key, taker_amount: u64)
    requires
        initialize_error(ctx, bob_key, taker_amount) is None,
    ensures
        initialized(ctx, bob_key, taker_amount).escrow == Some(new_record(ctx, bob_key, taker_amount)),
        new_record(ctx, bob_key, taker_amount).status == StatusStage::NftDeposited,
        new_record(ctx, bob_key, taker_amount).taker_amount == taker_amount,
        initialized(ctx, bob_key, taker_amount).vault_nft.amount == 1,
        initialized(ctx, bob_key, taker_amount).vault_token.amount == 0,
        initialized(ctx, bob_key, taker_amount).alice_nft_account.amount == ctx.alice_nft_account.amount - 1,
{
}

/// A deposit is refused unless the record is in `NftDeposited`; the refusal
/// is `InvalidEscrow` unless an identity, address or asset check failed
/// first. An accepted deposit moves the record to `TokenDeposited` and puts
/// exactly the bound amount in the payment vault.
pub proof fn deposit_only_from_nft_deposited(ctx: DepositTakerToken)
    ensures
        ctx.escrow.status != StatusStage::NftDeposited ==> {
            ||| deposit_error(ctx) == Some(ErrorCodes::InvalidEscrow)
            ||| deposit_error(ctx) == Some(ErrorCodes::InvalidBobOrAlice)
            ||| deposit_error(ctx) == Some(ErrorCodes::InvalidAddress)
            ||| deposit_error(ctx) == Some(ErrorCodes::InvalidMintNft)
        },
        deposit_error(ctx) is None ==> {
            &&& deposited(ctx).escrow.status == StatusStage::TokenDeposited
            &&& deposited(ctx).vault_token.amount == ctx.escrow.taker_amount
            &&& deposited(ctx).bob_taker_token_account.amount == ctx.bob_taker_token_account.amount
                - ctx.escrow.taker_amount
        },
{
}

/// Only the bound bob can deposit, whatever else holds.
pub proof fn deposit_only_by_bob(ctx: DepositTakerToken)
    requires
        ctx.bob@ != ctx.escrow.bob_key@,
    ensures
        deposit_error(ctx) == Some(ErrorCodes::InvalidBobOrAlice),
{
}

/// A confirmation is refused unless the record is in `TokenDeposited`; the
/// refusal is `InvalidEscrow` unless an identity, address or asset check
/// failed first. An accepted one empties both vaults, gives bob one unit of
/// the collectible and alice exactly the bound amount, and ends `Delivered`.
pub proof fn confirm_only_from_token_deposited(ctx: ConfirmDelivery)
    ensures
        ctx.escrow.status != StatusStage::TokenDeposited ==> {
            ||| confirm_error(ctx) == Some(ErrorCodes::InvalidEscrow)
            ||| confirm_error(ctx) == Some(ErrorCodes::InvalidBobOrAlice)
            ||| confirm_error(ctx) == Some(ErrorCodes::InvalidAddress)
            ||| confirm_error(ctx) == Some(ErrorCodes::InvalidMintNft)
        },
        confirm_error(ctx) is None ==> {
            &&& delivered(ctx).vault_nft.amount == 0
            &&& delivered(ctx).vault_token.amount == 0
            &&& delivered(ctx).bob_nft_account.amount == ctx.bob_nft_account.amount + 1
            &&& delivered(ctx).alice_taker_token_account.amount == ctx.alice_taker_token_account.amount
                + ctx.escrow.taker_amount
            &&& delivered(ctx).escrow.status == StatusStage::Delivered
        },
{
}

/// A cancellation from `NftDeposited` returns the collectible to alice and
/// ends in `CancelByAlice`; once the record is terminal a cancellation is
/// refused, with `InvalidEscrow` unless an identity, address or asset check
/// failed first.
pub proof fn cancel_refunds_and_ends(ctx: CancelEscrow)
    ensures
        ctx.escrow.status == StatusStage::NftDeposited && cancel_error(ctx) is None ==> {
            &&& cancelled(ctx).alice_nft_account.amount == ctx.alice_nft_account.amount + 1
            &&& cancelled(ctx).vault_nft.amount == 0
            &&& cancelled(ctx).vault_token.amount == 0
            &&& cancelled(ctx).bob_taker_token_account == ctx.bob_taker_token_account
            &&& cancelled(ctx).escrow.status == StatusStage::CancelByAlice
            &&& cancelled(ctx).escrow.status.is_terminal_spec()
        },
        ctx.escrow.status.is_terminal_spec() ==> {
            ||| cancel_error(ctx) == Some(ErrorCodes::InvalidEscrow)
            ||| cancel_error(ctx) == Some(ErrorCodes::InvalidBobOrAlice)
            ||| cancel_error(ctx) == Some(ErrorCodes::InvalidAddress)
            ||| cancel_error(ctx) == Some(ErrorCodes::InvalidMintNft)
        },
{
}

/// Once an escrow is open, initializing the same {alice, collectible, bob}
/// again, on any terms, is refused with `DuplicateEscrow` while the record
/// is live.
pub proof fn second_initialize_refused(
    first: InitializeEscrow,
    bob_key: Key,
    taker_amount: u64,
    second: InitializeEscrow,
    taker_amount2: u64,
)
    requires
        initialize_error(first, bob_key, taker_amount) is None,
        second.program_id == first.program_id,
        second.alice == first.alice,
        second.alice_nft == first.alice_nft,
        second.escrow_key == first.escrow_key,
        second.escrow == initialized(first, bob_key, taker_amount).escrow,
    ensures
        initialize_error(second, bob_key, taker_amount2) == Some(ErrorCodes::DuplicateEscrow),
{
}

/// Every accepted operation moves the status along an edge of the state
/// machine and leaves the bound terms as they were.
pub proof fn accepted_steps_follow_state_machine(
    d: DepositTakerToken,
    c: ConfirmDelivery,
    x: CancelEscrow,
)
    ensures
        deposit_error(d) is None ==> step_allowed(d.escrow.status, deposited(d).escrow.status)
            && same_terms(d.escrow, deposited(d).escrow),
        confirm_error(c) is None ==> step_allowed(c.escrow.status, delivered(c).escrow.status)
            && same_terms(c.escrow, delivered(c).escrow),
        cancel_error(x) is None ==> step_allowed(x.escrow.status, cancelled(x).escrow.status)
            && same_terms(x.escrow, cancelled(x).escrow),
{
}

} // verus!
