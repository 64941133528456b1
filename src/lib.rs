//! Two-party escrow of a unique collectible against a fungible payment.
//!
//! Alice locks a collectible in a custodial vault; bob pays a fixed amount
//! into a second vault; when alice confirms, the custodial authority derived
//! from the escrow record's address releases each asset to the other party.
//! Before completion the escrow can be cancelled and every deposit refunded.
pub mod constants;
pub mod errors;
pub mod instructions;
pub mod keys;
pub mod protocol;
pub mod state;
pub mod token;

use vstd::prelude::*;

use crate::errors::ErrorCodes;
use crate::instructions::cancel_escrow::{cancel_error, cancelled};
use crate::instructions::confirm_delivery::{confirm_error, delivered};
use crate::instructions::deposit_taker_token::{deposit_error, deposited};
use crate::instructions::initialize_escrow::{initialize_error, initialized};
use crate::instructions::{CancelEscrow, ConfirmDelivery, DepositTakerToken, InitializeEscrow};
use crate::keys::Key;

verus! {

/// Opens an escrow: see `instructions::initialize_escrow::handler`.
pub fn initialize_escrow(ctx: &mut InitializeEscrow, bob_key: Key, taker_amount: u64) -> (r: Result<(), ErrorCodes>)
    ensures
        r == match initialize_error(*old(ctx), bob_key, taker_amount) {
            Some(e) => Err::<(), ErrorCodes>(e),
            None => Ok(()),
        },
        r is Ok ==> *final(ctx) == initialized(*old(ctx), bob_key, taker_amount),
        r is Err ==> *final(ctx) == *old(ctx),
{
    instructions::initialize_escrow::handler(ctx, bob_key, taker_amount)
}

/// Cancels an escrow: see `instructions::cancel_escrow::handler`.
pub fn cancel_escrow(ctx: &mut CancelEscrow) -> (r: Result<(), ErrorCodes>)
    ensures
        r == match cancel_error(*old(ctx)) {
            Some(e) => Err::<(), ErrorCodes>(e),
            None => Ok(()),
        },
        r is Ok ==> *final(ctx) == cancelled(*old(ctx)),
        r is Err ==> *final(ctx) == *old(ctx),
{
    instructions::cancel_escrow::handler(ctx)
}

/// Bob pays in: see `instructions::deposit_taker_token::handler`.
pub fn deposit_taker_token(ctx: &mut DepositTakerToken) -> (r: Result<(), ErrorCodes>)
    ensures
        r == match deposit_error(*old(ctx)) {
            Some(e) => Err::<(), ErrorCodes>(e),
            None => Ok(()),
        },
        r is Ok ==> *final(ctx) == deposited(*old(ctx)),
        r is Err ==> *final(ctx) == *old(ctx),
{
    instructions::deposit_taker_token::handler(ctx)
}

/// Alice confirms delivery: see `instructions::confirm_delivery::handler`.
pub fn confirm_delivery(ctx: &mut ConfirmDelivery) -> (r: Result<(), ErrorCodes>)
    ensures
        r == match confirm_error(*old(ctx)) {
            Some(e) => Err::<(), ErrorCodes>(e),
            None => Ok(()),
        },
        r is Ok ==> *final(ctx) == delivered(*old(ctx)),
        r is Err ==> *final(ctx) == *old(ctx),
{
    instructions::confirm_delivery::handler(ctx)
}

} // verus!
