use crate::constants::{PUBKEY_SIZE, U64_SIZE};
use crate::keys::Key;
use vstd::prelude::*;

verus! {

/// Where an escrow stands. The last three are terminal.
#[derive(Clone, Copy, Debug, PartialEq, Eq, Structural)]
pub enum StatusStage {
    NftDeposited,
    TokenDeposited,
    Delivered,
    CancelByAlice,
    CancelByBob,
}

impl StatusStage {
    pub open spec fn is_terminal_spec(self) -> bool {
        self is Delivered || self is CancelByAlice || self is CancelByBob
    }

    /// Whether no operation may move the escrow on from here.
    pub fn is_terminal(&self) -> (r: bool)
        ensures
            r == self.is_terminal_spec(),
    {
        match self {
            StatusStage::NftDeposited => false,
            StatusStage::TokenDeposited => false,
            _ => true,
        }
    }
}

/// The transitions of the escrow state machine.
pub open spec fn step_allowed(from: StatusStage, to: StatusStage) -> bool {
    ||| (from is NftDeposited && to is TokenDeposited)
    ||| (from is TokenDeposited && to is Delivered)
    ||| (from is NftDeposited && to is CancelByAlice)
    ||| (from is TokenDeposited && (to is CancelByAlice || to is CancelByBob))
}

/// The escrow record: the terms bound at initialization and the status.
#[derive(Clone, Copy, Debug)]
pub struct Escrow {
    pub alice_nft_key: Key,
    pub bob_key: Key,
    pub alice_key: Key,
    pub taker_amount: u64,
    pub taker_token_key: Key,
    pub status: StatusStage,
}

impl Escrow {
    /// Bytes that the stored record takes: an 8-byte account tag, four
    /// identities, the amount, and the status with its tag byte.
    pub fn space() -> (r: usize)
        ensures
            r == 8 + 4 * 32 + 8 + 2,
    {
        8 + PUBKEY_SIZE + PUBKEY_SIZE + PUBKEY_SIZE + U64_SIZE + PUBKEY_SIZE + 1 + 1
    }

    /// The record with only its status changed.
    pub open spec fn with_status(self, status: StatusStage) -> Escrow {
        Escrow { status, ..self }
    }
}

} // verus!
