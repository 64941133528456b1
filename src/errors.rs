use vstd::prelude::*;

verus! {

/// Why an escrow operation was refused. A refused operation changes nothing.
#[derive(Clone, Copy, Debug, PartialEq, Eq, Structural)]
pub enum ErrorCodes {
    /// A source account holds less than the amount to move.
    NotEnoughLamport,
    /// An account holds another asset than the one bound to the escrow.
    InvalidMintNft,
    /// The escrow record, or a vault, is not in the state the operation needs.
    InvalidEscrow,
    /// The signer is not the party allowed to run the operation.
    InvalidBobOrAlice,
    /// A live escrow already exists for the same terms.
    DuplicateEscrow,
    /// The payment amount is zero.
    InvalidAmount,
    /// An account is not at the address derived for it.
    InvalidAddress,
    /// A credit would take a balance past `u64::MAX`.
    AmountOverflow,
}

impl ErrorCodes {
    /// A short message for the error.
    pub fn message(&self) -> (r: String) {
        match self {
            ErrorCodes::NotEnoughLamport => "Not enough lamport".to_string(),
            ErrorCodes::InvalidMintNft => "Invalid mint nft".to_string(),
            ErrorCodes::InvalidEscrow => "Invalid escrow".to_string(),
            ErrorCodes::InvalidBobOrAlice => "Invalid bob or alice".to_string(),
            ErrorCodes::DuplicateEscrow => "Duplicate escrow".to_string(),
            ErrorCodes::InvalidAmount => "Invalid amount".to_string(),
            ErrorCodes::InvalidAddress => "Invalid address".to_string(),
            ErrorCodes::AmountOverflow => "Amount overflow".to_string(),
        }
    }
}

} // verus!
