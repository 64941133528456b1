pub mod cancel_escrow;
pub mod confirm_delivery;
pub mod deposit_taker_token;
pub mod initialize_escrow;

pub use cancel_escrow::CancelEscrow;
pub use confirm_delivery::ConfirmDelivery;
pub use deposit_taker_token::DepositTakerToken;
pub use initialize_escrow::InitializeEscrow;
