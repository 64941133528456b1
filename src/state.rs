pub mod escrow;

pub use escrow::Escrow;
pub use escrow::StatusStage;
