pub mod escrow;
pub mod located;
pub mod obligation;
pub mod realm;
pub mod strategy;
pub mod vault;
