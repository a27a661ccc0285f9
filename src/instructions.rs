pub mod claim;
pub mod initialize;
pub mod payment;
pub mod platform;
pub mod refund;
