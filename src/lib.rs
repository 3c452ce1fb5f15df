//! Monetary unit descriptors for a financial domain model.

pub mod currency;
pub mod enums;
