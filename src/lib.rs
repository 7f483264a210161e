//! Verified core of an invoice-to-voucher upload pipeline: invoice records,
//! the resolver cache, the per-invoice upload protocol and the completed ledger.

pub mod amount;
pub mod date;
pub mod settings;
pub mod invoice;
pub mod upload;
pub mod sync;
