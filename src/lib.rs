//! A function-as-a-service execution core: signature codec, value marshalling,
//! instruction metering, module cache, metered execution and credit billing.

pub mod account;
pub mod cache;
pub mod deploy;
pub mod engine;
pub mod error;
pub mod ffi;
pub mod ledger;
pub mod metering;
pub mod runtime;
pub mod signature;
