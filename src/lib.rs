//! Threshold-authorization core for a k-of-n multisig account: key and
//! signature normalization, proposal classification and signing advice.

pub mod auth;
pub mod authorizer;
pub mod codec;
pub mod engine;
pub mod error;
pub mod hexcode;
pub mod ids;
pub mod ops;
pub mod orders;
pub mod queue;
pub mod records;
pub mod storage;
