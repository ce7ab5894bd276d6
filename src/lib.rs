//! Provisioning and streaming logic of a token demonstration client:
//! balance rendering, token-account decoding, confirmation polling, the
//! ordered provisioning sequence with its transactions, and the decode
//! dispatch of stream envelopes.
pub mod account;
pub mod amount;
pub mod poll;
pub mod provision;
pub mod stream;
pub mod transaction;
