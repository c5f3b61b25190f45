//! Address derivation, Base58Check address codec, constructor-parameter
//! encoding and recoverable signing for TRON accounts.
pub mod abi;
mod bytes;
pub mod codec;
pub mod deploy;
pub mod error;
pub mod hashing;
pub mod hexcodec;
pub mod keys;
pub mod message;
pub mod owners;
pub mod signer;
