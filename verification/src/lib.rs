//! Builds, signs and encodes the transactions of a simple value-transfer chain.
//!
//! Nothing here keeps state. Every result is determined by the arguments, apart
//! from the bytes of a signature (signing draws fresh randomness) and from the
//! default answer to the timestamp query, which reads the system's clock.
//!
//! The numbers and byte strings that the contracts speak of are defined in
//! [`bytes`], [`compact`], [`era`], [`address`], [`call`] and [`extrinsic`];
//! [`seed`] and [`keys`] make accounts and keys, [`signer`] signs, and
//! [`adapter`] puts the pieces together for a load generator.

pub mod adapter;
pub mod address;
pub mod bytes;
pub mod call;
pub mod compact;
pub mod era;
pub mod extrinsic;
pub mod hashing;
pub mod keys;
pub mod primitives;
pub mod seed;
pub mod signer;
