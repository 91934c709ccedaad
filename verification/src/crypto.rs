//! Algorithm registries and the cryptographic primitives behind them.
pub mod checksum;
pub mod ecc_curve;
pub mod hash;
pub mod public_key;
pub mod random;
pub mod rsa_key;
pub mod sym;
