//! Secret-key parameters and one-pass-signature packets of the OpenPGP
//! message format.
//!
//! The crate parses packet bodies that come from an untrusted source into
//! typed values, writes them back byte for byte, turns plain secret
//! parameters into keys that the cryptographic crates accept, and protects
//! them with a passphrase.  Every function is verified against a contract
//! over byte sequences; the calls into the hash, cipher, random number and
//! RSA crates are the only trusted parts, and each of them says so.
pub mod crypto;
pub mod errors;
pub mod packet;
pub mod ser;
pub mod types;
pub mod util;
