//! Key parameters: public, plain secret and encrypted secret.
pub mod encrypted_secret;
pub mod plain_secret;
pub mod public;
