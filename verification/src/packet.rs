//! Packet bodies.
pub mod one_pass_signature;
pub mod packet_trait;
pub mod signature;
