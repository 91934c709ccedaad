//! The values that packets carry.
pub mod key_id;
pub mod packet;
pub mod params;
pub mod s2k;
pub mod secret_key_repr;
