//! Native push notifications: payload decryption, the on-device keypair and
//! the registration request.

pub mod crypto;
pub mod display;
pub mod keystore;
pub mod registration;
