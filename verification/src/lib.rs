//! Sync engine for clipboard sharing between instances of one application on
//! a local network: PIN-based pairing, authenticated encryption of clip items,
//! peer discovery filtering, and the receiver/sender decision rules.

pub mod crypto;
pub mod discovery;
pub mod engine;
pub mod session;
pub mod transport;
