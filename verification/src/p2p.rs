//! What travels between the peers.

pub mod frame;
