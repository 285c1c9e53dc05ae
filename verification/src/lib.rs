//! Peer-to-peer encrypted file transfer: the protocol core.
//!
//! A sender publishes a short textual ticket; a receiver parses it and the two
//! run an authenticated key agreement on every substream, then exchange tagged
//! frames that carry one file each, with a content hash checked at the end and
//! resumption of interrupted transfers.
//!
//! This crate holds the rules of that exchange and performs no I/O: every
//! function works on bytes and plain values, so that a transport and a file
//! system can be driven from outside.

pub mod crypto;
pub mod encoding;
pub mod error;
pub mod event;
pub mod frontend_events;
pub mod fs;
pub mod p2p;
pub mod receiver;
pub mod sender;
pub mod ticket;
