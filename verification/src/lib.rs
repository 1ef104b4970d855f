//! Ossuary: an encrypted and authenticated channel between a client and a
//! server, layered as a filter over a reliable, in-order byte transport.
//!
//! This crate holds the wire-level pieces of the protocol with their
//! contracts: packet types and headers and their byte encodings, nonce
//! arithmetic, host-key generation and the connection's initial state.

pub mod connection;
pub mod error;
pub mod keys;
pub mod nonce;
pub mod packet;

pub use connection::{ConnectionType, OssuaryConnection};
pub use error::OssuaryError;
pub use keys::generate_auth_keypair;
pub use packet::PacketType;

use vstd::prelude::*;

verus! {

/// Version of the protocol spoken by this library.
pub const PROTOCOL_VERSION: u8 = 1u8;

/// Maximum time to wait, in seconds, for a handshake response.
pub const MAX_HANDSHAKE_WAIT_TIME: u64 = 3u64;

/// Maximum number of times a connection can reset before a permanent failure.
pub const MAX_RESET_COUNT: usize = 5;

/// Size of the random data to be signed by the remote host.
pub const CHALLENGE_LEN: usize = 32;

/// Size of an Ed25519 signature.
pub const SIGNATURE_LEN: usize = 64;

/// Size of a public or secret key.
pub const KEY_LEN: usize = 32;

/// Size of a session nonce.
pub const NONCE_LEN: usize = 12;

/// Size of a ChaCha20-Poly1305 authentication tag.
pub const TAG_LEN: usize = 16;

/// Size of the internal buffers that hold a complete network packet: the
/// largest data, both headers and the tag.
pub const PACKET_BUF_SIZE: usize = 16384 + packet::PACKET_HEADER_LEN + packet::ENCRYPTED_PACKET_LEN
    + TAG_LEN;

} // verus!
