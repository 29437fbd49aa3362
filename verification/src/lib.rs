//! Validated decoding and normalising encoding of the message that opens an
//! IBC connection handshake (`MsgConnectionOpenInit`).
//!
//! The wire form of the message is a bag of strings, bytes and integers. The
//! domain form holds only values that have passed validation. Every function
//! is specified over a mathematical view of its arguments, and the relation
//! between decoding and encoding is proved once and for all.
pub mod commitment;
pub mod conn_open_init;
pub mod connection;
pub mod duration;
pub mod error;
pub mod identifier;
pub mod signer;
pub mod text;
pub mod version;
pub mod wire;
