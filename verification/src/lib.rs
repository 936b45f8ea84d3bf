//! Codec for a single wire unit: a datagram that carries a payload tagged
//! with the identifier of the logical stream it belongs to.
//!
//! The wire layout of one datagram is a variable-length integer holding the
//! stream identifier, followed by the payload bytes verbatim:
//!
//! ```text
//! [ varint: qstream id ][ remaining bytes: payload ]
//! ```
//!
//! `varint` holds the variable-length integer encoding, `ids` the validated
//! stream identifier type, and `datagram` the codec itself.

pub mod datagram;
pub mod ids;
pub mod varint;

pub use datagram::Datagram;
pub use datagram::DatagramReadError;
pub use datagram::EndOfBuffer;
pub use ids::InvalidQStreamId;
pub use ids::QStreamId;
