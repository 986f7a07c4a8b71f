//! Client-side builder for a fixed on-chain program interface.
//!
//! The library produces byte-exact instruction payloads (an 8-byte
//! discriminator followed by a deterministic binary encoding of typed
//! fields), ordered account-reference lists, and the program-derived
//! addresses those instructions rely on.  It also holds the pure parts
//! of the metadata uploader: multipart body construction and the
//! tolerant extraction of upload locations from a JSON response.

pub mod address;
pub mod encode;
pub mod error;
pub mod instructions;
pub mod pda;
pub mod utils;
