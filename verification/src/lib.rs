//! SipHash: a family of keyed pseudo-random functions over byte streams,
//! with 64-bit and 128-bit digests.
//!
//! [`sip`] holds the hashers with a 64-bit digest and the streaming engine
//! behind all hashers, [`sip128`] the hashers with a 128-bit digest.
//! [`model`] says what an engine is and what writing and finishing mean,
//! [`laws`] what follows from that for every key and every byte stream.
//! [`rounds`] is the SipRound permutation, [`bytes`] the little-endian
//! packing of bytes into words.

pub mod bytes;
pub mod laws;
pub mod model;
pub mod prelude;
pub mod rounds;
pub mod sip;
pub mod sip128;
