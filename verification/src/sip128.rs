//! An implementation of SipHash with a 128-bit digest.

use vstd::prelude::*;
use core::hash::Hasher as _;
use crate::bytes::{
    halves_from_le_bytes, halves_to_le_bytes, le_bytes, le_bytes16, le_halves,
};
use crate::laws::lemma_stream_digest128;
use crate::model::{absorb, digest128, init128, siphash128, Engine};
use crate::rounds::{Sip, Sip13Rounds, Sip24Rounds, State};
use crate::sip::{Hasher, Snapshot};

verus! {

/// A 128-bit (2x64) hash output: `h1` is the low half, `h2` the high one.
#[derive(Debug, Clone, Copy, PartialEq, Eq, Structural)]
pub struct Hash128 {
    pub h1: u64,
    pub h2: u64,
}

impl Default for Hash128 {
    /// The all-zero value.
    fn default() -> (r: Hash128)
        ensures
            r.h1 == 0,
            r.h2 == 0,
    {
        Hash128 { h1: 0, h2: 0 }
    }
}

proof fn bits_join_halves(lo: u64, hi: u64)
    by (bit_vector)
    ensures
        (lo as u128) | ((hi as u128) << 64) == lo + hi * 0x1_0000_0000_0000_0000,
{
}

impl Hash128 {
    /// Convert into a 16-bytes vector: the low half in little-endian
    /// order, then the high half.
    pub fn as_bytes(&self) -> (r: [u8; 16])
        ensures
            r@ == le_bytes16(self.h1, self.h2),
    {
        halves_to_le_bytes(self.h1, self.h2)
    }

    /// Convert into a `u128`
    #[inline]
    pub fn as_u128(&self) -> (r: u128)
        ensures
            r == self.h1 + self.h2 * 0x1_0000_0000_0000_0000,
    {
        proof {
            bits_join_halves(self.h1, self.h2);
        }
        (self.h1 as u128) | ((self.h2 as u128) << 64)
    }
}

/// A hasher that returns a 128-bit digest.
pub trait Hasher128 {
    /// The digest of what has been written to the hasher: low half, high
    /// half.
    spec fn digest(&self) -> (u64, u64);

    /// Return a 128-bit hash. The hasher is left as it is, so that asking
    /// again gives the same.
    fn finish128(&self) -> (r: Hash128)
        ensures
            (r.h1, r.h2) == self.digest(),
    ;
}

/// Creates an engine keyed for a 128-bit digest.
#[inline]
fn new_engine<S: Sip>(key0: u64, key1: u64) -> (h: Hasher<S>)
    ensures
        h@ == init128(key0, key1),
{
    Hasher::with_state(
        key0,
        key1,
        State {
            v0: key0 ^ 0x736f6d6570736575,
            v1: (key1 ^ 0x646f72616e646f6d) ^ 0xee,
            v2: key0 ^ 0x6c7967656e657261,
            v3: key1 ^ 0x7465646279746573,
        },
    )
}

impl<S: Sip> Hasher128 for Hasher<S> {
    open spec fn digest(&self) -> (u64, u64) {
        digest128(S::c(), S::d(), self@)
    }

    /// The 128-bit digest of what has been written to the engine.
    #[inline]
    fn finish128(&self) -> (r: Hash128)
        ensures
            (r.h1, r.h2) == digest128(S::c(), S::d(), self@),
    {
        let mut state = self.lanes();

        let b: u64 = self.last_block();

        state.v3 = state.v3 ^ b;
        S::c_rounds(&mut state);
        state.v0 = state.v0 ^ b;

        state.v2 = state.v2 ^ 0xee;
        S::d_rounds(&mut state);
        let h1: u64 = state.v0 ^ state.v1 ^ state.v2 ^ state.v3;

        state.v1 = state.v1 ^ 0xdd;
        S::d_rounds(&mut state);
        let h2: u64 = state.v0 ^ state.v1 ^ state.v2 ^ state.v3;

        Hash128 { h1, h2 }
    }
}

/// An implementation of SipHash128 1-3.
#[derive(Debug, Clone, Copy)]
pub struct SipHasher13 {
    hasher: Hasher<Sip13Rounds>,
}

impl View for SipHasher13 {
    type V = Engine;

    closed spec fn view(&self) -> Engine {
        self.hasher@
    }
}

impl Default for SipHasher13 {
    /// Creates a `SipHasher13` with the two initial keys set to 0.
    #[inline]
    fn default() -> (h: SipHasher13)
        ensures
            h@ == init128(0, 0),
    {
        SipHasher13::new()
    }
}

impl SipHasher13 {
    /// Creates a new `SipHasher13` with the two initial keys set to 0.
    #[inline]
    pub fn new() -> (h: SipHasher13)
        ensures
            h@ == init128(0, 0),
    {
        SipHasher13::new_with_keys(0, 0)
    }

    /// Creates a `SipHasher13` that is keyed off the provided keys.
    #[inline]
    pub fn new_with_keys(key0: u64, key1: u64) -> (h: SipHasher13)
        ensures
            h@ == init128(key0, key1),
    {
        SipHasher13 { hasher: new_engine(key0, key1) }
    }

    /// Creates a `SipHasher13` from a 16 byte key: the first eight bytes hold
    /// the first key half and the last eight the second, both in
    /// little-endian order.
    pub fn new_with_key(key: &[u8; 16]) -> (h: SipHasher13)
        ensures
            h@ == init128(le_halves(key@).0, le_halves(key@).1),
    {
        let (key0, key1) = halves_from_le_bytes(key);
        Self::new_with_keys(key0, key1)
    }

    /// Get the keys used by this hasher
    pub fn keys(&self) -> (r: (u64, u64))
        ensures
            r == (self@.k0, self@.k1),
    {
        self.hasher.keys()
    }

    /// Get the key used by this hasher as a 16 byte vector
    pub fn key(&self) -> (r: [u8; 16])
        ensures
            r@ == le_bytes16(self@.k0, self@.k1),
    {
        let (key0, key1) = self.keys();
        halves_to_le_bytes(key0, key1)
    }

    /// Hashes a byte array under the keys of this hasher, starting from a
    /// fresh engine: what was written to this hasher plays no part.
    #[inline]
    pub fn hash(&self, bytes: &[u8]) -> (r: Hash128)
        ensures
            (r.h1, r.h2) == siphash128(1, 3, self@.k0, self@.k1, bytes@),
    {
        let (key0, key1) = self.hasher.keys();
        let mut hasher: Hasher<Sip13Rounds> = new_engine(key0, key1);
        hasher.write(bytes);
        proof {
            lemma_stream_digest128(1, 3, key0, key1, bytes@);
        }
        hasher.finish128()
    }

    /// The complete state of the hasher as plain values.
    pub fn snapshot(&self) -> (s: Snapshot)
        ensures
            s.valid(),
            s.engine() == self@,
    {
        self.hasher.snapshot()
    }

    /// Rebuilds a hasher from a snapshot; `None` where the snapshot is not
    /// the state of any hasher.
    pub fn restore(s: &Snapshot) -> (r: Option<SipHasher13>)
        ensures
            r is Some <==> s.valid(),
            r matches Some(h) ==> h@ == s.engine(),
    {
        match Hasher::restore(s) {
            Some(hasher) => Some(SipHasher13 { hasher }),
            None => None,
        }
    }
}

impl Hasher128 for SipHasher13 {
    open spec fn digest(&self) -> (u64, u64) {
        digest128(1, 3, self@)
    }

    /// The 128-bit digest of what has been written so far. The hasher is
    /// left as it is.
    #[inline]
    fn finish128(&self) -> (r: Hash128)
        ensures
            (r.h1, r.h2) == digest128(1, 3, self@),
    {
        self.hasher.finish128()
    }
}

impl core::hash::Hasher for SipHasher13 {
    /// Writes `msg` to the hasher.
    #[inline]
    fn write(&mut self, msg: &[u8])
        ensures
            final(self)@ == absorb(1, old(self)@, msg@),
    {
        self.hasher.write(msg)
    }

    /// The high half of the 128-bit digest of what has been written so
    /// far. The hasher is left as it is.
    #[inline]
    fn finish(&self) -> (r: u64)
        ensures
            r == digest128(1, 3, self@).1,
    {
        self.hasher.finish128().h2
    }

    /// Writes the bytes of `i` in little-endian order, as many as a
    /// `usize` has.
    #[inline]
    fn write_usize(&mut self, i: usize)
        ensures
            final(self)@ == absorb(
                1,
                old(self)@,
                le_bytes(i as u64, vstd::layout::size_of::<usize>()),
            ),
    {
        self.hasher.write_usize(i);
    }

    /// Writes the byte `i`.
    #[inline]
    fn write_u8(&mut self, i: u8)
        ensures
            final(self)@ == absorb(1, old(self)@, le_bytes(i as u64, 1)),
    {
        self.hasher.write_u8(i);
    }

    /// Writes the two bytes of `i` in little-endian order.
    #[inline]
    fn write_u16(&mut self, i: u16)
        ensures
            final(self)@ == absorb(1, old(self)@, le_bytes(i as u64, 2)),
    {
        self.hasher.write_u16(i);
    }

    /// Writes the four bytes of `i` in little-endian order.
    #[inline]
    fn write_u32(&mut self, i: u32)
        ensures
            final(self)@ == absorb(1, old(self)@, le_bytes(i as u64, 4)),
    {
        self.hasher.write_u32(i);
    }

    /// Writes the eight bytes of `i` in little-endian order.
    #[inline]
    fn write_u64(&mut self, i: u64)
        ensures
            final(self)@ == absorb(1, old(self)@, le_bytes(i, 8)),
    {
        self.hasher.write_u64(i);
    }

    /// Writes the sixteen bytes of `i` in little-endian order.
    #[inline]
    fn write_u128(&mut self, i: u128)
        ensures
            final(self)@ == absorb(
                1,
                old(self)@,
                le_bytes16((i & 0xffff_ffff_ffff_ffff) as u64, (i >> 64) as u64),
            ),
    {
        self.hasher.write_u128(i);
    }
}

/// An implementation of SipHash128 2-4.
#[derive(Debug, Clone, Copy)]
pub struct SipHasher24 {
    hasher: Hasher<Sip24Rounds>,
}

impl View for SipHasher24 {
    type V = Engine;

    closed spec fn view(&self) -> Engine {
        self.hasher@
    }
}

impl Default for SipHasher24 {
    /// Creates a `SipHasher24` with the two initial keys set to 0.
    #[inline]
    fn default() -> (h: SipHasher24)
        ensures
            h@ == init128(0, 0),
    {
        SipHasher24::new()
    }
}

impl SipHasher24 {
    /// Creates a new `SipHasher24` with the two initial keys set to 0.
    #[inline]
    pub fn new() -> (h: SipHasher24)
        ensures
            h@ == init128(0, 0),
    {
        SipHasher24::new_with_keys(0, 0)
    }

    /// Creates a `SipHasher24` that is keyed off the provided keys.
    #[inline]
    pub fn new_with_keys(key0: u64, key1: u64) -> (h: SipHasher24)
        ensures
            h@ == init128(key0, key1),
    {
        SipHasher24 { hasher: new_engine(key0, key1) }
    }

    /// Creates a `SipHasher24` from a 16 byte key: the first eight bytes hold
    /// the first key half and the last eight the second, both in
    /// little-endian order.
    pub fn new_with_key(key: &[u8; 16]) -> (h: SipHasher24)
        ensures
            h@ == init128(le_halves(key@).0, le_halves(key@).1),
    {
        let (key0, key1) = halves_from_le_bytes(key);
        Self::new_with_keys(key0, key1)
    }

    /// Get the keys used by this hasher
    pub fn keys(&self) -> (r: (u64, u64))
        ensures
            r == (self@.k0, self@.k1),
    {
        self.hasher.keys()
    }

    /// Get the key used by this hasher as a 16 byte vector
    pub fn key(&self) -> (r: [u8; 16])
        ensures
            r@ == le_bytes16(self@.k0, self@.k1),
    {
        let (key0, key1) = self.keys();
        halves_to_le_bytes(key0, key1)
    }

    /// Hashes a byte array under the keys of this hasher, starting from a
    /// fresh engine: what was written to this hasher plays no part.
    #[inline]
    pub fn hash(&self, bytes: &[u8]) -> (r: Hash128)
        ensures
            (r.h1, r.h2) == siphash128(2, 4, self@.k0, self@.k1, bytes@),
    {
        let (key0, key1) = self.hasher.keys();
        let mut hasher: Hasher<Sip24Rounds> = new_engine(key0, key1);
        hasher.write(bytes);
        proof {
            lemma_stream_digest128(2, 4, key0, key1, bytes@);
        }
        hasher.finish128()
    }

    /// The complete state of the hasher as plain values.
    pub fn snapshot(&self) -> (s: Snapshot)
        ensures
            s.valid(),
            s.engine() == self@,
    {
        self.hasher.snapshot()
    }

    /// Rebuilds a hasher from a snapshot; `None` where the snapshot is not
    /// the state of any hasher.
    pub fn restore(s: &Snapshot) -> (r: Option<SipHasher24>)
        ensures
            r is Some <==> s.valid(),
            r matches Some(h) ==> h@ == s.engine(),
    {
        match Hasher::restore(s) {
            Some(hasher) => Some(SipHasher24 { hasher }),
            None => None,
        }
    }
}

impl Hasher128 for SipHasher24 {
    open spec fn digest(&self) -> (u64, u64) {
        digest128(2, 4, self@)
    }

    /// The 128-bit digest of what has been written so far. The hasher is
    /// left as it is.
    #[inline]
    fn finish128(&self) -> (r: Hash128)
        ensures
            (r.h1, r.h2) == digest128(2, 4, self@),
    {
        self.hasher.finish128()
    }
}

impl core::hash::Hasher for SipHasher24 {
    /// Writes `msg` to the hasher.
    #[inline]
    fn write(&mut self, msg: &[u8])
        ensures
            final(self)@ == absorb(2, old(self)@, msg@),
    {
        self.hasher.write(msg)
    }

    /// The high half of the 128-bit digest of what has been written so
    /// far. The hasher is left as it is.
    #[inline]
    fn finish(&self) -> (r: u64)
        ensures
            r == digest128(2, 4, self@).1,
    {
        self.hasher.finish128().h2
    }

    /// Writes the bytes of `i` in little-endian order, as many as a
    /// `usize` has.
    #[inline]
    fn write_usize(&mut self, i: usize)
        ensures
            final(self)@ == absorb(
                2,
                old(self)@,
                le_bytes(i as u64, vstd::layout::size_of::<usize>()),
            ),
    {
        self.hasher.write_usize(i);
    }

    /// Writes the byte `i`.
    #[inline]
    fn write_u8(&mut self, i: u8)
        ensures
            final(self)@ == absorb(2, old(self)@, le_bytes(i as u64, 1)),
    {
        self.hasher.write_u8(i);
    }

    /// Writes the two bytes of `i` in little-endian order.
    #[inline]
    fn write_u16(&mut self, i: u16)
        ensures
            final(self)@ == absorb(2, old(self)@, le_bytes(i as u64, 2)),
    {
        self.hasher.write_u16(i);
    }

    /// Writes the four bytes of `i` in little-endian order.
    #[inline]
    fn write_u32(&mut self, i: u32)
        ensures
            final(self)@ == absorb(2, old(self)@, le_bytes(i as u64, 4)),
    {
        self.hasher.write_u32(i);
    }

    /// Writes the eight bytes of `i` in little-endian order.
    #[inline]
    fn write_u64(&mut self, i: u64)
        ensures
            final(self)@ == absorb(2, old(self)@, le_bytes(i, 8)),
    {
        self.hasher.write_u64(i);
    }

    /// Writes the sixteen bytes of `i` in little-endian order.
    #[inline]
    fn write_u128(&mut self, i: u128)
        ensures
            final(self)@ == absorb(
                2,
                old(self)@,
                le_bytes16((i & 0xffff_ffff_ffff_ffff) as u64, (i >> 64) as u64),
            ),
    {
        self.hasher.write_u128(i);
    }
}

/// An implementation of SipHash128 2-4.
///
/// SipHash is a general-purpose hashing function: it runs at a good
/// speed (competitive with Spooky and City) and permits strong _keyed_
/// hashing. This lets you key your hashtables from a strong RNG.
///
/// Although the SipHash algorithm is considered to be generally strong,
/// it is not intended for cryptographic purposes. As such, all
/// cryptographic uses of this implementation are _strongly discouraged_.
#[derive(Debug, Clone, Copy)]
pub struct SipHasher(SipHasher24);

impl View for SipHasher {
    type V = Engine;

    closed spec fn view(&self) -> Engine {
        self.0@
    }
}

impl Default for SipHasher {
    /// Creates a `SipHasher` with the two initial keys set to 0.
    #[inline]
    fn default() -> (h: SipHasher)
        ensures
            h@ == init128(0, 0),
    {
        SipHasher::new()
    }
}

impl SipHasher {
    /// Creates a new `SipHasher` with the two initial keys set to 0.
    #[inline]
    pub fn new() -> (h: SipHasher)
        ensures
            h@ == init128(0, 0),
    {
        SipHasher::new_with_keys(0, 0)
    }

    /// Creates a `SipHasher` that is keyed off the provided keys.
    #[inline]
    pub fn new_with_keys(key0: u64, key1: u64) -> (h: SipHasher)
        ensures
            h@ == init128(key0, key1),
    {
        SipHasher(SipHasher24::new_with_keys(key0, key1))
    }

    /// Creates a `SipHasher` from a 16 byte key: the first eight bytes hold
    /// the first key half and the last eight the second, both in
    /// little-endian order.
    pub fn new_with_key(key: &[u8; 16]) -> (h: SipHasher)
        ensures
            h@ == init128(le_halves(key@).0, le_halves(key@).1),
    {
        let (key0, key1) = halves_from_le_bytes(key);
        Self::new_with_keys(key0, key1)
    }

    /// Get the keys used by this hasher
    pub fn keys(&self) -> (r: (u64, u64))
        ensures
            r == (self@.k0, self@.k1),
    {
        self.0.keys()
    }

    /// Get the key used by this hasher as a 16 byte vector
    pub fn key(&self) -> (r: [u8; 16])
        ensures
            r@ == le_bytes16(self@.k0, self@.k1),
    {
        let (key0, key1) = self.keys();
        halves_to_le_bytes(key0, key1)
    }

    /// Hashes a byte array under the keys of this hasher, starting from a
    /// fresh engine: what was written to this hasher plays no part.
    #[inline]
    pub fn hash(&self, bytes: &[u8]) -> (r: Hash128)
        ensures
            (r.h1, r.h2) == siphash128(2, 4, self@.k0, self@.k1, bytes@),
    {
        self.0.hash(bytes)
    }

    /// The complete state of the hasher as plain values.
    pub fn snapshot(&self) -> (s: Snapshot)
        ensures
            s.valid(),
            s.engine() == self@,
    {
        self.0.snapshot()
    }

    /// Rebuilds a hasher from a snapshot; `None` where the snapshot is not
    /// the state of any hasher.
    pub fn restore(s: &Snapshot) -> (r: Option<SipHasher>)
        ensures
            r is Some <==> s.valid(),
            r matches Some(h) ==> h@ == s.engine(),
    {
        match SipHasher24::restore(s) {
            Some(hasher) => Some(SipHasher(hasher)),
            None => None,
        }
    }
}

impl Hasher128 for SipHasher {
    open spec fn digest(&self) -> (u64, u64) {
        digest128(2, 4, self@)
    }

    /// The 128-bit digest of what has been written so far. The hasher is
    /// left as it is.
    #[inline]
    fn finish128(&self) -> (r: Hash128)
        ensures
            (r.h1, r.h2) == digest128(2, 4, self@),
    {
        self.0.finish128()
    }
}

impl core::hash::Hasher for SipHasher {
    /// Writes `msg` to the hasher.
    #[inline]
    fn write(&mut self, msg: &[u8])
        ensures
            final(self)@ == absorb(2, old(self)@, msg@),
    {
        self.0.write(msg)
    }

    /// The high half of the 128-bit digest of what has been written so
    /// far. The hasher is left as it is.
    #[inline]
    fn finish(&self) -> (r: u64)
        ensures
            r == digest128(2, 4, self@).1,
    {
        self.0.finish128().h2
    }

    /// Writes the bytes of `i` in little-endian order, as many as a
    /// `usize` has.
    #[inline]
    fn write_usize(&mut self, i: usize)
        ensures
            final(self)@ == absorb(
                2,
                old(self)@,
                le_bytes(i as u64, vstd::layout::size_of::<usize>()),
            ),
    {
        self.0.write_usize(i);
    }

    /// Writes the byte `i`.
    #[inline]
    fn write_u8(&mut self, i: u8)
        ensures
            final(self)@ == absorb(2, old(self)@, le_bytes(i as u64, 1)),
    {
        self.0.write_u8(i);
    }

    /// Writes the two bytes of `i` in little-endian order.
    #[inline]
    fn write_u16(&mut self, i: u16)
        ensures
            final(self)@ == absorb(2, old(self)@, le_bytes(i as u64, 2)),
    {
        self.0.write_u16(i);
    }

    /// Writes the four bytes of `i` in little-endian order.
    #[inline]
    fn write_u32(&mut self, i: u32)
        ensures
            final(self)@ == absorb(2, old(self)@, le_bytes(i as u64, 4)),
    {
        self.0.write_u32(i);
    }

    /// Writes the eight bytes of `i` in little-endian order.
    #[inline]
    fn write_u64(&mut self, i: u64)
        ensures
            final(self)@ == absorb(2, old(self)@, le_bytes(i, 8)),
    {
        self.0.write_u64(i);
    }

    /// Writes the sixteen bytes of `i` in little-endian order.
    #[inline]
    fn write_u128(&mut self, i: u128)
        ensures
            final(self)@ == absorb(
                2,
                old(self)@,
                le_bytes16((i & 0xffff_ffff_ffff_ffff) as u64, (i >> 64) as u64),
            ),
    {
        self.0.write_u128(i);
    }
}

} // verus!
