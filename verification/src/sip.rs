//! An implementation of SipHash with a 64-bit digest.

use vstd::prelude::*;
use core::marker::PhantomData;
use core::hash::Hasher as _;
use crate::bytes::{
    fits_bytes, halves_from_le_bytes, halves_to_le_bytes, le_bytes, le_bytes16, le_halves, le_pack,
    lemma_le_bytes_pack, lemma_le_bytes_shifted, lemma_pack_concat, lemma_pack_fitting,
    lemma_pack_le_bytes, lemma_shift_keeps_low_bytes, load_int_le, u8to64_le,
};
use crate::laws::{lemma_absorb_concat, lemma_stream_digest64};
use crate::model::{
    absorb, absorb_block, absorb_blocks, digest64, final_block, fresh, init64, siphash64,
    wrapped_length, Engine,
};
use crate::rounds::{Sip, Sip13Rounds, Sip24Rounds, State};

verus! {

/// The streaming engine behind every hasher of this crate: it absorbs
/// bytes block by block with the compression rounds of `S`.
#[derive(Debug)]
pub struct Hasher<S: Sip> {
    k0: u64,
    k1: u64,
    length: usize,  // how many bytes we've processed
    state: State,  // hash State
    tail: u64,  // unprocessed bytes le
    ntail: usize,  // how many bytes in tail are valid
    _marker: PhantomData<S>,
}

impl<S: Sip> Clone for Hasher<S> {
    #[inline]
    fn clone(&self) -> (r: Self)
        ensures
            r == *self,
    {
        *self
    }
}

impl<S: Sip> Copy for Hasher<S> {

}

impl<S: Sip> Default for Hasher<S> {
    /// Creates a `Hasher<S>` with the two initial keys set to 0.
    #[inline]
    fn default() -> (h: Hasher<S>)
        ensures
            h@ == init64(0, 0),
    {
        Hasher::new_with_keys(0, 0)
    }
}

/// The complete state of an engine as plain values, to store it or to send
/// it elsewhere.
#[derive(Debug, Clone, Copy)]
pub struct Snapshot {
    /// First key half.
    pub k0: u64,
    /// Second key half.
    pub k1: u64,
    /// How many bytes were written.
    pub length: usize,
    /// Lane 0.
    pub v0: u64,
    /// Lane 1.
    pub v1: u64,
    /// Lane 2.
    pub v2: u64,
    /// Lane 3.
    pub v3: u64,
    /// The pending bytes, packed in little-endian order.
    pub tail: u64,
    /// How many bytes are pending.
    pub ntail: usize,
}

impl Snapshot {
    /// Whether this is the state of an engine: at most seven bytes are
    /// pending, and nothing is set in `tail` above them.
    pub open spec fn valid(self) -> bool {
        &&& self.ntail < 8
        &&& fits_bytes(self.tail, self.ntail as nat)
    }

    /// The engine that this snapshot describes.
    pub open spec fn engine(self) -> Engine {
        Engine {
            k0: self.k0,
            k1: self.k1,
            lanes: State { v0: self.v0, v1: self.v1, v2: self.v2, v3: self.v3 },
            pending: le_bytes(self.tail, self.ntail as nat),
            length: self.length as nat,
        }
    }

    /// Tests whether this is the state of an engine.
    pub fn is_valid(&self) -> (b: bool)
        ensures
            b == self.valid(),
    {
        self.ntail < 8 && (self.tail >> (8 * self.ntail)) == 0
    }
}

/// A valid snapshot is determined by the engine it describes.
pub proof fn lemma_snapshot_unique(a: Snapshot, b: Snapshot)
    requires
        a.valid(),
        b.valid(),
        a.engine() == b.engine(),
    ensures
        a == b,
{
    assert(a.ntail == le_bytes(a.tail, a.ntail as nat).len());
    assert(b.ntail == le_bytes(b.tail, b.ntail as nat).len());
    lemma_pack_fitting(a.tail, a.ntail as nat);
    lemma_pack_fitting(b.tail, b.ntail as nat);
}

proof fn bits_zero_shifted(sh: u64)
    by (bit_vector)
    requires
        sh < 64,
    ensures
        0u64 >> sh == 0,
{
}

proof fn bits_low_byte(l: u64)
    by (bit_vector)
    ensures
        l & 0xff == l % 256,
{
}

impl<S: Sip> View for Hasher<S> {
    type V = Engine;

    closed spec fn view(&self) -> Engine {
        Engine {
            k0: self.k0,
            k1: self.k1,
            lanes: self.state,
            pending: le_bytes(self.tail, self.ntail as nat),
            length: self.length as nat,
        }
    }
}

impl<S: Sip> Hasher<S> {
    /// At most seven bytes are buffered, and nothing is set in `tail`
    /// above them.
    #[verifier::type_invariant]
    closed spec fn inv(self) -> bool {
        &&& self.ntail < 8
        &&& fits_bytes(self.tail, self.ntail as nat)
    }

    /// Creates an engine with the given keys whose lanes start at `state`.
    #[inline]
    pub fn with_state(key0: u64, key1: u64, state: State) -> (h: Hasher<S>)
        ensures
            h@ == fresh(key0, key1, state),
    {
        proof {
            bits_zero_shifted(0);
        }
        Hasher { k0: key0, k1: key1, length: 0, state, tail: 0, ntail: 0, _marker: PhantomData }
    }

    /// Creates an engine keyed for a 64-bit digest.
    #[inline]
    pub fn new_with_keys(key0: u64, key1: u64) -> (h: Hasher<S>)
        ensures
            h@ == init64(key0, key1),
    {
        let mut state = Hasher::with_state(key0, key1, State { v0: 0, v1: 0, v2: 0, v3: 0 });
        state.reset();
        state
    }

    /// Puts the engine back to where it was right after `new_with_keys`:
    /// nothing written, the lanes keyed for a 64-bit digest.
    #[inline]
    pub fn reset(&mut self)
        ensures
            final(self)@ == init64(old(self)@.k0, old(self)@.k1),
    {
        proof {
            use_type_invariant(&*self);
            bits_zero_shifted((8 * self.ntail) as u64);
            bits_zero_shifted(0);
        }
        self.length = 0;
        self.state.v0 = self.k0 ^ 0x736f6d6570736575;
        self.state.v1 = self.k1 ^ 0x646f72616e646f6d;
        self.state.v2 = self.k0 ^ 0x6c7967656e657261;
        self.state.v3 = self.k1 ^ 0x7465646279746573;
        self.tail = 0;
        self.ntail = 0;
    }


    /// The lanes, with every complete block written so far absorbed.
    #[inline]
    pub fn lanes(&self) -> (r: State)
        ensures
            r == self@.lanes,
    {
        self.state
    }

    /// The block that finalization absorbs last: the pending bytes, with
    /// the low byte of the length on top.
    #[inline]
    pub fn last_block(&self) -> (b: u64)
        ensures
            b == final_block(self@),
    {
        proof {
            use_type_invariant(self);
            lemma_pack_fitting(self.tail, self.ntail as nat);
            bits_low_byte(self.length as u64);
        }
        ((self.length as u64 & 0xff) << 56) | self.tail
    }

    /// Get the keys used by this engine.
    #[inline]
    pub fn keys(&self) -> (r: (u64, u64))
        ensures
            r == (self@.k0, self@.k1),
    {
        (self.k0, self.k1)
    }

    /// The complete state of the engine as plain values.
    pub fn snapshot(&self) -> (s: Snapshot)
        ensures
            s.valid(),
            s.engine() == self@,
    {
        proof {
            use_type_invariant(self);
        }
        Snapshot {
            k0: self.k0,
            k1: self.k1,
            length: self.length,
            v0: self.state.v0,
            v1: self.state.v1,
            v2: self.state.v2,
            v3: self.state.v3,
            tail: self.tail,
            ntail: self.ntail,
        }
    }

    /// Rebuilds an engine from a snapshot; `None` where the snapshot is not
    /// the state of any engine.
    pub fn restore(s: &Snapshot) -> (r: Option<Hasher<S>>)
        ensures
            r is Some <==> s.valid(),
            r matches Some(h) ==> h@ == s.engine(),
    {
        if s.is_valid() {
            Some(
                Hasher {
                    k0: s.k0,
                    k1: s.k1,
                    length: s.length,
                    state: State { v0: s.v0, v1: s.v1, v2: s.v2, v3: s.v3 },
                    tail: s.tail,
                    ntail: s.ntail,
                    _marker: PhantomData,
                },
            )
        } else {
            None
        }
    }

    /// A specialized write function for values with size <= 8: writes the
    /// first `size_of::<T>()` bytes of the little-endian representation of
    /// `x`, which must be a value of that many bytes (zero-extended, not
    /// sign-extended).
    #[inline]
    pub fn short_write<T>(&mut self, _x: T, x: u64)
        requires
            vstd::layout::size_of::<T>() <= 8,
            fits_bytes(x, vstd::layout::size_of::<T>()),
        ensures
            final(self)@ == absorb(S::c(), old(self)@, le_bytes(x, vstd::layout::size_of::<T>())),
    {
        let ghost before = self@;
        let ghost pending = self@.pending;
        let ghost bytes = le_bytes(x, vstd::layout::size_of::<T>());
        proof {
            use_type_invariant(&*self);
        }
        let size: usize = core::mem::size_of::<T>();
        proof {
            lemma_wrapped_length(self.length, size);
        }
        let total: usize = self.length.wrapping_add(size);

        // The number of bytes needed to fill `self.tail`.
        let needed: usize = 8 - self.ntail;

        let tail: u64 = self.tail | (x << (8 * self.ntail));
        if size < needed {
            proof {
                lemma_pack_fitting(self.tail, self.ntail as nat);
                lemma_pack_fitting(x, size as nat);
                lemma_pack_concat(pending, bytes);
                lemma_le_bytes_pack(pending + bytes);
                lemma_absorb_buffered(S::c(), before, bytes);
            }
            *self = Hasher { length: total, tail, ntail: self.ntail + size, ..*self };
            return ;
        }
        // `self.tail` is full, process it.

        let mut state = self.state;
        proof {
            let front = le_bytes(x, needed as nat);
            assert(front =~= bytes.subrange(0, needed as int));
            assert(pending + front =~= (pending + bytes).subrange(0, 8));
            assert(tail == le_pack(pending + front)) by {
                lemma_pack_fitting(self.tail, self.ntail as nat);
                lemma_pack_le_bytes(x, needed as nat);
                lemma_shift_keeps_low_bytes(x, self.ntail as nat);
                lemma_pack_concat(pending, front);
            }
            lemma_first_block(S::c(), state, pending + bytes);
        }
        state.v3 = state.v3 ^ tail;
        S::c_rounds(&mut state);
        state.v0 = state.v0 ^ tail;

        let rest: u64 = if needed < 8 { x >> (8 * needed) } else { 0 };
        proof {
            if needed < 8 {
                lemma_le_bytes_shifted(x, needed as nat, size as nat);
            } else {
                bits_zero_shifted(0);
            }
            assert(le_bytes(rest, (size - needed) as nat) =~= bytes.subrange(
                needed as int,
                size as int,
            ));
            lemma_absorb_blockwise(S::c(), before, bytes, needed as int, 1);
        }
        *self = Hasher { length: total, state, tail: rest, ntail: size - needed, ..*self };
    }
}

proof fn bits_small_values(x: u64)
    by (bit_vector)
    ensures
        x <= 0xff ==> x >> 8 == 0,
        x <= 0xffff ==> x >> 16 == 0,
        x <= 0xffff_ffff ==> x >> 32 == 0,
{
}

proof fn bits_wide_halves(i: u128)
    by (bit_vector)
    ensures
        i & 0xffff_ffff_ffff_ffff <= 0xffff_ffff_ffff_ffff,
        i >> 64 <= 0xffff_ffff_ffff_ffff,
{
}

proof fn bits_low_three(l: usize)
    by (bit_vector)
    ensures
        l & 0x7 == l % 8,
{
}

/// The byte counter after `n` more bytes.
proof fn lemma_wrapped_length(length: usize, n: usize)
    ensures
        length.wrapping_add(n) == wrapped_length(length as nat, n as nat),
{
    reveal(wrapped_length);
    if usize::MAX == 0xffff_ffff {
        assert((length + n) % 0x1_0000_0000 == if length + n >= 0x1_0000_0000 {
            length + n - 0x1_0000_0000
        } else {
            length + n
        });
    } else {
        assert((length + n) % 0x1_0000_0000_0000_0000 == if length + n
            >= 0x1_0000_0000_0000_0000 {
            length + n - 0x1_0000_0000_0000_0000
        } else {
            length + n
        });
    }
}

/// Where a block of the written bytes lies in the stream: if `i` bytes of
/// `msg` together with the pending ones make up `k` blocks, the next
/// block of the stream is the eight bytes of `msg` from `i` on.
proof fn lemma_stream_block(pending: Seq<u8>, msg: Seq<u8>, i: int, k: nat)
    requires
        0 <= i,
        i + 8 <= msg.len(),
        pending.len() + i == 8 * k,
    ensures
        (pending + msg).subrange(8 * k as int, 8 * k as int + 8) == msg.subrange(i, i + 8),
{
    assert((pending + msg).subrange(8 * k as int, 8 * k as int + 8) =~= msg.subrange(i, i + 8));
}

/// Where the stream ends: if `i` bytes of `msg` together with the pending
/// ones make up `k` blocks and fewer than eight bytes follow, the stream
/// has `k` complete blocks and those bytes are what is left over.
proof fn lemma_stream_rest(pending: Seq<u8>, msg: Seq<u8>, i: int, k: nat)
    requires
        0 <= i <= msg.len(),
        msg.len() - i < 8,
        pending.len() + i == 8 * k,
    ensures
        (pending + msg).len() / 8 == k,
        (pending + msg).skip(8 * k as int) == msg.subrange(i, msg.len() as int),
{
    assert((pending + msg).skip(8 * k as int) =~= msg.subrange(i, msg.len() as int));
}

/// Absorbing one block is absorbing the first eight bytes.
proof fn lemma_first_block(c: nat, lanes: State, data: Seq<u8>)
    ensures
        absorb_blocks(c, lanes, data, 1) == absorb_block(c, lanes, le_pack(data.subrange(0, 8))),
{
    reveal_with_fuel(absorb_blocks, 2);
}

/// What a write leaves behind when it does not fill a block.
proof fn lemma_absorb_buffered(c: nat, e: Engine, msg: Seq<u8>)
    requires
        e.pending.len() + msg.len() < 8,
    ensures
        absorb(c, e, msg) == (Engine {
            pending: e.pending + msg,
            length: wrapped_length(e.length, msg.len()),
            ..e
        }),
{
    assert((e.pending + msg).skip(0) =~= e.pending + msg);
}

/// What a write leaves behind when `i` of its bytes, together with the
/// pending ones, make up `k` blocks and fewer than eight bytes follow.
proof fn lemma_absorb_blockwise(c: nat, e: Engine, msg: Seq<u8>, i: int, k: nat)
    requires
        0 <= i <= msg.len(),
        msg.len() - i < 8,
        e.pending.len() + i == 8 * k,
    ensures
        absorb(c, e, msg) == (Engine {
            lanes: absorb_blocks(c, e.lanes, e.pending + msg, k),
            pending: msg.subrange(i, msg.len() as int),
            length: wrapped_length(e.length, msg.len()),
            ..e
        }),
{
    lemma_stream_rest(e.pending, msg, i, k);
}

impl<S: Sip> core::hash::Hasher for Hasher<S> {
    /// Writes `msg` to the engine.
    #[inline]
    fn write(&mut self, msg: &[u8])
        ensures
            final(self)@ == absorb(S::c(), old(self)@, msg@),
    {
        let ghost before = self@;
        let ghost pending = self@.pending;
        let ghost mut blocks: nat = 0;
        proof {
            use_type_invariant(&*self);
            lemma_wrapped_length(self.length, msg.len());
        }
        let length: usize = msg.len();
        let total: usize = self.length.wrapping_add(length);
        let mut state = self.state;

        let mut needed: usize = 0;

        if self.ntail != 0 {
            needed = 8 - self.ntail;
            let fill: usize = if length < needed { length } else { needed };
            let head: u64 = u8to64_le(msg, 0, fill);
            let tail: u64 = self.tail | (head << (8 * self.ntail));
            let ghost front = msg@.subrange(0, fill as int);
            assert(tail == le_pack(pending + front)) by {
                lemma_pack_fitting(self.tail, self.ntail as nat);
                lemma_pack_concat(pending, front);
            }
            if length < needed {
                proof {
                    assert(front =~= msg@);
                    lemma_le_bytes_pack(pending + front);
                    lemma_absorb_buffered(S::c(), before, msg@);
                }
                *self = Hasher { length: total, tail, ntail: self.ntail + length, ..*self };
                return ;
            } else {
                proof {
                    assert(pending + front =~= (pending + msg@).subrange(0, 8));
                    lemma_first_block(S::c(), state, pending + msg@);
                    blocks = 1;
                }
                state.v3 = state.v3 ^ tail;
                S::c_rounds(&mut state);
                state.v0 = state.v0 ^ tail;
            }
        }
        // Buffered tail is now flushed, process new input.

        let len: usize = length - needed;
        proof {
            bits_low_three(len);
        }
        let left: usize = len & 0x7;
        let ghost whole = (len - left) / 8;
        let ghost first = blocks;

        let mut i: usize = needed;
        while i < len - left
            invariant
                needed < 8,
                len - left == 8 * whole,
                needed + len == length == msg.len(),
                i <= length - left,
                pending.len() + needed == 8 * first,
                pending.len() + i == 8 * blocks,
                state == absorb_blocks(S::c(), before.lanes, pending + msg@, blocks),
            decreases length - i,
        {
            let mi: u64 = load_int_le(msg, i, 8);
            proof {
                lemma_stream_block(pending, msg@, i as int, blocks);
                blocks = blocks + 1;
            }

            state.v3 = state.v3 ^ mi;
            S::c_rounds(&mut state);
            state.v0 = state.v0 ^ mi;

            i += 8;
        }

        let tail: u64 = u8to64_le(msg, i, left);
        proof {
            lemma_le_bytes_pack(msg@.subrange(i as int, i + left));
            lemma_absorb_blockwise(S::c(), before, msg@, i as int, blocks);
        }
        *self = Hasher { length: total, state, tail, ntail: left, ..*self };
    }

    /// Writes the bytes of `i` in little-endian order, as many as a
    /// `usize` has.
    #[inline]
    fn write_usize(&mut self, i: usize)
        ensures
            final(self)@ == absorb(
                S::c(),
                old(self)@,
                le_bytes(i as u64, vstd::layout::size_of::<usize>()),
            ),
    {
        proof {
            broadcast use vstd::layout::layout_of_primitives;
            bits_small_values(i as u64);
        }
        self.short_write(i, i as u64);
    }

    /// Writes the byte `i`.
    #[inline]
    fn write_u8(&mut self, i: u8)
        ensures
            final(self)@ == absorb(S::c(), old(self)@, le_bytes(i as u64, 1)),
    {
        proof {
            broadcast use vstd::layout::layout_of_primitives;
            bits_small_values(i as u64);
        }
        self.short_write(i, i as u64);
    }

    /// Writes the two bytes of `i` in little-endian order.
    #[inline]
    fn write_u16(&mut self, i: u16)
        ensures
            final(self)@ == absorb(S::c(), old(self)@, le_bytes(i as u64, 2)),
    {
        proof {
            broadcast use vstd::layout::layout_of_primitives;
            bits_small_values(i as u64);
        }
        self.short_write(i, i as u64);
    }

    /// Writes the four bytes of `i` in little-endian order.
    #[inline]
    fn write_u32(&mut self, i: u32)
        ensures
            final(self)@ == absorb(S::c(), old(self)@, le_bytes(i as u64, 4)),
    {
        proof {
            broadcast use vstd::layout::layout_of_primitives;
            bits_small_values(i as u64);
        }
        self.short_write(i, i as u64);
    }

    /// Writes the eight bytes of `i` in little-endian order.
    #[inline]
    fn write_u64(&mut self, i: u64)
        ensures
            final(self)@ == absorb(S::c(), old(self)@, le_bytes(i, 8)),
    {
        proof {
            broadcast use vstd::layout::layout_of_primitives;
        }
        self.short_write(i, i);
    }

    /// Writes the sixteen bytes of `i` in little-endian order.
    #[inline]
    fn write_u128(&mut self, i: u128)
        ensures
            final(self)@ == absorb(
                S::c(),
                old(self)@,
                le_bytes16((i & 0xffff_ffff_ffff_ffff) as u64, (i >> 64) as u64),
            ),
    {
        proof {
            broadcast use vstd::layout::layout_of_primitives;
            bits_wide_halves(i);
        }
        let lo: u64 = (i & 0xffff_ffff_ffff_ffff) as u64;
        let hi: u64 = (i >> 64) as u64;
        proof {
            lemma_absorb_concat(S::c(), self@, le_bytes(lo, 8), le_bytes(hi, 8));
        }
        self.short_write(lo, lo);
        self.short_write(hi, hi);
    }

    /// The 64-bit digest of what has been written so far.
    #[inline]
    fn finish(&self) -> (r: u64)
        ensures
            r == digest64(S::c(), S::d(), self@),
    {
        let mut state = self.state;

        let b: u64 = self.last_block();

        state.v3 = state.v3 ^ b;
        S::c_rounds(&mut state);
        state.v0 = state.v0 ^ b;

        state.v2 = state.v2 ^ 0xff;
        S::d_rounds(&mut state);

        state.v0 ^ state.v1 ^ state.v2 ^ state.v3
    }
}

/// An implementation of SipHash 1-3.
///
/// See: <https://www.aumasson.jp/siphash/siphash.pdf>
#[derive(Debug, Clone, Copy)]
pub struct SipHasher13 {
    hasher: Hasher<Sip13Rounds>,
}

impl View for SipHasher13 {
    type V = Engine;

    closed spec fn view(&self) -> Engine {
        self.hasher@
    }
}

impl Default for SipHasher13 {
    /// Creates a `SipHasher13` with the two initial keys set to 0.
    #[inline]
    fn default() -> (h: SipHasher13)
        ensures
            h@ == init64(0, 0),
    {
        SipHasher13::new()
    }
}

impl SipHasher13 {
    /// Creates a new `SipHasher13` with the two initial keys set to 0.
    #[inline]
    pub fn new() -> (h: SipHasher13)
        ensures
            h@ == init64(0, 0),
    {
        SipHasher13::new_with_keys(0, 0)
    }

    /// Creates a `SipHasher13` that is keyed off the provided keys.
    #[inline]
    pub fn new_with_keys(key0: u64, key1: u64) -> (h: SipHasher13)
        ensures
            h@ == init64(key0, key1),
    {
        SipHasher13 { hasher: Hasher::new_with_keys(key0, key1) }
    }

    /// Creates a `SipHasher13` from a 16 byte key: the first eight bytes hold
    /// the first key half and the last eight the second, both in
    /// little-endian order.
    pub fn new_with_key(key: &[u8; 16]) -> (h: SipHasher13)
        ensures
            h@ == init64(le_halves(key@).0, le_halves(key@).1),
    {
        let (key0, key1) = halves_from_le_bytes(key);
        Self::new_with_keys(key0, key1)
    }

    /// Get the keys used by this hasher
    pub fn keys(&self) -> (r: (u64, u64))
        ensures
            r == (self@.k0, self@.k1),
    {
        (self.hasher.k0, self.hasher.k1)
    }

    /// Get the key used by this hasher as a 16 byte vector
    pub fn key(&self) -> (r: [u8; 16])
        ensures
            r@ == le_bytes16(self@.k0, self@.k1),
    {
        let (key0, key1) = self.keys();
        halves_to_le_bytes(key0, key1)
    }

    /// Hashes a byte array under the keys of this hasher, starting from a
    /// fresh engine: what was written to this hasher plays no part.
    #[inline]
    pub fn hash(&self, bytes: &[u8]) -> (r: u64)
        ensures
            r == siphash64(1, 3, self@.k0, self@.k1, bytes@),
    {
        let mut hasher: Hasher<Sip13Rounds> = Hasher::new_with_keys(self.hasher.k0, self.hasher.k1);
        hasher.write(bytes);
        proof {
            lemma_stream_digest64(1, 3, self.hasher.k0, self.hasher.k1, bytes@);
        }
        hasher.finish()
    }

    /// The complete state of the hasher as plain values.
    pub fn snapshot(&self) -> (s: Snapshot)
        ensures
            s.valid(),
            s.engine() == self@,
    {
        self.hasher.snapshot()
    }

    /// Rebuilds a hasher from a snapshot; `None` where the snapshot is not
    /// the state of any hasher.
    pub fn restore(s: &Snapshot) -> (r: Option<SipHasher13>)
        ensures
            r is Some <==> s.valid(),
            r matches Some(h) ==> h@ == s.engine(),
    {
        match Hasher::restore(s) {
            Some(hasher) => Some(SipHasher13 { hasher }),
            None => None,
        }
    }
}

impl core::hash::Hasher for SipHasher13 {
    /// Writes `msg` to the hasher.
    #[inline]
    fn write(&mut self, msg: &[u8])
        ensures
            final(self)@ == absorb(1, old(self)@, msg@),
    {
        self.hasher.write(msg)
    }

    /// The 64-bit digest of what has been written so far. The hasher is
    /// left as it is.
    #[inline]
    fn finish(&self) -> (r: u64)
        ensures
            r == digest64(1, 3, self@),
    {
        self.hasher.finish()
    }

    /// Writes the bytes of `i` in little-endian order, as many as a
    /// `usize` has.
    #[inline]
    fn write_usize(&mut self, i: usize)
        ensures
            final(self)@ == absorb(
                1,
                old(self)@,
                le_bytes(i as u64, vstd::layout::size_of::<usize>()),
            ),
    {
        self.hasher.write_usize(i);
    }

    /// Writes the byte `i`.
    #[inline]
    fn write_u8(&mut self, i: u8)
        ensures
            final(self)@ == absorb(1, old(self)@, le_bytes(i as u64, 1)),
    {
        self.hasher.write_u8(i);
    }

    /// Writes the two bytes of `i` in little-endian order.
    #[inline]
    fn write_u16(&mut self, i: u16)
        ensures
            final(self)@ == absorb(1, old(self)@, le_bytes(i as u64, 2)),
    {
        self.hasher.write_u16(i);
    }

    /// Writes the four bytes of `i` in little-endian order.
    #[inline]
    fn write_u32(&mut self, i: u32)
        ensures
            final(self)@ == absorb(1, old(self)@, le_bytes(i as u64, 4)),
    {
        self.hasher.write_u32(i);
    }

    /// Writes the eight bytes of `i` in little-endian order.
    #[inline]
    fn write_u64(&mut self, i: u64)
        ensures
            final(self)@ == absorb(1, old(self)@, le_bytes(i, 8)),
    {
        self.hasher.write_u64(i);
    }

    /// Writes the sixteen bytes of `i` in little-endian order.
    #[inline]
    fn write_u128(&mut self, i: u128)
        ensures
            final(self)@ == absorb(
                1,
                old(self)@,
                le_bytes16((i & 0xffff_ffff_ffff_ffff) as u64, (i >> 64) as u64),
            ),
    {
        self.hasher.write_u128(i);
    }
}

/// An implementation of SipHash 2-4.
///
/// See: <https://www.aumasson.jp/siphash/siphash.pdf>
#[derive(Debug, Clone, Copy)]
pub struct SipHasher24 {
    hasher: Hasher<Sip24Rounds>,
}

impl View for SipHasher24 {
    type V = Engine;

    closed spec fn view(&self) -> Engine {
        self.hasher@
    }
}

impl Default for SipHasher24 {
    /// Creates a `SipHasher24` with the two initial keys set to 0.
    #[inline]
    fn default() -> (h: SipHasher24)
        ensures
            h@ == init64(0, 0),
    {
        SipHasher24::new()
    }
}

impl SipHasher24 {
    /// Creates a new `SipHasher24` with the two initial keys set to 0.
    #[inline]
    pub fn new() -> (h: SipHasher24)
        ensures
            h@ == init64(0, 0),
    {
        SipHasher24::new_with_keys(0, 0)
    }

    /// Creates a `SipHasher24` that is keyed off the provided keys.
    #[inline]
    pub fn new_with_keys(key0: u64, key1: u64) -> (h: SipHasher24)
        ensures
            h@ == init64(key0, key1),
    {
        SipHasher24 { hasher: Hasher::new_with_keys(key0, key1) }
    }

    /// Creates a `SipHasher24` from a 16 byte key: the first eight bytes hold
    /// the first key half and the last eight the second, both in
    /// little-endian order.
    pub fn new_with_key(key: &[u8; 16]) -> (h: SipHasher24)
        ensures
            h@ == init64(le_halves(key@).0, le_halves(key@).1),
    {
        let (key0, key1) = halves_from_le_bytes(key);
        Self::new_with_keys(key0, key1)
    }

    /// Get the keys used by this hasher
    pub fn keys(&self) -> (r: (u64, u64))
        ensures
            r == (self@.k0, self@.k1),
    {
        (self.hasher.k0, self.hasher.k1)
    }

    /// Get the key used by this hasher as a 16 byte vector
    pub fn key(&self) -> (r: [u8; 16])
        ensures
            r@ == le_bytes16(self@.k0, self@.k1),
    {
        let (key0, key1) = self.keys();
        halves_to_le_bytes(key0, key1)
    }

    /// Hashes a byte array under the keys of this hasher, starting from a
    /// fresh engine: what was written to this hasher plays no part.
    #[inline]
    pub fn hash(&self, bytes: &[u8]) -> (r: u64)
        ensures
            r == siphash64(2, 4, self@.k0, self@.k1, bytes@),
    {
        let mut hasher: Hasher<Sip24Rounds> = Hasher::new_with_keys(self.hasher.k0, self.hasher.k1);
        hasher.write(bytes);
        proof {
            lemma_stream_digest64(2, 4, self.hasher.k0, self.hasher.k1, bytes@);
        }
        hasher.finish()
    }

    /// The complete state of the hasher as plain values.
    pub fn snapshot(&self) -> (s: Snapshot)
        ensures
            s.valid(),
            s.engine() == self@,
    {
        self.hasher.snapshot()
    }

    /// Rebuilds a hasher from a snapshot; `None` where the snapshot is not
    /// the state of any hasher.
    pub fn restore(s: &Snapshot) -> (r: Option<SipHasher24>)
        ensures
            r is Some <==> s.valid(),
            r matches Some(h) ==> h@ == s.engine(),
    {
        match Hasher::restore(s) {
            Some(hasher) => Some(SipHasher24 { hasher }),
            None => None,
        }
    }
}

impl core::hash::Hasher for SipHasher24 {
    /// Writes `msg` to the hasher.
    #[inline]
    fn write(&mut self, msg: &[u8])
        ensures
            final(self)@ == absorb(2, old(self)@, msg@),
    {
        self.hasher.write(msg)
    }

    /// The 64-bit digest of what has been written so far. The hasher is
    /// left as it is.
    #[inline]
    fn finish(&self) -> (r: u64)
        ensures
            r == digest64(2, 4, self@),
    {
        self.hasher.finish()
    }

    /// Writes the bytes of `i` in little-endian order, as many as a
    /// `usize` has.
    #[inline]
    fn write_usize(&mut self, i: usize)
        ensures
            final(self)@ == absorb(
                2,
                old(self)@,
                le_bytes(i as u64, vstd::layout::size_of::<usize>()),
            ),
    {
        self.hasher.write_usize(i);
    }

    /// Writes the byte `i`.
    #[inline]
    fn write_u8(&mut self, i: u8)
        ensures
            final(self)@ == absorb(2, old(self)@, le_bytes(i as u64, 1)),
    {
        self.hasher.write_u8(i);
    }

    /// Writes the two bytes of `i` in little-endian order.
    #[inline]
    fn write_u16(&mut self, i: u16)
        ensures
            final(self)@ == absorb(2, old(self)@, le_bytes(i as u64, 2)),
    {
        self.hasher.write_u16(i);
    }

    /// Writes the four bytes of `i` in little-endian order.
    #[inline]
    fn write_u32(&mut self, i: u32)
        ensures
            final(self)@ == absorb(2, old(self)@, le_bytes(i as u64, 4)),
    {
        self.hasher.write_u32(i);
    }

    /// Writes the eight bytes of `i` in little-endian order.
    #[inline]
    fn write_u64(&mut self, i: u64)
        ensures
            final(self)@ == absorb(2, old(self)@, le_bytes(i, 8)),
    {
        self.hasher.write_u64(i);
    }

    /// Writes the sixteen bytes of `i` in little-endian order.
    #[inline]
    fn write_u128(&mut self, i: u128)
        ensures
            final(self)@ == absorb(
                2,
                old(self)@,
                le_bytes16((i & 0xffff_ffff_ffff_ffff) as u64, (i >> 64) as u64),
            ),
    {
        self.hasher.write_u128(i);
    }
}

/// An implementation of SipHash 2-4.
///
/// See: <https://www.aumasson.jp/siphash/siphash.pdf>
///
/// SipHash is a general-purpose hashing function: it runs at a good
/// speed (competitive with Spooky and City) and permits strong _keyed_
/// hashing. This lets you key your hashtables from a strong RNG.
///
/// Although the SipHash algorithm is considered to be generally strong,
/// it is not intended for cryptographic purposes. As such, all
/// cryptographic uses of this implementation are _strongly discouraged_.
#[derive(Debug, Clone, Copy)]
pub struct SipHasher(SipHasher24);

impl View for SipHasher {
    type V = Engine;

    closed spec fn view(&self) -> Engine {
        self.0@
    }
}

impl Default for SipHasher {
    /// Creates a `SipHasher` with the two initial keys set to 0.
    #[inline]
    fn default() -> (h: SipHasher)
        ensures
            h@ == init64(0, 0),
    {
        SipHasher::new()
    }
}

impl SipHasher {
    /// Creates a new `SipHasher` with the two initial keys set to 0.
    #[inline]
    pub fn new() -> (h: SipHasher)
        ensures
            h@ == init64(0, 0),
    {
        SipHasher::new_with_keys(0, 0)
    }

    /// Creates a `SipHasher` that is keyed off the provided keys.
    #[inline]
    pub fn new_with_keys(key0: u64, key1: u64) -> (h: SipHasher)
        ensures
            h@ == init64(key0, key1),
    {
        SipHasher(SipHasher24::new_with_keys(key0, key1))
    }

    /// Creates a `SipHasher` from a 16 byte key: the first eight bytes hold
    /// the first key half and the last eight the second, both in
    /// little-endian order.
    pub fn new_with_key(key: &[u8; 16]) -> (h: SipHasher)
        ensures
            h@ == init64(le_halves(key@).0, le_halves(key@).1),
    {
        let (key0, key1) = halves_from_le_bytes(key);
        Self::new_with_keys(key0, key1)
    }

    /// Get the keys used by this hasher
    pub fn keys(&self) -> (r: (u64, u64))
        ensures
            r == (self@.k0, self@.k1),
    {
        self.0.keys()
    }

    /// Get the key used by this hasher as a 16 byte vector
    pub fn key(&self) -> (r: [u8; 16])
        ensures
            r@ == le_bytes16(self@.k0, self@.k1),
    {
        let (key0, key1) = self.keys();
        halves_to_le_bytes(key0, key1)
    }

    /// Hashes a byte array under the keys of this hasher, starting from a
    /// fresh engine: what was written to this hasher plays no part.
    #[inline]
    pub fn hash(&self, bytes: &[u8]) -> (r: u64)
        ensures
            r == siphash64(2, 4, self@.k0, self@.k1, bytes@),
    {
        self.0.hash(bytes)
    }

    /// The complete state of the hasher as plain values.
    pub fn snapshot(&self) -> (s: Snapshot)
        ensures
            s.valid(),
            s.engine() == self@,
    {
        self.0.snapshot()
    }

    /// Rebuilds a hasher from a snapshot; `None` where the snapshot is not
    /// the state of any hasher.
    pub fn restore(s: &Snapshot) -> (r: Option<SipHasher>)
        ensures
            r is Some <==> s.valid(),
            r matches Some(h) ==> h@ == s.engine(),
    {
        match SipHasher24::restore(s) {
            Some(hasher) => Some(SipHasher(hasher)),
            None => None,
        }
    }
}

impl core::hash::Hasher for SipHasher {
    /// Writes `msg` to the hasher.
    #[inline]
    fn write(&mut self, msg: &[u8])
        ensures
            final(self)@ == absorb(2, old(self)@, msg@),
    {
        self.0.write(msg)
    }

    /// The 64-bit digest of what has been written so far. The hasher is
    /// left as it is.
    #[inline]
    fn finish(&self) -> (r: u64)
        ensures
            r == digest64(2, 4, self@),
    {
        self.0.finish()
    }

    /// Writes the bytes of `i` in little-endian order, as many as a
    /// `usize` has.
    #[inline]
    fn write_usize(&mut self, i: usize)
        ensures
            final(self)@ == absorb(
                2,
                old(self)@,
                le_bytes(i as u64, vstd::layout::size_of::<usize>()),
            ),
    {
        self.0.write_usize(i);
    }

    /// Writes the byte `i`.
    #[inline]
    fn write_u8(&mut self, i: u8)
        ensures
            final(self)@ == absorb(2, old(self)@, le_bytes(i as u64, 1)),
    {
        self.0.write_u8(i);
    }

    /// Writes the two bytes of `i` in little-endian order.
    #[inline]
    fn write_u16(&mut self, i: u16)
        ensures
            final(self)@ == absorb(2, old(self)@, le_bytes(i as u64, 2)),
    {
        self.0.write_u16(i);
    }

    /// Writes the four bytes of `i` in little-endian order.
    #[inline]
    fn write_u32(&mut self, i: u32)
        ensures
            final(self)@ == absorb(2, old(self)@, le_bytes(i as u64, 4)),
    {
        self.0.write_u32(i);
    }

    /// Writes the eight bytes of `i` in little-endian order.
    #[inline]
    fn write_u64(&mut self, i: u64)
        ensures
            final(self)@ == absorb(2, old(self)@, le_bytes(i, 8)),
    {
        self.0.write_u64(i);
    }

    /// Writes the sixteen bytes of `i` in little-endian order.
    #[inline]
    fn write_u128(&mut self, i: u128)
        ensures
            final(self)@ == absorb(
                2,
                old(self)@,
                le_bytes16((i & 0xffff_ffff_ffff_ffff) as u64, (i >> 64) as u64),
            ),
    {
        self.0.write_u128(i);
    }
}

} // verus!
