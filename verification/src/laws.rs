//! What holds of the streaming model whatever is written: how writes
//! compose, and that streaming computes SipHash.

use vstd::prelude::*;
use vstd::arithmetic::div_mod::{
    lemma_add_mod_noop_right, lemma_mod_bound, lemma_mod_mod, lemma_small_mod,
};
use crate::bytes::{le_bytes16, le_halves, le_pack, lemma_halves_round_trip};
use crate::model::{
    absorb, absorb_block, absorb_blocks, digest128, digest64, final_block, finalize128,
    finalize64, fresh, init128, init64, key_schedule, key_schedule_128, length_modulus,
    siphash128, siphash64, wrapped_length, Engine,
};
use crate::rounds::State;

verus! {

/// The blocks absorbed from a stream depend only on the bytes they cover.
proof fn lemma_absorb_blocks_prefix(c: nat, s: State, d1: Seq<u8>, d2: Seq<u8>, n: nat)
    requires
        8 * n <= d1.len(),
        8 * n <= d2.len(),
        d1.subrange(0, 8 * n as int) == d2.subrange(0, 8 * n as int),
    ensures
        absorb_blocks(c, s, d1, n) == absorb_blocks(c, s, d2, n),
    decreases n,
{
    if n > 0 {
        let m = (n - 1) as nat;
        assert(d1.subrange(0, 8 * m as int) =~= d1.subrange(0, 8 * n as int).subrange(
            0,
            8 * m as int,
        ));
        assert(d2.subrange(0, 8 * m as int) =~= d2.subrange(0, 8 * n as int).subrange(
            0,
            8 * m as int,
        ));
        lemma_absorb_blocks_prefix(c, s, d1, d2, m);
        assert(d1.subrange(8 * m as int, 8 * n as int) =~= d1.subrange(0, 8 * n as int).subrange(
            8 * m as int,
            8 * n as int,
        ));
        assert(d2.subrange(8 * m as int, 8 * n as int) =~= d2.subrange(0, 8 * n as int).subrange(
            8 * m as int,
            8 * n as int,
        ));
    }
}

/// Absorbing `n1 + n2` blocks is absorbing `n1` blocks and then `n2`
/// blocks of what follows them.
proof fn lemma_absorb_blocks_split(c: nat, s: State, d: Seq<u8>, n1: nat, n2: nat)
    requires
        8 * (n1 + n2) <= d.len(),
    ensures
        absorb_blocks(c, s, d, n1 + n2) == absorb_blocks(
            c,
            absorb_blocks(c, s, d, n1),
            d.skip(8 * n1 as int),
            n2,
        ),
    decreases n2,
{
    if n2 > 0 {
        let m = (n2 - 1) as nat;
        lemma_absorb_blocks_split(c, s, d, n1, m);
        assert(d.skip(8 * n1 as int).subrange(8 * m as int, 8 * n2 as int) =~= d.subrange(
            8 * (n1 + m) as int,
            8 * (n1 + n2) as int,
        ));
        assert(n1 + n2 - 1 == n1 + m);
    }
}

/// Counting `a` bytes and then `b` bytes is counting `a + b` bytes; the
/// counter stays in range, and counting no bytes leaves it as it is.
proof fn lemma_wrapped_length_twice(length: nat, a: nat, b: nat)
    ensures
        wrapped_length(wrapped_length(length, a), b) == wrapped_length(length, a + b),
        wrapped_length(length, a) < length_modulus(),
        length < length_modulus() ==> wrapped_length(length, 0) == length,
{
    reveal(wrapped_length);
    let m = length_modulus() as int;
    lemma_add_mod_noop_right(b as int, (length + a) as int, m);
    lemma_mod_bound((length + a) as int, m);
    if length < length_modulus() {
        lemma_small_mod(length, length_modulus());
    }
}

/// The low byte of the counter is the low byte of the true count.
proof fn lemma_wrapped_length_low_byte(length: nat, a: nat)
    ensures
        wrapped_length(length, a) % 256 == (length + a) % 256,
{
    reveal(wrapped_length);
    let x = (length + a) as int;
    if usize::MAX == 0xffff_ffff {
        lemma_mod_mod(x, 256, 0x100_0000);
        assert(256 * 0x100_0000 == length_modulus());
    } else {
        lemma_mod_mod(x, 256, 0x100_0000_0000_0000);
        assert(256 * 0x100_0000_0000_0000 == length_modulus());
    }
}

/// Whatever is written, fewer than eight bytes stay pending and the
/// counter stays in range.
pub proof fn lemma_absorb_wf(c: nat, e: Engine, bytes: Seq<u8>)
    ensures
        absorb(c, e, bytes).wf(),
{
    lemma_wrapped_length_twice(e.length, bytes.len(), 0);
}

/// Writing nothing changes nothing.
pub proof fn lemma_absorb_empty(c: nat, e: Engine)
    requires
        e.wf(),
    ensures
        absorb(c, e, Seq::empty()) == e,
{
    lemma_wrapped_length_twice(e.length, 0, 0);
    assert(e.pending + Seq::<u8>::empty() =~= e.pending);
    assert(e.pending.skip(0) =~= e.pending);
}

/// Writing `a` and then `b` leaves the engine as writing `a + b` at once
/// does, whatever the engine held before.
pub proof fn lemma_absorb_concat(c: nat, e: Engine, a: Seq<u8>, b: Seq<u8>)
    ensures
        absorb(c, absorb(c, e, a), b) == absorb(c, e, a + b),
{
    let data1 = e.pending + a;
    let n1 = data1.len() / 8;
    let rest1 = data1.skip(8 * n1 as int);
    let data2 = rest1 + b;
    let n2 = data2.len() / 8;
    let data = e.pending + (a + b);
    assert(data =~= data1 + b);
    assert(data.len() / 8 == n1 + n2);
    assert(data.skip(8 * n1 as int) =~= data2);
    assert(data.skip(8 * (n1 + n2) as int) =~= data2.skip(8 * n2 as int));
    assert(data.subrange(0, 8 * n1 as int) =~= data1.subrange(0, 8 * n1 as int));
    lemma_absorb_blocks_prefix(c, e.lanes, data, data1, n1);
    lemma_absorb_blocks_split(c, e.lanes, data, n1, n2);
    lemma_wrapped_length_twice(e.length, a.len(), b.len());
}

/// Writes the single byte `b`: it joins the pending bytes, and where that
/// makes eight of them, they are absorbed as one block.
pub open spec fn push_byte(c: nat, e: Engine, b: u8) -> Engine {
    let filled = e.pending.push(b);
    if filled.len() == 8 {
        Engine {
            lanes: absorb_block(c, e.lanes, le_pack(filled)),
            pending: Seq::empty(),
            length: wrapped_length(e.length, 1),
            ..e
        }
    } else {
        Engine { pending: filled, length: wrapped_length(e.length, 1), ..e }
    }
}

/// Writes `bytes` one byte at a time.
pub open spec fn push_bytes(c: nat, e: Engine, bytes: Seq<u8>) -> Engine
    decreases bytes.len(),
{
    if bytes.len() == 0 {
        e
    } else {
        push_byte(c, push_bytes(c, e, bytes.drop_last()), bytes.last())
    }
}

/// Writing one byte is pushing it.
pub proof fn lemma_absorb_byte(c: nat, e: Engine, b: u8)
    requires
        e.wf(),
    ensures
        absorb(c, e, seq![b]) == push_byte(c, e, b),
{
    let data = e.pending + seq![b];
    assert(data =~= e.pending.push(b));
    if data.len() == 8 {
        assert(data.subrange(0, 8) =~= data);
        assert(data.skip(8) =~= Seq::<u8>::empty());
        reveal_with_fuel(absorb_blocks, 2);
    } else {
        assert(data.skip(0) =~= data);
    }
}

/// Writing a byte slice is writing its bytes one at a time.
pub proof fn lemma_absorb_bytewise(c: nat, e: Engine, bytes: Seq<u8>)
    requires
        e.wf(),
    ensures
        absorb(c, e, bytes) == push_bytes(c, e, bytes),
    decreases bytes.len(),
{
    if bytes.len() == 0 {
        assert(bytes =~= Seq::<u8>::empty());
        lemma_absorb_empty(c, e);
    } else {
        let front = bytes.drop_last();
        lemma_absorb_bytewise(c, e, front);
        lemma_absorb_wf(c, e, front);
        lemma_absorb_byte(c, absorb(c, e, front), bytes.last());
        lemma_absorb_concat(c, e, front, seq![bytes.last()]);
        assert(front + seq![bytes.last()] =~= bytes);
    }
}

/// Writes the chunks one after the other.
pub open spec fn absorb_chunks(c: nat, e: Engine, chunks: Seq<Seq<u8>>) -> Engine
    decreases chunks.len(),
{
    if chunks.len() == 0 {
        e
    } else {
        absorb_chunks(c, absorb(c, e, chunks.first()), chunks.drop_first())
    }
}

/// However a byte stream is cut into chunks, writing the chunks in order
/// leaves the engine as writing the whole stream at once does.
pub proof fn lemma_absorb_chunks(c: nat, e: Engine, chunks: Seq<Seq<u8>>)
    requires
        e.wf(),
    ensures
        absorb_chunks(c, e, chunks) == absorb(c, e, chunks.flatten()),
    decreases chunks.len(),
{
    if chunks.len() == 0 {
        lemma_absorb_empty(c, e);
    } else {
        let next = absorb(c, e, chunks.first());
        lemma_absorb_wf(c, e, chunks.first());
        lemma_absorb_chunks(c, next, chunks.drop_first());
        lemma_absorb_concat(c, e, chunks.first(), chunks.drop_first().flatten());
    }
}

/// What a fresh engine holds after `msg` was written to it: the count of
/// the bytes of `msg`, the bytes after its last complete block, and lanes
/// into which exactly its complete blocks were absorbed.
pub proof fn lemma_stream_state(c: nat, k0: u64, k1: u64, lanes: State, msg: Seq<u8>)
    ensures
        absorb(c, fresh(k0, k1, lanes), msg) == (Engine {
            k0,
            k1,
            lanes: absorb_blocks(c, lanes, msg, msg.len() / 8),
            pending: msg.skip(8 * (msg.len() / 8) as int),
            length: msg.len() % length_modulus(),
        }),
{
    reveal(wrapped_length);
    assert(Seq::<u8>::empty() + msg =~= msg);
}

/// Streaming computes SipHash: the 64-bit digest of an engine to which
/// `msg` was written, in one piece or in several, is the SipHash of `msg`.
pub proof fn lemma_stream_digest64(c: nat, d: nat, k0: u64, k1: u64, msg: Seq<u8>)
    ensures
        digest64(c, d, absorb(c, init64(k0, k1), msg)) == siphash64(c, d, k0, k1, msg),
{
    lemma_stream_state(c, k0, k1, key_schedule(k0, k1), msg);
    lemma_wrapped_length_low_byte(0, msg.len());
    reveal(wrapped_length);
}

/// Streaming computes SipHash, for the 128-bit digest.
pub proof fn lemma_stream_digest128(c: nat, d: nat, k0: u64, k1: u64, msg: Seq<u8>)
    ensures
        digest128(c, d, absorb(c, init128(k0, k1), msg)) == siphash128(c, d, k0, k1, msg),
{
    lemma_stream_state(c, k0, k1, key_schedule_128(k0, k1), msg);
    lemma_wrapped_length_low_byte(0, msg.len());
    reveal(wrapped_length);
}

/// Hashing `a + b` at once gives what a fresh hasher gives after `a` and
/// then `b` were written to it.
pub proof fn lemma_incremental_digest(c: nat, d: nat, k0: u64, k1: u64, a: Seq<u8>, b: Seq<u8>)
    ensures
        siphash64(c, d, k0, k1, a + b) == digest64(
            c,
            d,
            absorb(c, absorb(c, init64(k0, k1), a), b),
        ),
        siphash128(c, d, k0, k1, a + b) == digest128(
            c,
            d,
            absorb(c, absorb(c, init128(k0, k1), a), b),
        ),
{
    lemma_absorb_concat(c, init64(k0, k1), a, b);
    lemma_absorb_concat(c, init128(k0, k1), a, b);
    lemma_stream_digest64(c, d, k0, k1, a + b);
    lemma_stream_digest128(c, d, k0, k1, a + b);
}

/// However a message is cut into chunks, a fresh hasher to which the
/// chunks were written in order gives the SipHash of the whole message.
pub proof fn lemma_chunked_digest(c: nat, d: nat, k0: u64, k1: u64, chunks: Seq<Seq<u8>>)
    ensures
        digest64(c, d, absorb_chunks(c, init64(k0, k1), chunks)) == siphash64(
            c,
            d,
            k0,
            k1,
            chunks.flatten(),
        ),
        digest128(c, d, absorb_chunks(c, init128(k0, k1), chunks)) == siphash128(
            c,
            d,
            k0,
            k1,
            chunks.flatten(),
        ),
{
    lemma_absorb_chunks(c, init64(k0, k1), chunks);
    lemma_absorb_chunks(c, init128(k0, k1), chunks);
    lemma_stream_digest64(c, d, k0, k1, chunks.flatten());
    lemma_stream_digest128(c, d, k0, k1, chunks.flatten());
}

proof fn bits_empty_block()
    by (bit_vector)
    ensures
        (0u64 << 56) | 0u64 == 0,
{
}

/// The digest of the empty message is the finalization of the keyed lanes
/// with the all-zero last block, which is also the digest of an engine
/// that was never written to.
pub proof fn lemma_siphash_empty(c: nat, d: nat, k0: u64, k1: u64)
    ensures
        siphash64(c, d, k0, k1, Seq::empty()) == finalize64(
            d,
            absorb_block(c, key_schedule(k0, k1), 0),
        ),
        siphash64(c, d, k0, k1, Seq::empty()) == digest64(c, d, init64(k0, k1)),
        siphash128(c, d, k0, k1, Seq::empty()) == finalize128(
            d,
            absorb_block(c, key_schedule_128(k0, k1), 0),
        ),
        siphash128(c, d, k0, k1, Seq::empty()) == digest128(c, d, init128(k0, k1)),
{
    bits_empty_block();
    assert(Seq::<u8>::empty().skip(0) =~= Seq::<u8>::empty());
    assert(final_block(init64(k0, k1)) == 0);
    assert(final_block(init128(k0, k1)) == 0);
}

/// A hasher made from a sixteen-byte key gives that key back, before and
/// after anything is written to it, and its two key halves are the
/// little-endian halves of that key.
pub proof fn lemma_key_round_trip(c: nat, key: Seq<u8>, written: Seq<u8>)
    requires
        key.len() == 16,
    ensures
        ({
            let e = absorb(c, init64(le_halves(key).0, le_halves(key).1), written);
            &&& le_bytes16(e.k0, e.k1) == key
            &&& (e.k0, e.k1) == le_halves(key)
        }),
        ({
            let e = absorb(c, init128(le_halves(key).0, le_halves(key).1), written);
            &&& le_bytes16(e.k0, e.k1) == key
            &&& (e.k0, e.k1) == le_halves(key)
        }),
{
    lemma_halves_round_trip(key, 0, 0);
}

proof fn bits_known_answers()
    by (bit_vector)
    ensures
        finalize64(4, absorb_block(2, key_schedule(0x0706050403020100, 0x0f0e0d0c0b0a0908), 0))
            == 0x726fdb47dd0e0e31u64,
        finalize64(3, absorb_block(1, key_schedule(0x0706050403020100, 0x0f0e0d0c0b0a0908), 0))
            == 0xabac0158050fc4dcu64,
        finalize64(3, absorb_block(1, key_schedule(0, 0), 0)) == 0xd1fba762150c532cu64,
        finalize128(
            4,
            absorb_block(2, key_schedule_128(0x0706050403020100, 0x0f0e0d0c0b0a0908), 0),
        ) == (0xe6a825ba047f81a3u64, 0x930255c71472f66du64),
{
}

/// Known answers: the digests of the empty message under the key
/// `00 01 .. 0f` for SipHash-2-4, SipHash-1-3 and SipHash-2-4 with a
/// 128-bit digest, and under the all-zero key for SipHash-1-3. They show
/// that the low half of a 128-bit digest need not be the 64-bit digest of
/// the same message under the same key.
pub proof fn lemma_known_answers()
    ensures
        siphash64(2, 4, 0x0706050403020100, 0x0f0e0d0c0b0a0908, Seq::empty())
            == 0x726fdb47dd0e0e31u64,
        siphash64(1, 3, 0x0706050403020100, 0x0f0e0d0c0b0a0908, Seq::empty())
            == 0xabac0158050fc4dcu64,
        siphash64(1, 3, 0, 0, Seq::empty()) == 0xd1fba762150c532cu64,
        siphash128(2, 4, 0x0706050403020100, 0x0f0e0d0c0b0a0908, Seq::empty()) == (
            0xe6a825ba047f81a3u64,
            0x930255c71472f66du64,
        ),
        siphash128(2, 4, 0x0706050403020100, 0x0f0e0d0c0b0a0908, Seq::empty()).0 != siphash64(
            2,
            4,
            0x0706050403020100,
            0x0f0e0d0c0b0a0908,
            Seq::empty(),
        ),
{
    bits_known_answers();
    lemma_siphash_empty(2, 4, 0x0706050403020100, 0x0f0e0d0c0b0a0908);
    lemma_siphash_empty(1, 3, 0x0706050403020100, 0x0f0e0d0c0b0a0908);
    lemma_siphash_empty(1, 3, 0, 0);
}

} // verus!
