//! The mathematical model of the streaming hash: what an engine holds, what
//! absorbing bytes does to it, and what its digest is.

use vstd::prelude::*;
use crate::bytes::le_pack;
use crate::rounds::{sip_rounds, State};

verus! {

/// The abstract state of a streaming engine.
#[verifier::ext_equal]
pub struct Engine {
    /// First key half.
    pub k0: u64,
    /// Second key half.
    pub k1: u64,
    /// The four lanes, with every complete block absorbed so far mixed in.
    pub lanes: State,
    /// The bytes written since the last complete block, oldest first.
    pub pending: Seq<u8>,
    /// The number of bytes written so far, as far as the engine counts it.
    pub length: nat,
}

/// The byte counter wraps around at this value.
pub open spec fn length_modulus() -> nat {
    (usize::MAX + 1) as nat
}

/// The byte counter `length` after `n` more bytes.
#[verifier::opaque]
pub open spec fn wrapped_length(length: nat, n: nat) -> nat {
    (length + n) % length_modulus()
}

impl Engine {
    /// Fewer than eight bytes are pending, and the counter is in range.
    pub open spec fn wf(self) -> bool {
        &&& self.pending.len() < 8
        &&& self.length < length_modulus()
    }
}

/// The lanes right after keying for a 64-bit digest.
pub open spec fn key_schedule(k0: u64, k1: u64) -> State {
    State {
        v0: k0 ^ 0x736f6d6570736575,
        v1: k1 ^ 0x646f72616e646f6d,
        v2: k0 ^ 0x6c7967656e657261,
        v3: k1 ^ 0x7465646279746573,
    }
}

/// The lanes right after keying for a 128-bit digest.
pub open spec fn key_schedule_128(k0: u64, k1: u64) -> State {
    let s = key_schedule(k0, k1);
    State { v1: s.v1 ^ 0xee, ..s }
}

/// An engine that has not been written to, with the given keys and lanes.
pub open spec fn fresh(k0: u64, k1: u64, lanes: State) -> Engine {
    Engine { k0, k1, lanes, pending: Seq::empty(), length: 0 }
}

/// The engine of a 64-bit hasher right after construction.
pub open spec fn init64(k0: u64, k1: u64) -> Engine {
    fresh(k0, k1, key_schedule(k0, k1))
}

/// The engine of a 128-bit hasher right after construction.
pub open spec fn init128(k0: u64, k1: u64) -> Engine {
    fresh(k0, k1, key_schedule_128(k0, k1))
}

/// Absorbs the 64-bit block `m` with `c` compression rounds.
pub open spec fn absorb_block(c: nat, s: State, m: u64) -> State {
    let t = sip_rounds(State { v3: s.v3 ^ m, ..s }, c);
    State { v0: t.v0 ^ m, ..t }
}

/// Absorbs the first `n` eight-byte blocks of `data`, each read as a
/// little-endian word.
pub open spec fn absorb_blocks(c: nat, s: State, data: Seq<u8>, n: nat) -> State
    decreases n,
{
    if n == 0 {
        s
    } else {
        absorb_block(
            c,
            absorb_blocks(c, s, data, (n - 1) as nat),
            le_pack(data.subrange(8 * (n - 1), 8 * n as int)),
        )
    }
}

/// Writes `bytes` to the engine: the pending bytes followed by `bytes` are
/// cut into eight-byte blocks, every complete block is absorbed, and what
/// is left over stays pending.
pub open spec fn absorb(c: nat, e: Engine, bytes: Seq<u8>) -> Engine {
    let data = e.pending + bytes;
    let n = data.len() / 8;
    Engine {
        k0: e.k0,
        k1: e.k1,
        lanes: absorb_blocks(c, e.lanes, data, n),
        pending: data.skip(8 * n as int),
        length: wrapped_length(e.length, bytes.len()),
    }
}

/// The last block: the pending bytes, with the low byte of the length on
/// top.
pub open spec fn final_block(e: Engine) -> u64 {
    (((e.length % 256) as u64) << 56) | le_pack(e.pending)
}

/// The 64-bit finalization of the lanes with `d` rounds.
pub open spec fn finalize64(d: nat, s: State) -> u64 {
    let t = sip_rounds(State { v2: s.v2 ^ 0xff, ..s }, d);
    t.v0 ^ t.v1 ^ t.v2 ^ t.v3
}

/// The 128-bit finalization of the lanes with `d` rounds per pass: the low
/// and the high half of the digest.
pub open spec fn finalize128(d: nat, s: State) -> (u64, u64) {
    let t = sip_rounds(State { v2: s.v2 ^ 0xee, ..s }, d);
    let lo = t.v0 ^ t.v1 ^ t.v2 ^ t.v3;
    let u = sip_rounds(State { v1: t.v1 ^ 0xdd, ..t }, d);
    let hi = u.v0 ^ u.v1 ^ u.v2 ^ u.v3;
    (lo, hi)
}

/// The 64-bit digest of an engine. The engine itself is left as it is.
pub open spec fn digest64(c: nat, d: nat, e: Engine) -> u64 {
    finalize64(d, absorb_block(c, e.lanes, final_block(e)))
}

/// The 128-bit digest of an engine, low half first.
pub open spec fn digest128(c: nat, d: nat, e: Engine) -> (u64, u64) {
    finalize128(d, absorb_block(c, e.lanes, final_block(e)))
}

/// SipHash-c-d with a 64-bit digest, of the message `msg` under the key
/// `(k0, k1)`: key the lanes, absorb the complete blocks of the message,
/// then the last block made of the remaining bytes and the length, and
/// finalize.
pub open spec fn siphash64(c: nat, d: nat, k0: u64, k1: u64, msg: Seq<u8>) -> u64 {
    let n = msg.len() / 8;
    let lanes = absorb_blocks(c, key_schedule(k0, k1), msg, n);
    let last = (((msg.len() % 256) as u64) << 56) | le_pack(msg.skip(8 * n as int));
    finalize64(d, absorb_block(c, lanes, last))
}

/// SipHash-c-d with a 128-bit digest, low half first.
pub open spec fn siphash128(c: nat, d: nat, k0: u64, k1: u64, msg: Seq<u8>) -> (u64, u64) {
    let n = msg.len() / 8;
    let lanes = absorb_blocks(c, key_schedule_128(k0, k1), msg, n);
    let last = (((msg.len() % 256) as u64) << 56) | le_pack(msg.skip(8 * n as int));
    finalize128(d, absorb_block(c, lanes, last))
}

} // verus!
