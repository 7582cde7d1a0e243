//! The SipRound permutation and the round counts of the two SipHash variants.

use vstd::prelude::*;

verus! {

/// The 256-bit working state: four 64-bit lanes.
#[derive(Debug, Clone, Copy)]
pub struct State {
    // v0, v2 and v1, v3 show up in pairs in the algorithm, so they are kept
    // next to each other.
    pub v0: u64,
    pub v2: u64,
    pub v1: u64,
    pub v3: u64,
}

/// `x` rotated left by `n` bit positions, for `0 < n < 64`.
pub open spec fn rotl(x: u64, n: u64) -> u64 {
    (x << n) | (x >> ((64 - n) as u64))
}

/// One SipRound: four add-rotate-xor quarter steps on the lanes. Additions
/// are modulo 2^64.
pub open spec fn sip_round(s: State) -> State {
    let v0 = s.v0.wrapping_add(s.v1);
    let v1 = rotl(s.v1, 13) ^ v0;
    let v0 = rotl(v0, 32);
    let v2 = s.v2.wrapping_add(s.v3);
    let v3 = rotl(s.v3, 16) ^ v2;
    let v0 = v0.wrapping_add(v3);
    let v3 = rotl(v3, 21) ^ v0;
    let v2 = v2.wrapping_add(v1);
    let v1 = rotl(v1, 17) ^ v2;
    let v2 = rotl(v2, 32);
    State { v0, v2, v1, v3 }
}

/// `n` SipRounds in a row.
pub open spec fn sip_rounds(s: State, n: nat) -> State
    decreases n,
{
    if n == 0 {
        s
    } else {
        sip_rounds(sip_round(s), (n - 1) as nat)
    }
}

/// Rotates `x` left by `n` bit positions.
#[inline]
pub fn rotate_left(x: u64, n: u32) -> (r: u64)
    requires
        0 < n < 64,
    ensures
        r == rotl(x, n as u64),
{
    (x << n) | (x >> (64 - n))
}

/// Applies one SipRound to `state`.
#[inline]
pub fn compress(state: &mut State)
    ensures
        *final(state) == sip_round(*old(state)),
{
    state.v0 = state.v0.wrapping_add(state.v1);
    state.v1 = rotate_left(state.v1, 13);
    state.v1 = state.v1 ^ state.v0;
    state.v0 = rotate_left(state.v0, 32);
    state.v2 = state.v2.wrapping_add(state.v3);
    state.v3 = rotate_left(state.v3, 16);
    state.v3 = state.v3 ^ state.v2;
    state.v0 = state.v0.wrapping_add(state.v3);
    state.v3 = rotate_left(state.v3, 21);
    state.v3 = state.v3 ^ state.v0;
    state.v2 = state.v2.wrapping_add(state.v1);
    state.v1 = rotate_left(state.v1, 17);
    state.v1 = state.v1 ^ state.v2;
    state.v2 = rotate_left(state.v2, 32);
}

/// The round counts of a SipHash-c-d variant: `c` SipRounds per absorbed
/// block, `d` SipRounds per finalization pass.
pub trait Sip {
    /// Number of compression rounds `c`.
    spec fn c() -> nat;

    /// Number of finalization rounds `d`.
    spec fn d() -> nat;

    /// Applies the `c` compression rounds.
    fn c_rounds(state: &mut State)
        ensures
            *final(state) == sip_rounds(*old(state), Self::c()),
    ;

    /// Applies the `d` finalization rounds.
    fn d_rounds(state: &mut State)
        ensures
            *final(state) == sip_rounds(*old(state), Self::d()),
    ;
}

/// SipHash-1-3: one compression round, three finalization rounds.
#[derive(Debug, Clone, Copy, Default)]
pub struct Sip13Rounds;

impl Sip for Sip13Rounds {
    open spec fn c() -> nat {
        1
    }

    open spec fn d() -> nat {
        3
    }

    #[inline]
    fn c_rounds(state: &mut State) {
        proof {
            reveal_with_fuel(sip_rounds, 2);
        }
        compress(state);
    }

    #[inline]
    fn d_rounds(state: &mut State) {
        proof {
            reveal_with_fuel(sip_rounds, 4);
        }
        compress(state);
        compress(state);
        compress(state);
    }
}

/// SipHash-2-4: two compression rounds, four finalization rounds.
#[derive(Debug, Clone, Copy, Default)]
pub struct Sip24Rounds;

impl Sip for Sip24Rounds {
    open spec fn c() -> nat {
        2
    }

    open spec fn d() -> nat {
        4
    }

    #[inline]
    fn c_rounds(state: &mut State) {
        proof {
            reveal_with_fuel(sip_rounds, 3);
        }
        compress(state);
        compress(state);
    }

    #[inline]
    fn d_rounds(state: &mut State) {
        proof {
            reveal_with_fuel(sip_rounds, 5);
        }
        compress(state);
        compress(state);
        compress(state);
        compress(state);
    }
}

} // verus!
