//! Little-endian packing of bytes into 64-bit words.

use vstd::prelude::*;

verus! {

/// The little-endian value of at most eight bytes: byte `i` of `s` occupies
/// bits `8i .. 8i + 8` of the result.
pub open spec fn le_pack(s: Seq<u8>) -> u64
    decreases s.len(),
{
    if s.len() == 0 {
        0
    } else {
        le_pack(s.drop_last()) | ((s.last() as u64) << ((8 * (s.len() - 1)) as u64))
    }
}

/// Byte `i` of `x`, counted from the least significant one.
pub open spec fn le_byte(x: u64, i: nat) -> u8 {
    ((x >> ((8 * i) as u64)) & 0xff) as u8
}

/// The first `n` bytes of the little-endian representation of `x`.
pub open spec fn le_bytes(x: u64, n: nat) -> Seq<u8> {
    Seq::new(n, |i: int| le_byte(x, i as nat))
}

/// `x` with everything above its `n` low bytes cleared.
pub open spec fn low_bytes(x: u64, n: nat) -> u64 {
    if n >= 8 {
        x
    } else {
        x & !(0xffff_ffff_ffff_ffffu64 << ((8 * n) as u64))
    }
}

/// Whether `x` is an `n`-byte value: nothing is set above its `n` low bytes.
pub open spec fn fits_bytes(x: u64, n: nat) -> bool {
    n < 8 ==> x >> ((8 * n) as u64) == 0
}

proof fn bits_low_bytes_step(x: u64, sh: u64)
    by (bit_vector)
    requires
        sh < 64,
        sh % 8 == 0,
    ensures
        (x & !(0xffff_ffff_ffff_ffffu64 << sh)) | ((((x >> sh) & 0xff) as u8 as u64) << sh) == (if sh
            == 56 {
            x
        } else {
            x & !(0xffff_ffff_ffff_ffffu64 << ((sh + 8) as u64))
        }),
        x & !(0xffff_ffff_ffff_ffffu64 << 0) == 0,
{
}

/// Packing the first `n` bytes of `x` gives `x` cut down to its `n` low
/// bytes.
pub proof fn lemma_pack_le_bytes(x: u64, n: nat)
    requires
        n <= 8,
    ensures
        le_pack(le_bytes(x, n)) == low_bytes(x, n),
    decreases n,
{
    if n == 0 {
        bits_low_bytes_step(x, 0);
    } else {
        let k = (n - 1) as nat;
        lemma_pack_le_bytes(x, k);
        assert(le_bytes(x, n).drop_last() =~= le_bytes(x, k));
        assert(le_bytes(x, n).last() == le_byte(x, k));
        bits_low_bytes_step(x, (8 * k) as u64);
    }
}

proof fn bits_fitting_value(x: u64, sh: u64)
    by (bit_vector)
    requires
        sh < 64,
        x >> sh == 0,
    ensures
        x & !(0xffff_ffff_ffff_ffffu64 << sh) == x,
{
}

/// A value that fits in `n` bytes is the packing of its first `n` bytes.
pub proof fn lemma_pack_fitting(x: u64, n: nat)
    requires
        n <= 8,
        fits_bytes(x, n),
    ensures
        le_pack(le_bytes(x, n)) == x,
{
    lemma_pack_le_bytes(x, n);
    if n < 8 {
        bits_fitting_value(x, (8 * n) as u64);
    }
}

proof fn bits_or_byte(p: u64, b: u8, sh: u64, lo: u64)
    by (bit_vector)
    requires
        sh < 64,
        sh % 8 == 0,
        lo % 8 == 0,
        lo < sh,
        p >> sh == 0,
    ensures
        (((p | ((b as u64) << sh)) >> lo) & 0xff) as u8 == ((p >> lo) & 0xff) as u8,
        (((p | ((b as u64) << sh)) >> sh) & 0xff) as u8 == b,
        sh < 56 ==> (p | ((b as u64) << sh)) >> ((sh + 8) as u64) == 0,
{
}

proof fn bits_or_byte_at(p: u64, b: u8, sh: u64)
    by (bit_vector)
    requires
        sh < 64,
        sh % 8 == 0,
        p >> sh == 0,
    ensures
        (((p | ((b as u64) << sh)) >> sh) & 0xff) as u8 == b,
        sh < 56 ==> (p | ((b as u64) << sh)) >> ((sh + 8) as u64) == 0,
{
}

/// Packing at most eight bytes loses nothing: the bytes can be read back,
/// and the packed value fits in as many bytes as were packed.
pub proof fn lemma_le_bytes_pack(s: Seq<u8>)
    requires
        s.len() <= 8,
    ensures
        le_bytes(le_pack(s), s.len()) == s,
        fits_bytes(le_pack(s), s.len()),
    decreases s.len(),
{
    if s.len() == 0 {
        assert(0u64 >> 0u64 == 0) by (bit_vector);
        assert(le_bytes(le_pack(s), s.len()) =~= s);
    } else {
        let k = (s.len() - 1) as nat;
        let front = s.drop_last();
        let p = le_pack(front);
        let sh = (8 * k) as u64;
        lemma_le_bytes_pack(front);
        bits_or_byte_at(p, s.last(), sh);
        assert forall|i: int| 0 <= i < s.len() implies le_bytes(le_pack(s), s.len())[i] == s[i] by {
            if i < k {
                bits_or_byte(p, s.last(), sh, (8 * i) as u64);
                assert(le_bytes(p, k)[i] == front[i]);
            }
        }
        assert(le_bytes(le_pack(s), s.len()) =~= s);
    }
}

proof fn bits_shift_or(x: u64, y: u64, w: u64, sh: u64)
    by (bit_vector)
    requires
        sh < 64,
    ensures
        (x | y) << sh == (x << sh) | (y << sh),
        (w | (x << sh)) | (y << sh) == w | ((x << sh) | (y << sh)),
        w | (0u64 << sh) == w,
{
}

proof fn bits_shift_twice(z: u64, sha: u64, shb: u64)
    by (bit_vector)
    requires
        sha % 8 == 0,
        shb % 8 == 0,
        sha + shb < 64,
    ensures
        (z << shb) << sha == z << ((sha + shb) as u64),
{
}

/// Packing a concatenation: the second part lands above the first.
pub proof fn lemma_pack_concat(a: Seq<u8>, b: Seq<u8>)
    requires
        a.len() + b.len() <= 8,
        a.len() < 8,
    ensures
        le_pack(a + b) == le_pack(a) | (le_pack(b) << ((8 * a.len()) as u64)),
    decreases b.len(),
{
    let sha = (8 * a.len()) as u64;
    if b.len() == 0 {
        assert(a + b =~= a);
        bits_shift_or(0, 0, le_pack(a), sha);
    } else {
        let front = b.drop_last();
        lemma_pack_concat(a, front);
        assert((a + b).drop_last() =~= a + front);
        let shb = (8 * front.len()) as u64;
        let z = b.last() as u64;
        bits_shift_twice(z, sha, shb);
        bits_shift_or(le_pack(front), z << shb, le_pack(a), sha);
    }
}

proof fn bits_shift_right_twice(x: u64, sha: u64, shb: u64)
    by (bit_vector)
    requires
        sha % 8 == 0,
        shb % 8 == 0,
        sha + shb <= 64,
        sha < 64,
        shb < 64,
    ensures
        sha + shb < 64 ==> ((x >> sha) >> shb) & 0xff == (x >> ((sha + shb) as u64)) & 0xff,
        sha + shb < 64 ==> (x >> ((sha + shb) as u64) == 0 ==> (x >> sha) >> shb == 0),
        sha + shb == 64 ==> (x >> sha) >> shb == 0,
{
}

proof fn bits_shift_left_drops(x: u64, sh: u64)
    by (bit_vector)
    requires
        0 < sh < 64,
        sh % 8 == 0,
    ensures
        (x & !(0xffff_ffff_ffff_ffffu64 << ((64 - sh) as u64))) << sh == x << sh,
{
}

/// The bytes of `x` from byte `k` on are the bytes of `x` shifted down by
/// `k` bytes, and an `n`-byte value shifted down by `k` bytes is an
/// `n - k`-byte value.
pub proof fn lemma_le_bytes_shifted(x: u64, k: nat, n: nat)
    requires
        k <= n <= 8,
        k < 8,
    ensures
        le_bytes(x >> ((8 * k) as u64), (n - k) as nat) == le_bytes(x, n).skip(k as int),
        fits_bytes(x, n) ==> fits_bytes(x >> ((8 * k) as u64), (n - k) as nat),
{
    let sha = (8 * k) as u64;
    let shifted = x >> sha;
    let m = (n - k) as nat;
    assert forall|i: int| 0 <= i < m implies le_bytes(shifted, m)[i] == le_bytes(x, n).skip(
        k as int,
    )[i] by {
        bits_shift_right_twice(x, sha, (8 * i) as u64);
    }
    assert(le_bytes(shifted, m) =~= le_bytes(x, n).skip(k as int));
    if m < 8 {
        bits_shift_right_twice(x, sha, (8 * m) as u64);
    }
}

/// Shifting `x` up by `n` bytes keeps only its `8 - n` low bytes.
pub proof fn lemma_shift_keeps_low_bytes(x: u64, n: nat)
    requires
        n < 8,
    ensures
        low_bytes(x, (8 - n) as nat) << ((8 * n) as u64) == x << ((8 * n) as u64),
{
    if n > 0 {
        bits_shift_left_drops(x, (8 * n) as u64);
    }
}

/// Loads the `size` bytes of `buf` that start at index `i` as a
/// little-endian integer.
#[inline]
pub fn load_int_le(buf: &[u8], i: usize, size: usize) -> (out: u64)
    requires
        size <= 8,
        i + size <= buf.len(),
    ensures
        out == le_pack(buf@.subrange(i as int, i + size)),
{
    let mut out: u64 = 0;
    let mut k: usize = 0;
    while k < size
        invariant
            k <= size <= 8,
            i + size <= buf.len(),
            out == le_pack(buf@.subrange(i as int, i + k)),
        decreases size - k,
    {
        assert(buf@.subrange(i as int, i + k + 1).drop_last() =~= buf@.subrange(i as int, i + k));
        out = out | ((buf[i + k] as u64) << (8 * k));
        k += 1;
    }
    out
}

/// Loads a u64 from up to 7 bytes of a byte slice: the `len` bytes that
/// start at index `start`, in little-endian order. The bytes are fetched
/// in at most three fixed-size pieces of four, two and one byte.
#[inline]
pub fn u8to64_le(buf: &[u8], start: usize, len: usize) -> (out: u64)
    requires
        len < 8,
        start + len <= buf.len(),
    ensures
        out == le_pack(buf@.subrange(start as int, start + len)),
{
    let mut i: usize = 0;  // current byte index (from LSB) in the output u64
    let mut out: u64 = 0;
    if i + 3 < len {
        out = load_int_le(buf, start + i, 4);
        i += 4;
    }
    assert(out == le_pack(buf@.subrange(start as int, start + i)));
    if i + 1 < len {
        proof {
            let lo = buf@.subrange(start as int, start + i);
            let hi = buf@.subrange(start + i, start + i + 2);
            lemma_pack_concat(lo, hi);
            assert(lo + hi =~= buf@.subrange(start as int, start + i + 2));
        }
        out = out | (load_int_le(buf, start + i, 2) << (i * 8));
        i += 2;
    }
    assert(out == le_pack(buf@.subrange(start as int, start + i)));
    if i < len {
        assert(buf@.subrange(start as int, start + i + 1).drop_last() =~= buf@.subrange(
            start as int,
            start + i,
        ));
        out = out | ((buf[start + i] as u64) << (i * 8));
        i += 1;
    }
    assert(i == len);
    out
}

/// The number that the bytes of `s` spell in base 256, least significant
/// digit first.
pub open spec fn le_value(s: Seq<u8>) -> nat
    decreases s.len(),
{
    if s.len() == 0 {
        0
    } else {
        s.first() as nat + 256 * le_value(s.drop_first())
    }
}

proof fn bits_prepend_byte(b: u8, r: u64, sh: u64)
    by (bit_vector)
    requires
        sh <= 56,
        sh % 8 == 0,
        r >> sh == 0,
    ensures
        (0u64 | ((b as u64) << 0)) | (r << 8) == b + 256 * r,
{
}

/// Packing at most eight bytes gives the number that they spell in base
/// 256.
pub proof fn lemma_pack_value(s: Seq<u8>)
    requires
        s.len() <= 8,
    ensures
        le_pack(s) == le_value(s),
    decreases s.len(),
{
    if s.len() > 0 {
        let rest = s.drop_first();
        lemma_pack_value(rest);
        lemma_le_bytes_pack(rest);
        lemma_pack_concat(seq![s.first()], rest);
        assert(seq![s.first()] + rest =~= s);
        assert(le_pack(seq![s.first()]) == 0u64 | ((s.first() as u64) << 0)) by {
            reveal_with_fuel(le_pack, 2);
        }
        bits_prepend_byte(s.first(), le_pack(rest), (8 * rest.len()) as u64);
    }
}

proof fn bits_narrow_bytes(a: u8, b: u16, c: u32)
    by (bit_vector)
    ensures
        (((a as u64) >> 0) & 0xff) as u8 == a,
        (((b as u64) >> 0) & 0xff) as u8 == (b & 0xff) as u8,
        (((b as u64) >> 8) & 0xff) as u8 == ((b >> 8) & 0xff) as u8,
        (((c as u64) >> 0) & 0xff) as u8 == (c & 0xff) as u8,
        (((c as u64) >> 8) & 0xff) as u8 == ((c >> 8) & 0xff) as u8,
        (((c as u64) >> 16) & 0xff) as u8 == ((c >> 16) & 0xff) as u8,
        (((c as u64) >> 24) & 0xff) as u8 == ((c >> 24) & 0xff) as u8,
{
}

/// The bytes that stand for an integer of one, two or four bytes are its
/// own bytes, least significant first.
pub proof fn lemma_le_bytes_narrow(a: u8, b: u16, c: u32)
    ensures
        le_bytes(a as u64, 1) == seq![a],
        le_bytes(b as u64, 2) == seq![(b & 0xff) as u8, ((b >> 8) & 0xff) as u8],
        le_bytes(c as u64, 4) == seq![
            (c & 0xff) as u8,
            ((c >> 8) & 0xff) as u8,
            ((c >> 16) & 0xff) as u8,
            ((c >> 24) & 0xff) as u8,
        ],
{
    bits_narrow_bytes(a, b, c);
    assert(le_bytes(a as u64, 1) =~= seq![a]);
    assert(le_bytes(b as u64, 2) =~= seq![(b & 0xff) as u8, ((b >> 8) & 0xff) as u8]);
    assert(le_bytes(c as u64, 4) =~= seq![
        (c & 0xff) as u8,
        ((c >> 8) & 0xff) as u8,
        ((c >> 16) & 0xff) as u8,
        ((c >> 24) & 0xff) as u8,
    ]);
}

/// The eight bytes of `x` are its little-endian representation as vstd
/// defines it.
pub proof fn lemma_le_bytes_u64(x: u64)
    ensures
        le_bytes(x, 8) == vstd::bytes::spec_u64_to_le_bytes(x),
{
    vstd::bytes::spec_u64_to_le_bytes_to_open(x);
    assert(le_bytes(x, 8) =~= vstd::bytes::spec_u64_to_le_bytes_open(x)) by {
        assert(x >> 0u64 == x) by (bit_vector);
    }
}

/// Packing eight bytes reads them as a little-endian `u64` as vstd defines
/// it.
pub proof fn lemma_le_pack_u64(s: Seq<u8>)
    requires
        s.len() == 8,
    ensures
        le_pack(s) == vstd::bytes::spec_u64_from_le_bytes(s),
{
    lemma_le_bytes_pack(s);
    lemma_le_bytes_u64(le_pack(s));
    vstd::bytes::lemma_auto_spec_u64_to_from_le_bytes();
}

/// The two 64-bit halves that sixteen bytes hold in little-endian order,
/// the first eight bytes first.
pub open spec fn le_halves(s: Seq<u8>) -> (u64, u64) {
    (le_pack(s.subrange(0, 8)), le_pack(s.subrange(8, 16)))
}

/// The sixteen bytes of two 64-bit halves in little-endian order, `lo`
/// first.
pub open spec fn le_bytes16(lo: u64, hi: u64) -> Seq<u8> {
    le_bytes(lo, 8) + le_bytes(hi, 8)
}

/// Sixteen bytes and their two halves determine each other.
pub proof fn lemma_halves_round_trip(s: Seq<u8>, lo: u64, hi: u64)
    ensures
        s.len() == 16 ==> le_bytes16(le_halves(s).0, le_halves(s).1) == s,
        le_halves(le_bytes16(lo, hi)) == (lo, hi),
        le_bytes16(lo, hi).len() == 16,
{
    if s.len() == 16 {
        lemma_le_bytes_pack(s.subrange(0, 8));
        lemma_le_bytes_pack(s.subrange(8, 16));
        assert(s.subrange(0, 8) + s.subrange(8, 16) =~= s);
    }
    lemma_pack_le_bytes(lo, 8);
    lemma_pack_le_bytes(hi, 8);
    assert(le_bytes16(lo, hi).subrange(0, 8) =~= le_bytes(lo, 8));
    assert(le_bytes16(lo, hi).subrange(8, 16) =~= le_bytes(hi, 8));
}

/// Reads sixteen bytes as two little-endian 64-bit halves.
pub fn halves_from_le_bytes(bytes: &[u8; 16]) -> (r: (u64, u64))
    ensures
        r == le_halves(bytes@),
{
    let lo: u64 = load_int_le(bytes.as_slice(), 0, 8);
    let hi: u64 = load_int_le(bytes.as_slice(), 8, 8);
    (lo, hi)
}

proof fn bits_byte_in_range(x: u64)
    by (bit_vector)
    ensures
        x & 0xff < 256,
{
}

/// Writes two 64-bit halves as sixteen bytes in little-endian order, `lo`
/// first.
pub fn halves_to_le_bytes(lo: u64, hi: u64) -> (bytes: [u8; 16])
    ensures
        bytes@ == le_bytes16(lo, hi),
{
    let mut bytes: [u8; 16] = [0u8; 16];
    let mut i: usize = 0;
    while i < 8
        invariant
            i <= 8,
            forall|k: int| 0 <= k < i ==> bytes@[k] == le_byte(lo, k as nat),
            forall|k: int| 8 <= k < 8 + i ==> bytes@[k] == le_byte(hi, (k - 8) as nat),
        decreases 8 - i,
    {
        proof {
            bits_byte_in_range(lo >> (8 * i) as u64);
            bits_byte_in_range(hi >> (8 * i) as u64);
        }
        bytes[i] = ((lo >> (8 * i)) & 0xff) as u8;
        bytes[8 + i] = ((hi >> (8 * i)) & 0xff) as u8;
        i += 1;
    }
    assert(bytes@ =~= le_bytes16(lo, hi));
    bytes
}

} // verus!
