//! Single-precision floats held as their IEEE-754 bit patterns.
//!
//! The logic of this crate never computes with floats; it only stores them,
//! compares them, and writes small whole numbers as floats. Those three
//! operations are stated here over the bit pattern.

use vstd::prelude::*;

verus! {

/// `2` to the power `e`.
pub open spec fn two_pow(e: nat) -> nat
    decreases e,
{
    if e == 0 {
        1
    } else {
        2 * two_pow((e - 1) as nat)
    }
}

/// The largest `e` with `2^e <= n` (for `n >= 1`).
pub open spec fn floor_log2(n: nat) -> nat
    decreases n,
{
    if n < 2 {
        0
    } else {
        1 + floor_log2(n / 2)
    }
}

/// Whether a bit pattern encodes a NaN: all exponent bits set and a
/// non-zero fraction.
pub open spec fn spec_is_nan(bits: u32) -> bool {
    (bits & 0x7f80_0000) == 0x7f80_0000 && (bits & 0x007f_ffff) != 0
}

/// IEEE-754 equality of two floats given by their bit patterns: a NaN
/// equals nothing, the two zeros are equal, and otherwise equal floats have
/// equal bit patterns.
pub open spec fn spec_f32_eq(a: u32, b: u32) -> bool {
    !spec_is_nan(a) && !spec_is_nan(b) && (a == b || ((a | b) & 0x7fff_ffff) == 0)
}

/// Compares two floats, given by their bit patterns, as `==` on `f32` does.
pub fn f32_eq(a: u32, b: u32) -> (r: bool)
    ensures
        r == spec_f32_eq(a, b),
{
    let a_nan = (a & 0x7f80_0000) == 0x7f80_0000 && (a & 0x007f_ffff) != 0;
    let b_nan = (b & 0x7f80_0000) == 0x7f80_0000 && (b & 0x007f_ffff) != 0;
    !a_nan && !b_nan && (a == b || ((a | b) & 0x7fff_ffff) == 0)
}

/// Float equality, element by element, of two equally long sequences.
pub open spec fn spec_f32_seq_eq(a: Seq<u32>, b: Seq<u32>) -> bool {
    a.len() == b.len() && forall|i: int| 0 <= i < a.len() ==> spec_f32_eq(#[trigger] a[i], b[i])
}

/// Compares two slices of floats element by element with float equality.
pub fn f32_slice_eq(a: &[u32], b: &[u32]) -> (r: bool)
    ensures
        r == spec_f32_seq_eq(a@, b@),
{
    if a.len() != b.len() {
        return false;
    }
    let mut i: usize = 0;
    while i < a.len()
        invariant
            a@.len() == b@.len(),
            0 <= i <= a@.len(),
            forall|j: int| 0 <= j < i ==> spec_f32_eq(#[trigger] a@[j], b@[j]),
        decreases a@.len() - i,
    {
        if !f32_eq(a[i], b[i]) {
            return false;
        }
        i = i + 1;
    }
    true
}

/// The bit pattern of the float that equals the whole number `n`, for
/// `n < 2^24` (where every whole number is exactly representable): sign 0,
/// biased exponent `127 + e` with `e = floor(log2 n)`, and the bits of `n`
/// below its leading one as the top of the fraction. Zero is all zero bits.
pub open spec fn spec_small_int_f32_bits(n: nat) -> nat {
    if n == 0 {
        0
    } else {
        let e = floor_log2(n);
        ((127 + e) * two_pow(23) + (n - two_pow(e)) * two_pow((23 - e) as nat)) as nat
    }
}

proof fn lemma_two_pow_small()
    ensures
        two_pow(0) == 1,
        two_pow(1) == 2,
        two_pow(2) == 4,
        two_pow(3) == 8,
        two_pow(4) == 16,
        two_pow(5) == 32,
        two_pow(6) == 64,
        two_pow(7) == 128,
        two_pow(8) == 256,
        two_pow(9) == 512,
        two_pow(10) == 1024,
        two_pow(11) == 2048,
        two_pow(12) == 4096,
        two_pow(13) == 8192,
        two_pow(14) == 16384,
        two_pow(15) == 32768,
        two_pow(16) == 65536,
        two_pow(17) == 131072,
        two_pow(18) == 262144,
        two_pow(19) == 524288,
        two_pow(20) == 1048576,
        two_pow(21) == 2097152,
        two_pow(22) == 4194304,
        two_pow(23) == 8388608,
        two_pow(24) == 16777216,
        two_pow(25) == 33554432,
        two_pow(26) == 67108864,
        two_pow(27) == 134217728,
        two_pow(28) == 268435456,
        two_pow(29) == 536870912,
        two_pow(30) == 1073741824,
        two_pow(31) == 2147483648,
        two_pow(32) == 4294967296,
{
    assert(two_pow(0) == 1);
    assert(two_pow(1) == 2);
    assert(two_pow(2) == 4);
    assert(two_pow(3) == 8);
    assert(two_pow(4) == 16);
    assert(two_pow(5) == 32);
    assert(two_pow(6) == 64);
    assert(two_pow(7) == 128);
    assert(two_pow(8) == 256);
    assert(two_pow(9) == 512);
    assert(two_pow(10) == 1024);
    assert(two_pow(11) == 2048);
    assert(two_pow(12) == 4096);
    assert(two_pow(13) == 8192);
    assert(two_pow(14) == 16384);
    assert(two_pow(15) == 32768);
    assert(two_pow(16) == 65536);
    assert(two_pow(17) == 131072);
    assert(two_pow(18) == 262144);
    assert(two_pow(19) == 524288);
    assert(two_pow(20) == 1048576);
    assert(two_pow(21) == 2097152);
    assert(two_pow(22) == 4194304);
    assert(two_pow(23) == 8388608);
    assert(two_pow(24) == 16777216);
    assert(two_pow(25) == 33554432);
    assert(two_pow(26) == 67108864);
    assert(two_pow(27) == 134217728);
    assert(two_pow(28) == 268435456);
    assert(two_pow(29) == 536870912);
    assert(two_pow(30) == 1073741824);
    assert(two_pow(31) == 2147483648);
    assert(two_pow(32) == 4294967296);
}

proof fn lemma_floor_log2_of(n: nat, e: nat)
    requires
        two_pow(e) <= n < 2 * two_pow(e),
    ensures
        floor_log2(n) == e,
    decreases e,
{
    if e == 0 {
    } else {
        assert(two_pow(e) == 2 * two_pow((e - 1) as nat));
        lemma_floor_log2_of(n / 2, (e - 1) as nat);
    }
}

proof fn lemma_small_int_bits_at(n: nat, e: nat, low: nat, scale: nat)
    requires
        e < 8,
        two_pow(e) <= n < 2 * two_pow(e),
        low == n - two_pow(e),
        scale == two_pow((23 - e) as nat),
    ensures
        spec_small_int_f32_bits(n) == (127 + e) * 0x80_0000 + low * scale,
{
    lemma_floor_log2_of(n, e);
    lemma_two_pow_small();
}

/// The float that equals a byte value, as a bit pattern (what `n as f32`
/// gives).
pub fn u8_to_f32_bits(n: u8) -> (r: u32)
    ensures
        r as nat == spec_small_int_f32_bits(n as nat),
{
    proof {
        lemma_two_pow_small();
    }
    if n == 0 {
        assert(spec_small_int_f32_bits(0) == 0);
        0
    } else if n >= 128 {
        let low: u32 = (n as u32) - 128;
        proof {
            lemma_small_int_bits_at(n as nat, 7, low as nat, 0x1_0000);
            assert(low * 0x1_0000 <= 128 * 0x1_0000) by (nonlinear_arith)
                requires
                    low < 128,
            ;
        }
        let r: u32 = 0x4300_0000u32 + low * 0x1_0000;
        assert(r as nat == spec_small_int_f32_bits(n as nat));
        r
    } else if n >= 64 {
        let low: u32 = (n as u32) - 64;
        proof {
            lemma_small_int_bits_at(n as nat, 6, low as nat, 0x2_0000);
            assert(low * 0x2_0000 <= 64 * 0x2_0000) by (nonlinear_arith)
                requires
                    low < 64,
            ;
        }
        let r: u32 = 0x4280_0000u32 + low * 0x2_0000;
        assert(r as nat == spec_small_int_f32_bits(n as nat));
        r
    } else if n >= 32 {
        let low: u32 = (n as u32) - 32;
        proof {
            lemma_small_int_bits_at(n as nat, 5, low as nat, 0x4_0000);
            assert(low * 0x4_0000 <= 32 * 0x4_0000) by (nonlinear_arith)
                requires
                    low < 32,
            ;
        }
        let r: u32 = 0x4200_0000u32 + low * 0x4_0000;
        assert(r as nat == spec_small_int_f32_bits(n as nat));
        r
    } else if n >= 16 {
        let low: u32 = (n as u32) - 16;
        proof {
            lemma_small_int_bits_at(n as nat, 4, low as nat, 0x8_0000);
            assert(low * 0x8_0000 <= 16 * 0x8_0000) by (nonlinear_arith)
                requires
                    low < 16,
            ;
        }
        let r: u32 = 0x4180_0000u32 + low * 0x8_0000;
        assert(r as nat == spec_small_int_f32_bits(n as nat));
        r
    } else if n >= 8 {
        let low: u32 = (n as u32) - 8;
        proof {
            lemma_small_int_bits_at(n as nat, 3, low as nat, 0x10_0000);
            assert(low * 0x10_0000 <= 8 * 0x10_0000) by (nonlinear_arith)
                requires
                    low < 8,
            ;
        }
        let r: u32 = 0x4100_0000u32 + low * 0x10_0000;
        assert(r as nat == spec_small_int_f32_bits(n as nat));
        r
    } else if n >= 4 {
        let low: u32 = (n as u32) - 4;
        proof {
            lemma_small_int_bits_at(n as nat, 2, low as nat, 0x20_0000);
            assert(low * 0x20_0000 <= 4 * 0x20_0000) by (nonlinear_arith)
                requires
                    low < 4,
            ;
        }
        let r: u32 = 0x4080_0000u32 + low * 0x20_0000;
        assert(r as nat == spec_small_int_f32_bits(n as nat));
        r
    } else if n >= 2 {
        let low: u32 = (n as u32) - 2;
        proof {
            lemma_small_int_bits_at(n as nat, 1, low as nat, 0x40_0000);
            assert(low * 0x40_0000 <= 2 * 0x40_0000) by (nonlinear_arith)
                requires
                    low < 2,
            ;
        }
        let r: u32 = 0x4000_0000u32 + low * 0x40_0000;
        assert(r as nat == spec_small_int_f32_bits(n as nat));
        r
    } else {
        proof {
            assert(n == 1);
            lemma_small_int_bits_at(1, 0, 0, 0x80_0000);
        }
        assert(spec_small_int_f32_bits(1) == 127 * 0x80_0000 + 0 * 0x80_0000);
        0x3f80_0000u32
    }
}

/// Float equality is symmetric.
pub proof fn lemma_f32_eq_symmetric(a: u32, b: u32)
    ensures
        spec_f32_eq(a, b) == spec_f32_eq(b, a),
{
    assert(a | b == b | a) by (bit_vector);
}

/// A float equals itself exactly when it is not a NaN.
pub proof fn lemma_f32_eq_reflexive(a: u32)
    ensures
        spec_f32_eq(a, a) == !spec_is_nan(a),
{
}

/// Positive and negative zero are equal floats.
pub proof fn lemma_f32_zeros_equal()
    ensures
        spec_f32_eq(0, 0x8000_0000),
{
    assert((0u32 | 0x8000_0000u32) & 0x7fff_ffff == 0) by (bit_vector);
    assert(!spec_is_nan(0)) by (bit_vector);
    assert(!spec_is_nan(0x8000_0000)) by (bit_vector);
}

/// A byte value written as a float is never a NaN, so it equals itself.
pub proof fn lemma_small_int_bits_not_nan(n: u8)
    ensures
        spec_small_int_f32_bits(n as nat) < 0x4380_0000,
        !spec_is_nan(spec_small_int_f32_bits(n as nat) as u32),
{
    lemma_two_pow_small();
    let b = spec_small_int_f32_bits(n as nat);
    if n == 0 {
        assert(spec_small_int_f32_bits(0) == 0);
    } else if n >= 128 {
        lemma_small_int_bits_at(n as nat, 7, (n - 128) as nat, 0x1_0000);
        assert((n - 128) * 0x1_0000 < 0x80_0000) by (nonlinear_arith)
            requires
                128 <= n < 256,
        ;
    } else if n >= 64 {
        lemma_small_int_bits_at(n as nat, 6, (n - 64) as nat, 0x2_0000);
        assert((n - 64) * 0x2_0000 < 0x80_0000) by (nonlinear_arith)
            requires
                64 <= n < 128,
        ;
    } else if n >= 32 {
        lemma_small_int_bits_at(n as nat, 5, (n - 32) as nat, 0x4_0000);
        assert((n - 32) * 0x4_0000 < 0x80_0000) by (nonlinear_arith)
            requires
                32 <= n < 64,
        ;
    } else if n >= 16 {
        lemma_small_int_bits_at(n as nat, 4, (n - 16) as nat, 0x8_0000);
        assert((n - 16) * 0x8_0000 < 0x80_0000) by (nonlinear_arith)
            requires
                16 <= n < 32,
        ;
    } else if n >= 8 {
        lemma_small_int_bits_at(n as nat, 3, (n - 8) as nat, 0x10_0000);
        assert((n - 8) * 0x10_0000 < 0x80_0000) by (nonlinear_arith)
            requires
                8 <= n < 16,
        ;
    } else if n >= 4 {
        lemma_small_int_bits_at(n as nat, 2, (n - 4) as nat, 0x20_0000);
        assert((n - 4) * 0x20_0000 < 0x80_0000) by (nonlinear_arith)
            requires
                4 <= n < 8,
        ;
    } else if n >= 2 {
        lemma_small_int_bits_at(n as nat, 1, (n - 2) as nat, 0x40_0000);
        assert((n - 2) * 0x40_0000 < 0x80_0000) by (nonlinear_arith)
            requires
                2 <= n < 4,
        ;
    } else {
        assert(n == 1);
        lemma_small_int_bits_at(1, 0, 0, 0x80_0000);
        assert(spec_small_int_f32_bits(1) == 127 * 0x80_0000 + 0 * 0x80_0000);
        assert(b == 0x3f80_0000);
    }
    let x = b as u32;
    assert(x < 0x4380_0000 ==> (x & 0x7f80_0000) != 0x7f80_0000) by (bit_vector);
}

/// The value of the float nearest to the whole number `n` (ties to the even
/// neighbour), which is what `n as f32` gives for a 32-bit unsigned `n`:
/// below `2^24` every whole number is a float; above, `n` is rounded to a
/// multiple of `2^s`, where `s` is the number of its bits beyond 24.
#[verifier::opaque]
pub open spec fn spec_f32_round(n: nat) -> nat {
    if n < 0x100_0000 {
        n
    } else {
        let s = (floor_log2(n) - 23) as nat;
        let p = two_pow(s);
        let q = n / p;
        let r = n % p;
        let q1 = if r > p / 2 || (r == p / 2 && q % 2 == 1) {
            q + 1
        } else {
            q
        };
        q1 * p
    }
}

/// The value of `n as f32`, as a whole number.
pub fn u32_as_f32_value(n: u32) -> (r: u64)
    ensures
        r == spec_f32_round(n as nat),
{
    proof {
        reveal(spec_f32_round);
    }
    if n < 0x100_0000 {
        return n as u64;
    }
    proof {
        lemma_two_pow_small();
    }
    let (e, p): (u32, u32) = if n >= 0x8000_0000 {
        (31, 256)
    } else if n >= 0x4000_0000 {
        (30, 128)
    } else if n >= 0x2000_0000 {
        (29, 64)
    } else if n >= 0x1000_0000 {
        (28, 32)
    } else if n >= 0x800_0000 {
        (27, 16)
    } else if n >= 0x400_0000 {
        (26, 8)
    } else if n >= 0x200_0000 {
        (25, 4)
    } else {
        (24, 2)
    };
    proof {
        lemma_floor_log2_of(n as nat, e as nat);
        assert(two_pow((e - 23) as nat) == p);
    }
    let q = n / p;
    let r = n % p;
    let half = p / 2;
    let q1: u32 = if r > half || (r == half && q % 2 == 1) {
        q + 1
    } else {
        q
    };
    proof {
        assert(q1 as u64 * p as u64 <= 0x1_0000_0000) by (nonlinear_arith)
            requires
                q == n / p,
                q1 <= q + 1,
                n < 0x1_0000_0000,
                p == 2 || p == 4 || p == 8 || p == 16 || p == 32 || p == 64 || p == 128 || p == 256,
                n >= p * 0x80_0000,
        ;
    }
    (q1 as u64) * (p as u64)
}

/// The bit pattern of the float whose value is the whole number `v`, for a
/// `v` that a float holds exactly: sign 0, biased exponent `127 + e` with
/// `e = floor(log2 v)`, and the bits of `v` below its leading one as the top
/// of the fraction (shifted down when `v` has more than 24 bits, which are
/// then zero). Zero is all zero bits.
pub open spec fn spec_whole_f32_bits(v: nat) -> nat {
    if v == 0 {
        0
    } else {
        let e = floor_log2(v);
        if e <= 23 {
            spec_small_int_f32_bits(v)
        } else {
            ((127 + e) * two_pow(23) + (v - two_pow(e)) as nat / two_pow((e - 23) as nat)) as nat
        }
    }
}

proof fn lemma_two_pow_add(a: nat, b: nat)
    ensures
        two_pow(a + b) == two_pow(a) * two_pow(b),
    decreases b,
{
    if b == 0 {
        assert(a + b == a);
        assert(two_pow(b) == 1);
    } else {
        lemma_two_pow_add(a, (b - 1) as nat);
        assert((a + b - 1) as nat == a + (b - 1) as nat);
        assert(two_pow(a + b) == 2 * two_pow((a + b - 1) as nat));
        assert(two_pow(a) * two_pow(b) == two_pow(a) * (2 * two_pow((b - 1) as nat)));
        assert(two_pow(a) * (2 * two_pow((b - 1) as nat)) == 2 * (two_pow(a) * two_pow((b - 1) as nat)))
            by (nonlinear_arith);
    }
}

proof fn lemma_two_pow_positive(e: nat)
    ensures
        two_pow(e) >= 1,
    decreases e,
{
    if e > 0 {
        lemma_two_pow_positive((e - 1) as nat);
    }
}

/// The bit pattern of `n as f32`, for a 32-bit unsigned `n`.
pub fn u32_to_f32_bits(n: u32) -> (r: u32)
    ensures
        r == spec_whole_f32_bits(spec_f32_round(n as nat)),
{
    let v = u32_as_f32_value(n);
    if v == 0 {
        return 0;
    }
    let mut e: u64 = 0;
    let mut p: u64 = 1;
    while p <= v / 2
        invariant
            p == two_pow(e as nat),
            1 <= p <= v,
            e <= 64,
            v == spec_f32_round(n as nat),
        decreases v - p,
    {
        assert(two_pow((e + 1) as nat) == 2 * two_pow(e as nat));
        p = p * 2;
        e = e + 1;
        proof {
            if e > 63 {
                lemma_two_pow_add(63, (e - 63) as nat);
                lemma_two_pow_positive((e - 63) as nat);
                lemma_two_pow_small();
                assert(two_pow(63) == 2 * two_pow(62));
                assert(two_pow(62) == 4294967296 * two_pow(30)) by {
                    lemma_two_pow_add(32, 30);
                }
                assert(two_pow(30) == 1073741824);
                assert(p >= two_pow(63)) by (nonlinear_arith)
                    requires
                        p == two_pow(63) * two_pow((e - 63) as nat),
                        two_pow((e - 63) as nat) >= 1,
                        two_pow(63) >= 0,
                ;
            }
        }
    }
    proof {
        lemma_floor_log2_of(v as nat, e as nat);
        lemma_two_pow_small();
    }
    if e <= 23 {
        let s: u64 = 0x80_0000 / p;
        proof {
            lemma_two_pow_add(e as nat, (23 - e) as nat);
            lemma_two_pow_positive((23 - e) as nat);
            assert(s == two_pow((23 - e) as nat)) by (nonlinear_arith)
                requires
                    0x80_0000 == p * two_pow((23 - e) as nat),
                    p >= 1,
                    s == 0x80_0000u64 / p,
            ;
            assert((v - p) * s < 0x80_0000) by (nonlinear_arith)
                requires
                    v < 2 * p,
                    p <= v,
                    0x80_0000 == p * s,
            ;
        }
        let r: u64 = (127 + e) * 0x80_0000 + (v - p) * s;
        assert(r == spec_small_int_f32_bits(v as nat));
        r as u32
    } else {
        let d: u64 = p / 0x80_0000;
        proof {
            lemma_two_pow_add(23, (e - 23) as nat);
            lemma_two_pow_positive((e - 23) as nat);
            assert(d == two_pow((e - 23) as nat)) by (nonlinear_arith)
                requires
                    p == 0x80_0000 * two_pow((e - 23) as nat),
                    d == p / 0x80_0000,
            ;
            assert(((v - p) as u64) / d < 0x80_0000) by (nonlinear_arith)
                requires
                    v < 2 * p,
                    p <= v,
                    p == 0x80_0000 * d,
                    d >= 1,
            ;
        }
        let r: u64 = (127 + e) * 0x80_0000 + (v - p) / d;
        r as u32
    }
}

} // verus!
