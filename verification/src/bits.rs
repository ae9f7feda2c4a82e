//! The arithmetic of single bits: what it means for a bit of a number to be set, and how the
//! machine's bitwise operators relate to it.

use vstd::arithmetic::power2::{lemma2_to64, lemma_pow2_unfold, pow2};
use vstd::bits::{lemma_u64_pow2_no_overflow, lemma_u64_shl_is_mul};
use vstd::prelude::*;

verus! {

/// Whether bit `i` of `v` is 1, bit 0 being the least significant.
pub open spec fn bit_of(v: nat, i: nat) -> bool
    decreases i,
{
    if i == 0 {
        v % 2 == 1
    } else {
        bit_of(v / 2, (i - 1) as nat)
    }
}

/// `v` with bit `i` raised to 1; every other bit is kept.
pub open spec fn with_bit(v: nat, i: nat) -> nat {
    if bit_of(v, i) {
        v
    } else {
        v + pow2(i)
    }
}

/// `v` with bit `i` lowered to 0; every other bit is kept.
pub open spec fn without_bit(v: nat, i: nat) -> nat {
    if bit_of(v, i) {
        (v - pow2(i)) as nat
    } else {
        v
    }
}

/// Zero has no bit set.
pub proof fn lemma_bit_of_zero(i: nat)
    ensures
        !bit_of(0, i),
    decreases i,
{
    if i > 0 {
        lemma_bit_of_zero((i - 1) as nat);
    }
}

/// A set bit `i` makes the number at least `2^i`.
pub proof fn lemma_bit_of_lower_bound(v: nat, i: nat)
    requires
        bit_of(v, i),
    ensures
        v >= pow2(i),
    decreases i,
{
    if i == 0 {
        lemma2_to64();
    } else {
        lemma_bit_of_lower_bound(v / 2, (i - 1) as nat);
        lemma_pow2_unfold(i);
    }
}

/// Raising bit `i` sets bit `i` and changes no other bit.
pub proof fn lemma_with_bit(v: nat, i: nat, j: nat)
    ensures
        bit_of(with_bit(v, i), j) == (j == i || bit_of(v, j)),
    decreases i,
{
    if bit_of(v, i) {
    } else if i == 0 {
        lemma2_to64();
        if j > 0 {
            assert((v + 1) / 2 == v / 2);
        }
    } else {
        lemma_pow2_unfold(i);
        let p = pow2((i - 1) as nat);
        assert((v + 2 * p) / 2 == v / 2 + p);
        assert((v + 2 * p) % 2 == v % 2);
        assert(with_bit(v / 2, (i - 1) as nat) == v / 2 + p);
        if j > 0 {
            lemma_with_bit(v / 2, (i - 1) as nat, (j - 1) as nat);
        }
    }
}

/// Lowering bit `i` clears bit `i` and changes no other bit.
pub proof fn lemma_without_bit(v: nat, i: nat, j: nat)
    ensures
        bit_of(without_bit(v, i), j) == (j != i && bit_of(v, j)),
    decreases i,
{
    if !bit_of(v, i) {
    } else if i == 0 {
        lemma2_to64();
        if j > 0 {
            assert((v - 1) / 2 == v / 2);
        }
    } else {
        lemma_pow2_unfold(i);
        lemma_bit_of_lower_bound(v, i);
        let p = pow2((i - 1) as nat);
        assert((v - 2 * p) / 2 == v / 2 - p);
        assert((v - 2 * p) % 2 == v % 2);
        lemma_bit_of_lower_bound(v / 2, (i - 1) as nat);
        assert(without_bit(v / 2, (i - 1) as nat) == v / 2 - p);
        if j > 0 {
            lemma_without_bit(v / 2, (i - 1) as nat, (j - 1) as nat);
        }
    }
}

/// Two numbers with the same bits are the same number.
pub proof fn lemma_bits_determine(a: nat, b: nat)
    requires
        forall|i: nat| bit_of(a, i) == bit_of(b, i),
    ensures
        a == b,
    decreases a + b,
{
    assert(bit_of(a, 0) == bit_of(b, 0));
    if a + b > 0 {
        let (a2, b2) = (a / 2, b / 2);
        assert forall|i: nat| bit_of(a2, i) == bit_of(b2, i) by {
            assert(bit_of(a, i + 1) == bit_of(b, i + 1));
        }
        lemma_bits_determine(a2, b2);
    }
}

/// A number is below `2^w` exactly when none of its bits from `w` upwards is set.
pub proof fn lemma_below_pow2(v: nat, w: nat)
    ensures
        v < pow2(w) <==> forall|i: nat| i >= w ==> !bit_of(v, i),
    decreases w,
{
    if w == 0 {
        lemma2_to64();
        if v == 0 {
            assert forall|i: nat| i >= w implies !bit_of(v, i) by {
                lemma_bit_of_zero(i);
            }
        } else {
            lemma_some_bit(v);
        }
    } else {
        lemma_pow2_unfold(w);
        let half = v / 2;
        lemma_below_pow2(half, (w - 1) as nat);
        if v < pow2(w) {
            assert forall|i: nat| i >= w implies !bit_of(v, i) by {
                assert(!bit_of(half, (i - 1) as nat));
            }
        }
        if forall|i: nat| i >= w ==> !bit_of(v, i) {
            assert forall|i: nat| i >= w - 1 implies !bit_of(half, i) by {
                assert(!bit_of(v, i + 1));
            }
        }
    }
}

/// Raising a bit below `w` keeps a number below `2^w`.
pub proof fn lemma_with_bit_below(v: nat, i: nat, w: nat)
    requires
        v < pow2(w),
        i < w,
    ensures
        with_bit(v, i) < pow2(w),
{
    let raised = with_bit(v, i);
    lemma_below_pow2(v, w);
    assert forall|j: nat| j >= w implies !bit_of(raised, j) by {
        lemma_with_bit(v, i, j);
    }
    lemma_below_pow2(raised, w);
}

/// A number that is not zero has a bit set.
pub proof fn lemma_some_bit(v: nat)
    requires
        v > 0,
    ensures
        exists|i: nat| bit_of(v, i),
    decreases v,
{
    if v % 2 == 1 {
        assert(bit_of(v, 0));
    } else {
        let half = v / 2;
        lemma_some_bit(half);
        let i = choose|i: nat| bit_of(half, i);
        assert(bit_of(v, i + 1));
    }
}

/// Bit `s` of a 64-bit word, by shift and mask, is `bit_of`.
pub proof fn lemma_u64_bit(x: u64, s: u64)
    requires
        s < 64,
    ensures
        ((x >> s) & 1 == 1) == bit_of(x as nat, s as nat),
    decreases s,
{
    if s == 0 {
        assert(((x >> 0) & 1 == 1) == (x % 2 == 1)) by (bit_vector);
    } else {
        let half = x / 2;
        let r = (s - 1) as u64;
        assert((x >> s) & 1 == (half >> r) & 1) by (bit_vector)
            requires
                0 < s < 64,
                r == s - 1,
                half == x / 2,
        ;
        lemma_u64_bit(half, r);
    }
}

/// Testing a 64-bit word against the mask `1 << s` reads bit `s`.
pub proof fn lemma_u64_test(x: u64, s: usize)
    requires
        s < 64,
    ensures
        (x & (1u64 << s) != 0) == bit_of(x as nat, s as nat),
{
    let t = s as u64;
    assert((x & (1u64 << s) != 0) == ((x >> t) & 1 == 1)) by (bit_vector)
        requires
            s < 64,
            t == s,
    ;
    lemma_u64_bit(x, t);
}

/// Or-ing the mask `1 << s` into a 64-bit word raises bit `s`.
pub proof fn lemma_u64_raise(x: u64, s: usize)
    requires
        s < 64,
    ensures
        (x | (1u64 << s)) as nat == with_bit(x as nat, s as nat),
{
    let t = s as u64;
    lemma_u64_bit(x, t);
    lemma_u64_pow2_no_overflow(s as nat);
    lemma_u64_shl_is_mul(1, t);
    assert((1u64 << s) == (1u64 << t)) by (bit_vector)
        requires
            s < 64,
            t == s,
    ;
    assert(x | (1u64 << t) == if (x >> t) & 1 == 1 {
        x as int
    } else {
        x + (1u64 << t)
    }) by (bit_vector)
        requires
            t < 64,
    ;
}

/// Testing a 32-bit word against the mask `1 << s` reads bit `s`.
pub proof fn lemma_u32_test(x: u32, s: usize)
    requires
        s < 32,
    ensures
        (x & (1u32 << s) != 0) == bit_of(x as nat, s as nat),
{
    let wide = x as u64;
    let t = s as u64;
    assert((x & (1u32 << s) != 0) == ((wide >> t) & 1 == 1)) by (bit_vector)
        requires
            s < 32,
            t == s,
            wide == x,
    ;
    lemma_u64_bit(wide, t);
}

/// Or-ing the mask `1 << s` into a 32-bit word raises bit `s`.
pub proof fn lemma_u32_raise(x: u32, s: usize)
    requires
        s < 32,
    ensures
        (x | (1u32 << s)) as nat == with_bit(x as nat, s as nat),
{
    let wide = x as u64;
    assert(x | (1u32 << s) == wide | (1u64 << s)) by (bit_vector)
        requires
            s < 32,
            wide == x,
    ;
    lemma_u64_raise(wide, s);
}

/// Testing a 16-bit word against the mask `1 << s` reads bit `s`.
pub proof fn lemma_u16_test(x: u16, s: usize)
    requires
        s < 16,
    ensures
        (x & (1u16 << s) != 0) == bit_of(x as nat, s as nat),
{
    let wide = x as u64;
    let t = s as u64;
    assert((x & (1u16 << s) != 0) == ((wide >> t) & 1 == 1)) by (bit_vector)
        requires
            s < 16,
            t == s,
            wide == x,
    ;
    lemma_u64_bit(wide, t);
}

/// Or-ing the mask `1 << s` into a 16-bit word raises bit `s`.
pub proof fn lemma_u16_raise(x: u16, s: usize)
    requires
        s < 16,
    ensures
        (x | (1u16 << s)) as nat == with_bit(x as nat, s as nat),
{
    let wide = x as u64;
    assert(x | (1u16 << s) == wide | (1u64 << s)) by (bit_vector)
        requires
            s < 16,
            wide == x,
    ;
    lemma_u64_raise(wide, s);
}

/// Testing a 8-bit word against the mask `1 << s` reads bit `s`.
pub proof fn lemma_u8_test(x: u8, s: usize)
    requires
        s < 8,
    ensures
        (x & (1u8 << s) != 0) == bit_of(x as nat, s as nat),
{
    let wide = x as u64;
    let t = s as u64;
    assert((x & (1u8 << s) != 0) == ((wide >> t) & 1 == 1)) by (bit_vector)
        requires
            s < 8,
            t == s,
            wide == x,
    ;
    lemma_u64_bit(wide, t);
}

/// Or-ing the mask `1 << s` into a 8-bit word raises bit `s`.
pub proof fn lemma_u8_raise(x: u8, s: usize)
    requires
        s < 8,
    ensures
        (x | (1u8 << s)) as nat == with_bit(x as nat, s as nat),
{
    let wide = x as u64;
    assert(x | (1u8 << s) == wide | (1u64 << s)) by (bit_vector)
        requires
            s < 8,
            wide == x,
    ;
    lemma_u64_raise(wide, s);
}

/// And-ing the complement of the mask `1 << s` into a byte lowers bit `s`.
pub proof fn lemma_u8_lower(x: u8, s: usize)
    requires
        s < 8,
    ensures
        (x & !(1u8 << s)) as nat == without_bit(x as nat, s as nat),
{
    let wide = x as u64;
    let t = s as u64;
    lemma_u64_bit(wide, t);
    lemma_u64_pow2_no_overflow(s as nat);
    lemma_u64_shl_is_mul(1, t);
    assert(x & !(1u8 << s) == if (wide >> t) & 1 == 1 {
        wide - (1u64 << t)
    } else {
        wide as int
    }) by (bit_vector)
        requires
            s < 8,
            t == s,
            wide == x,
    ;
}

} // verus!
