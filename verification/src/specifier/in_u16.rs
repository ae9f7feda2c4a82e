//! The specifiers of 9 to 16 bits. Their bucket is a `u16`, the narrowest unsigned integer
//! that holds that many bits.

use crate::bits::{bit_of, lemma_u16_raise, lemma_u16_test, with_bit};
use crate::specifier::Specifier;
use vstd::prelude::*;

verus! {

/// A field of 9 bits, held in a `u16`.
pub struct B9;

impl Specifier for B9 {
    type Bucket = u16;

    const BITS: usize = 9;

    open spec fn value(bucket: u16) -> nat {
        bucket as nat
    }

    open spec fn accepts(bit: usize) -> bool {
        bit < 16
    }

    proof fn lemma_bits()
        ensures
            Self::BITS == 9,
    {
    }

    proof fn lemma_value_injective(a: u16, b: u16) {
    }

    fn is_set(bucket: &u16, bit: usize) -> (r: bool)
        ensures
            r == bit_of(*bucket as nat, bit as nat),
    {
        proof {
            lemma_u16_test(*bucket, bit);
        }
        *bucket & (1 << bit) != 0
    }

    fn set(bucket: &mut u16, bit: usize)
        ensures
            *final(bucket) as nat == with_bit(*old(bucket) as nat, bit as nat),
    {
        proof {
            lemma_u16_raise(*bucket, bit);
        }
        *bucket |= 1 << bit;
    }

    fn empty() -> (r: u16)
        ensures
            r == 0,
    {
        0
    }
}

/// A field of 10 bits, held in a `u16`.
pub struct B10;

impl Specifier for B10 {
    type Bucket = u16;

    const BITS: usize = 10;

    open spec fn value(bucket: u16) -> nat {
        bucket as nat
    }

    open spec fn accepts(bit: usize) -> bool {
        bit < 16
    }

    proof fn lemma_bits()
        ensures
            Self::BITS == 10,
    {
    }

    proof fn lemma_value_injective(a: u16, b: u16) {
    }

    fn is_set(bucket: &u16, bit: usize) -> (r: bool)
        ensures
            r == bit_of(*bucket as nat, bit as nat),
    {
        proof {
            lemma_u16_test(*bucket, bit);
        }
        *bucket & (1 << bit) != 0
    }

    fn set(bucket: &mut u16, bit: usize)
        ensures
            *final(bucket) as nat == with_bit(*old(bucket) as nat, bit as nat),
    {
        proof {
            lemma_u16_raise(*bucket, bit);
        }
        *bucket |= 1 << bit;
    }

    fn empty() -> (r: u16)
        ensures
            r == 0,
    {
        0
    }
}

/// A field of 11 bits, held in a `u16`.
pub struct B11;

impl Specifier for B11 {
    type Bucket = u16;

    const BITS: usize = 11;

    open spec fn value(bucket: u16) -> nat {
        bucket as nat
    }

    open spec fn accepts(bit: usize) -> bool {
        bit < 16
    }

    proof fn lemma_bits()
        ensures
            Self::BITS == 11,
    {
    }

    proof fn lemma_value_injective(a: u16, b: u16) {
    }

    fn is_set(bucket: &u16, bit: usize) -> (r: bool)
        ensures
            r == bit_of(*bucket as nat, bit as nat),
    {
        proof {
            lemma_u16_test(*bucket, bit);
        }
        *bucket & (1 << bit) != 0
    }

    fn set(bucket: &mut u16, bit: usize)
        ensures
            *final(bucket) as nat == with_bit(*old(bucket) as nat, bit as nat),
    {
        proof {
            lemma_u16_raise(*bucket, bit);
        }
        *bucket |= 1 << bit;
    }

    fn empty() -> (r: u16)
        ensures
            r == 0,
    {
        0
    }
}

/// A field of 12 bits, held in a `u16`.
pub struct B12;

impl Specifier for B12 {
    type Bucket = u16;

    const BITS: usize = 12;

    open spec fn value(bucket: u16) -> nat {
        bucket as nat
    }

    open spec fn accepts(bit: usize) -> bool {
        bit < 16
    }

    proof fn lemma_bits()
        ensures
            Self::BITS == 12,
    {
    }

    proof fn lemma_value_injective(a: u16, b: u16) {
    }

    fn is_set(bucket: &u16, bit: usize) -> (r: bool)
        ensures
            r == bit_of(*bucket as nat, bit as nat),
    {
        proof {
            lemma_u16_test(*bucket, bit);
        }
        *bucket & (1 << bit) != 0
    }

    fn set(bucket: &mut u16, bit: usize)
        ensures
            *final(bucket) as nat == with_bit(*old(bucket) as nat, bit as nat),
    {
        proof {
            lemma_u16_raise(*bucket, bit);
        }
        *bucket |= 1 << bit;
    }

    fn empty() -> (r: u16)
        ensures
            r == 0,
    {
        0
    }
}

/// A field of 13 bits, held in a `u16`.
pub struct B13;

impl Specifier for B13 {
    type Bucket = u16;

    const BITS: usize = 13;

    open spec fn value(bucket: u16) -> nat {
        bucket as nat
    }

    open spec fn accepts(bit: usize) -> bool {
        bit < 16
    }

    proof fn lemma_bits()
        ensures
            Self::BITS == 13,
    {
    }

    proof fn lemma_value_injective(a: u16, b: u16) {
    }

    fn is_set(bucket: &u16, bit: usize) -> (r: bool)
        ensures
            r == bit_of(*bucket as nat, bit as nat),
    {
        proof {
            lemma_u16_test(*bucket, bit);
        }
        *bucket & (1 << bit) != 0
    }

    fn set(bucket: &mut u16, bit: usize)
        ensures
            *final(bucket) as nat == with_bit(*old(bucket) as nat, bit as nat),
    {
        proof {
            lemma_u16_raise(*bucket, bit);
        }
        *bucket |= 1 << bit;
    }

    fn empty() -> (r: u16)
        ensures
            r == 0,
    {
        0
    }
}

/// A field of 14 bits, held in a `u16`.
pub struct B14;

impl Specifier for B14 {
    type Bucket = u16;

    const BITS: usize = 14;

    open spec fn value(bucket: u16) -> nat {
        bucket as nat
    }

    open spec fn accepts(bit: usize) -> bool {
        bit < 16
    }

    proof fn lemma_bits()
        ensures
            Self::BITS == 14,
    {
    }

    proof fn lemma_value_injective(a: u16, b: u16) {
    }

    fn is_set(bucket: &u16, bit: usize) -> (r: bool)
        ensures
            r == bit_of(*bucket as nat, bit as nat),
    {
        proof {
            lemma_u16_test(*bucket, bit);
        }
        *bucket & (1 << bit) != 0
    }

    fn set(bucket: &mut u16, bit: usize)
        ensures
            *final(bucket) as nat == with_bit(*old(bucket) as nat, bit as nat),
    {
        proof {
            lemma_u16_raise(*bucket, bit);
        }
        *bucket |= 1 << bit;
    }

    fn empty() -> (r: u16)
        ensures
            r == 0,
    {
        0
    }
}

/// A field of 15 bits, held in a `u16`.
pub struct B15;

impl Specifier for B15 {
    type Bucket = u16;

    const BITS: usize = 15;

    open spec fn value(bucket: u16) -> nat {
        bucket as nat
    }

    open spec fn accepts(bit: usize) -> bool {
        bit < 16
    }

    proof fn lemma_bits()
        ensures
            Self::BITS == 15,
    {
    }

    proof fn lemma_value_injective(a: u16, b: u16) {
    }

    fn is_set(bucket: &u16, bit: usize) -> (r: bool)
        ensures
            r == bit_of(*bucket as nat, bit as nat),
    {
        proof {
            lemma_u16_test(*bucket, bit);
        }
        *bucket & (1 << bit) != 0
    }

    fn set(bucket: &mut u16, bit: usize)
        ensures
            *final(bucket) as nat == with_bit(*old(bucket) as nat, bit as nat),
    {
        proof {
            lemma_u16_raise(*bucket, bit);
        }
        *bucket |= 1 << bit;
    }

    fn empty() -> (r: u16)
        ensures
            r == 0,
    {
        0
    }
}

/// A field of 16 bits, held in a `u16`.
pub struct B16;

impl Specifier for B16 {
    type Bucket = u16;

    const BITS: usize = 16;

    open spec fn value(bucket: u16) -> nat {
        bucket as nat
    }

    open spec fn accepts(bit: usize) -> bool {
        bit < 16
    }

    proof fn lemma_bits()
        ensures
            Self::BITS == 16,
    {
    }

    proof fn lemma_value_injective(a: u16, b: u16) {
    }

    fn is_set(bucket: &u16, bit: usize) -> (r: bool)
        ensures
            r == bit_of(*bucket as nat, bit as nat),
    {
        proof {
            lemma_u16_test(*bucket, bit);
        }
        *bucket & (1 << bit) != 0
    }

    fn set(bucket: &mut u16, bit: usize)
        ensures
            *final(bucket) as nat == with_bit(*old(bucket) as nat, bit as nat),
    {
        proof {
            lemma_u16_raise(*bucket, bit);
        }
        *bucket |= 1 << bit;
    }

    fn empty() -> (r: u16)
        ensures
            r == 0,
    {
        0
    }
}

} // verus!
