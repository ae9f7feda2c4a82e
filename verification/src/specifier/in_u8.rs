//! The specifiers of 1 to 8 bits. Their bucket is a `u8`, the narrowest unsigned integer
//! that holds that many bits.

use crate::bits::{bit_of, lemma_u8_raise, lemma_u8_test, with_bit};
use crate::specifier::Specifier;
use vstd::prelude::*;

verus! {

/// A field of 1 bit, held in a `u8`.
pub struct B1;

impl Specifier for B1 {
    type Bucket = u8;

    const BITS: usize = 1;

    open spec fn value(bucket: u8) -> nat {
        bucket as nat
    }

    open spec fn accepts(bit: usize) -> bool {
        bit < 8
    }

    proof fn lemma_bits()
        ensures
            Self::BITS == 1,
    {
    }

    proof fn lemma_value_injective(a: u8, b: u8) {
    }

    fn is_set(bucket: &u8, bit: usize) -> (r: bool)
        ensures
            r == bit_of(*bucket as nat, bit as nat),
    {
        proof {
            lemma_u8_test(*bucket, bit);
        }
        *bucket & (1 << bit) != 0
    }

    fn set(bucket: &mut u8, bit: usize)
        ensures
            *final(bucket) as nat == with_bit(*old(bucket) as nat, bit as nat),
    {
        proof {
            lemma_u8_raise(*bucket, bit);
        }
        *bucket |= 1 << bit;
    }

    fn empty() -> (r: u8)
        ensures
            r == 0,
    {
        0
    }
}

/// A field of 2 bits, held in a `u8`.
pub struct B2;

impl Specifier for B2 {
    type Bucket = u8;

    const BITS: usize = 2;

    open spec fn value(bucket: u8) -> nat {
        bucket as nat
    }

    open spec fn accepts(bit: usize) -> bool {
        bit < 8
    }

    proof fn lemma_bits()
        ensures
            Self::BITS == 2,
    {
    }

    proof fn lemma_value_injective(a: u8, b: u8) {
    }

    fn is_set(bucket: &u8, bit: usize) -> (r: bool)
        ensures
            r == bit_of(*bucket as nat, bit as nat),
    {
        proof {
            lemma_u8_test(*bucket, bit);
        }
        *bucket & (1 << bit) != 0
    }

    fn set(bucket: &mut u8, bit: usize)
        ensures
            *final(bucket) as nat == with_bit(*old(bucket) as nat, bit as nat),
    {
        proof {
            lemma_u8_raise(*bucket, bit);
        }
        *bucket |= 1 << bit;
    }

    fn empty() -> (r: u8)
        ensures
            r == 0,
    {
        0
    }
}

/// A field of 3 bits, held in a `u8`.
pub struct B3;

impl Specifier for B3 {
    type Bucket = u8;

    const BITS: usize = 3;

    open spec fn value(bucket: u8) -> nat {
        bucket as nat
    }

    open spec fn accepts(bit: usize) -> bool {
        bit < 8
    }

    proof fn lemma_bits()
        ensures
            Self::BITS == 3,
    {
    }

    proof fn lemma_value_injective(a: u8, b: u8) {
    }

    fn is_set(bucket: &u8, bit: usize) -> (r: bool)
        ensures
            r == bit_of(*bucket as nat, bit as nat),
    {
        proof {
            lemma_u8_test(*bucket, bit);
        }
        *bucket & (1 << bit) != 0
    }

    fn set(bucket: &mut u8, bit: usize)
        ensures
            *final(bucket) as nat == with_bit(*old(bucket) as nat, bit as nat),
    {
        proof {
            lemma_u8_raise(*bucket, bit);
        }
        *bucket |= 1 << bit;
    }

    fn empty() -> (r: u8)
        ensures
            r == 0,
    {
        0
    }
}

/// A field of 4 bits, held in a `u8`.
pub struct B4;

impl Specifier for B4 {
    type Bucket = u8;

    const BITS: usize = 4;

    open spec fn value(bucket: u8) -> nat {
        bucket as nat
    }

    open spec fn accepts(bit: usize) -> bool {
        bit < 8
    }

    proof fn lemma_bits()
        ensures
            Self::BITS == 4,
    {
    }

    proof fn lemma_value_injective(a: u8, b: u8) {
    }

    fn is_set(bucket: &u8, bit: usize) -> (r: bool)
        ensures
            r == bit_of(*bucket as nat, bit as nat),
    {
        proof {
            lemma_u8_test(*bucket, bit);
        }
        *bucket & (1 << bit) != 0
    }

    fn set(bucket: &mut u8, bit: usize)
        ensures
            *final(bucket) as nat == with_bit(*old(bucket) as nat, bit as nat),
    {
        proof {
            lemma_u8_raise(*bucket, bit);
        }
        *bucket |= 1 << bit;
    }

    fn empty() -> (r: u8)
        ensures
            r == 0,
    {
        0
    }
}

/// A field of 5 bits, held in a `u8`.
pub struct B5;

impl Specifier for B5 {
    type Bucket = u8;

    const BITS: usize = 5;

    open spec fn value(bucket: u8) -> nat {
        bucket as nat
    }

    open spec fn accepts(bit: usize) -> bool {
        bit < 8
    }

    proof fn lemma_bits()
        ensures
            Self::BITS == 5,
    {
    }

    proof fn lemma_value_injective(a: u8, b: u8) {
    }

    fn is_set(bucket: &u8, bit: usize) -> (r: bool)
        ensures
            r == bit_of(*bucket as nat, bit as nat),
    {
        proof {
            lemma_u8_test(*bucket, bit);
        }
        *bucket & (1 << bit) != 0
    }

    fn set(bucket: &mut u8, bit: usize)
        ensures
            *final(bucket) as nat == with_bit(*old(bucket) as nat, bit as nat),
    {
        proof {
            lemma_u8_raise(*bucket, bit);
        }
        *bucket |= 1 << bit;
    }

    fn empty() -> (r: u8)
        ensures
            r == 0,
    {
        0
    }
}

/// A field of 6 bits, held in a `u8`.
pub struct B6;

impl Specifier for B6 {
    type Bucket = u8;

    const BITS: usize = 6;

    open spec fn value(bucket: u8) -> nat {
        bucket as nat
    }

    open spec fn accepts(bit: usize) -> bool {
        bit < 8
    }

    proof fn lemma_bits()
        ensures
            Self::BITS == 6,
    {
    }

    proof fn lemma_value_injective(a: u8, b: u8) {
    }

    fn is_set(bucket: &u8, bit: usize) -> (r: bool)
        ensures
            r == bit_of(*bucket as nat, bit as nat),
    {
        proof {
            lemma_u8_test(*bucket, bit);
        }
        *bucket & (1 << bit) != 0
    }

    fn set(bucket: &mut u8, bit: usize)
        ensures
            *final(bucket) as nat == with_bit(*old(bucket) as nat, bit as nat),
    {
        proof {
            lemma_u8_raise(*bucket, bit);
        }
        *bucket |= 1 << bit;
    }

    fn empty() -> (r: u8)
        ensures
            r == 0,
    {
        0
    }
}

/// A field of 7 bits, held in a `u8`.
pub struct B7;

impl Specifier for B7 {
    type Bucket = u8;

    const BITS: usize = 7;

    open spec fn value(bucket: u8) -> nat {
        bucket as nat
    }

    open spec fn accepts(bit: usize) -> bool {
        bit < 8
    }

    proof fn lemma_bits()
        ensures
            Self::BITS == 7,
    {
    }

    proof fn lemma_value_injective(a: u8, b: u8) {
    }

    fn is_set(bucket: &u8, bit: usize) -> (r: bool)
        ensures
            r == bit_of(*bucket as nat, bit as nat),
    {
        proof {
            lemma_u8_test(*bucket, bit);
        }
        *bucket & (1 << bit) != 0
    }

    fn set(bucket: &mut u8, bit: usize)
        ensures
            *final(bucket) as nat == with_bit(*old(bucket) as nat, bit as nat),
    {
        proof {
            lemma_u8_raise(*bucket, bit);
        }
        *bucket |= 1 << bit;
    }

    fn empty() -> (r: u8)
        ensures
            r == 0,
    {
        0
    }
}

/// A field of 8 bits, held in a `u8`.
pub struct B8;

impl Specifier for B8 {
    type Bucket = u8;

    const BITS: usize = 8;

    open spec fn value(bucket: u8) -> nat {
        bucket as nat
    }

    open spec fn accepts(bit: usize) -> bool {
        bit < 8
    }

    proof fn lemma_bits()
        ensures
            Self::BITS == 8,
    {
    }

    proof fn lemma_value_injective(a: u8, b: u8) {
    }

    fn is_set(bucket: &u8, bit: usize) -> (r: bool)
        ensures
            r == bit_of(*bucket as nat, bit as nat),
    {
        proof {
            lemma_u8_test(*bucket, bit);
        }
        *bucket & (1 << bit) != 0
    }

    fn set(bucket: &mut u8, bit: usize)
        ensures
            *final(bucket) as nat == with_bit(*old(bucket) as nat, bit as nat),
    {
        proof {
            lemma_u8_raise(*bucket, bit);
        }
        *bucket |= 1 << bit;
    }

    fn empty() -> (r: u8)
        ensures
            r == 0,
    {
        0
    }
}

} // verus!
