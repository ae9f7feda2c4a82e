//! The specifiers of 17 to 32 bits. Their bucket is a `u32`, the narrowest unsigned integer
//! that holds that many bits.

use crate::bits::{bit_of, lemma_u32_raise, lemma_u32_test, with_bit};
use crate::specifier::Specifier;
use vstd::prelude::*;

verus! {

/// A field of 17 bits, held in a `u32`.
pub struct B17;

impl Specifier for B17 {
    type Bucket = u32;

    const BITS: usize = 17;

    open spec fn value(bucket: u32) -> nat {
        bucket as nat
    }

    open spec fn accepts(bit: usize) -> bool {
        bit < 32
    }

    proof fn lemma_bits()
        ensures
            Self::BITS == 17,
    {
    }

    proof fn lemma_value_injective(a: u32, b: u32) {
    }

    fn is_set(bucket: &u32, bit: usize) -> (r: bool)
        ensures
            r == bit_of(*bucket as nat, bit as nat),
    {
        proof {
            lemma_u32_test(*bucket, bit);
        }
        *bucket & (1 << bit) != 0
    }

    fn set(bucket: &mut u32, bit: usize)
        ensures
            *final(bucket) as nat == with_bit(*old(bucket) as nat, bit as nat),
    {
        proof {
            lemma_u32_raise(*bucket, bit);
        }
        *bucket |= 1 << bit;
    }

    fn empty() -> (r: u32)
        ensures
            r == 0,
    {
        0
    }
}

/// A field of 18 bits, held in a `u32`.
pub struct B18;

impl Specifier for B18 {
    type Bucket = u32;

    const BITS: usize = 18;

    open spec fn value(bucket: u32) -> nat {
        bucket as nat
    }

    open spec fn accepts(bit: usize) -> bool {
        bit < 32
    }

    proof fn lemma_bits()
        ensures
            Self::BITS == 18,
    {
    }

    proof fn lemma_value_injective(a: u32, b: u32) {
    }

    fn is_set(bucket: &u32, bit: usize) -> (r: bool)
        ensures
            r == bit_of(*bucket as nat, bit as nat),
    {
        proof {
            lemma_u32_test(*bucket, bit);
        }
        *bucket & (1 << bit) != 0
    }

    fn set(bucket: &mut u32, bit: usize)
        ensures
            *final(bucket) as nat == with_bit(*old(bucket) as nat, bit as nat),
    {
        proof {
            lemma_u32_raise(*bucket, bit);
        }
        *bucket |= 1 << bit;
    }

    fn empty() -> (r: u32)
        ensures
            r == 0,
    {
        0
    }
}

/// A field of 19 bits, held in a `u32`.
pub struct B19;

impl Specifier for B19 {
    type Bucket = u32;

    const BITS: usize = 19;

    open spec fn value(bucket: u32) -> nat {
        bucket as nat
    }

    open spec fn accepts(bit: usize) -> bool {
        bit < 32
    }

    proof fn lemma_bits()
        ensures
            Self::BITS == 19,
    {
    }

    proof fn lemma_value_injective(a: u32, b: u32) {
    }

    fn is_set(bucket: &u32, bit: usize) -> (r: bool)
        ensures
            r == bit_of(*bucket as nat, bit as nat),
    {
        proof {
            lemma_u32_test(*bucket, bit);
        }
        *bucket & (1 << bit) != 0
    }

    fn set(bucket: &mut u32, bit: usize)
        ensures
            *final(bucket) as nat == with_bit(*old(bucket) as nat, bit as nat),
    {
        proof {
            lemma_u32_raise(*bucket, bit);
        }
        *bucket |= 1 << bit;
    }

    fn empty() -> (r: u32)
        ensures
            r == 0,
    {
        0
    }
}

/// A field of 20 bits, held in a `u32`.
pub struct B20;

impl Specifier for B20 {
    type Bucket = u32;

    const BITS: usize = 20;

    open spec fn value(bucket: u32) -> nat {
        bucket as nat
    }

    open spec fn accepts(bit: usize) -> bool {
        bit < 32
    }

    proof fn lemma_bits()
        ensures
            Self::BITS == 20,
    {
    }

    proof fn lemma_value_injective(a: u32, b: u32) {
    }

    fn is_set(bucket: &u32, bit: usize) -> (r: bool)
        ensures
            r == bit_of(*bucket as nat, bit as nat),
    {
        proof {
            lemma_u32_test(*bucket, bit);
        }
        *bucket & (1 << bit) != 0
    }

    fn set(bucket: &mut u32, bit: usize)
        ensures
            *final(bucket) as nat == with_bit(*old(bucket) as nat, bit as nat),
    {
        proof {
            lemma_u32_raise(*bucket, bit);
        }
        *bucket |= 1 << bit;
    }

    fn empty() -> (r: u32)
        ensures
            r == 0,
    {
        0
    }
}

/// A field of 21 bits, held in a `u32`.
pub struct B21;

impl Specifier for B21 {
    type Bucket = u32;

    const BITS: usize = 21;

    open spec fn value(bucket: u32) -> nat {
        bucket as nat
    }

    open spec fn accepts(bit: usize) -> bool {
        bit < 32
    }

    proof fn lemma_bits()
        ensures
            Self::BITS == 21,
    {
    }

    proof fn lemma_value_injective(a: u32, b: u32) {
    }

    fn is_set(bucket: &u32, bit: usize) -> (r: bool)
        ensures
            r == bit_of(*bucket as nat, bit as nat),
    {
        proof {
            lemma_u32_test(*bucket, bit);
        }
        *bucket & (1 << bit) != 0
    }

    fn set(bucket: &mut u32, bit: usize)
        ensures
            *final(bucket) as nat == with_bit(*old(bucket) as nat, bit as nat),
    {
        proof {
            lemma_u32_raise(*bucket, bit);
        }
        *bucket |= 1 << bit;
    }

    fn empty() -> (r: u32)
        ensures
            r == 0,
    {
        0
    }
}

/// A field of 22 bits, held in a `u32`.
pub struct B22;

impl Specifier for B22 {
    type Bucket = u32;

    const BITS: usize = 22;

    open spec fn value(bucket: u32) -> nat {
        bucket as nat
    }

    open spec fn accepts(bit: usize) -> bool {
        bit < 32
    }

    proof fn lemma_bits()
        ensures
            Self::BITS == 22,
    {
    }

    proof fn lemma_value_injective(a: u32, b: u32) {
    }

    fn is_set(bucket: &u32, bit: usize) -> (r: bool)
        ensures
            r == bit_of(*bucket as nat, bit as nat),
    {
        proof {
            lemma_u32_test(*bucket, bit);
        }
        *bucket & (1 << bit) != 0
    }

    fn set(bucket: &mut u32, bit: usize)
        ensures
            *final(bucket) as nat == with_bit(*old(bucket) as nat, bit as nat),
    {
        proof {
            lemma_u32_raise(*bucket, bit);
        }
        *bucket |= 1 << bit;
    }

    fn empty() -> (r: u32)
        ensures
            r == 0,
    {
        0
    }
}

/// A field of 23 bits, held in a `u32`.
pub struct B23;

impl Specifier for B23 {
    type Bucket = u32;

    const BITS: usize = 23;

    open spec fn value(bucket: u32) -> nat {
        bucket as nat
    }

    open spec fn accepts(bit: usize) -> bool {
        bit < 32
    }

    proof fn lemma_bits()
        ensures
            Self::BITS == 23,
    {
    }

    proof fn lemma_value_injective(a: u32, b: u32) {
    }

    fn is_set(bucket: &u32, bit: usize) -> (r: bool)
        ensures
            r == bit_of(*bucket as nat, bit as nat),
    {
        proof {
            lemma_u32_test(*bucket, bit);
        }
        *bucket & (1 << bit) != 0
    }

    fn set(bucket: &mut u32, bit: usize)
        ensures
            *final(bucket) as nat == with_bit(*old(bucket) as nat, bit as nat),
    {
        proof {
            lemma_u32_raise(*bucket, bit);
        }
        *bucket |= 1 << bit;
    }

    fn empty() -> (r: u32)
        ensures
            r == 0,
    {
        0
    }
}

/// A field of 24 bits, held in a `u32`.
pub struct B24;

impl Specifier for B24 {
    type Bucket = u32;

    const BITS: usize = 24;

    open spec fn value(bucket: u32) -> nat {
        bucket as nat
    }

    open spec fn accepts(bit: usize) -> bool {
        bit < 32
    }

    proof fn lemma_bits()
        ensures
            Self::BITS == 24,
    {
    }

    proof fn lemma_value_injective(a: u32, b: u32) {
    }

    fn is_set(bucket: &u32, bit: usize) -> (r: bool)
        ensures
            r == bit_of(*bucket as nat, bit as nat),
    {
        proof {
            lemma_u32_test(*bucket, bit);
        }
        *bucket & (1 << bit) != 0
    }

    fn set(bucket: &mut u32, bit: usize)
        ensures
            *final(bucket) as nat == with_bit(*old(bucket) as nat, bit as nat),
    {
        proof {
            lemma_u32_raise(*bucket, bit);
        }
        *bucket |= 1 << bit;
    }

    fn empty() -> (r: u32)
        ensures
            r == 0,
    {
        0
    }
}

/// A field of 25 bits, held in a `u32`.
pub struct B25;

impl Specifier for B25 {
    type Bucket = u32;

    const BITS: usize = 25;

    open spec fn value(bucket: u32) -> nat {
        bucket as nat
    }

    open spec fn accepts(bit: usize) -> bool {
        bit < 32
    }

    proof fn lemma_bits()
        ensures
            Self::BITS == 25,
    {
    }

    proof fn lemma_value_injective(a: u32, b: u32) {
    }

    fn is_set(bucket: &u32, bit: usize) -> (r: bool)
        ensures
            r == bit_of(*bucket as nat, bit as nat),
    {
        proof {
            lemma_u32_test(*bucket, bit);
        }
        *bucket & (1 << bit) != 0
    }

    fn set(bucket: &mut u32, bit: usize)
        ensures
            *final(bucket) as nat == with_bit(*old(bucket) as nat, bit as nat),
    {
        proof {
            lemma_u32_raise(*bucket, bit);
        }
        *bucket |= 1 << bit;
    }

    fn empty() -> (r: u32)
        ensures
            r == 0,
    {
        0
    }
}

/// A field of 26 bits, held in a `u32`.
pub struct B26;

impl Specifier for B26 {
    type Bucket = u32;

    const BITS: usize = 26;

    open spec fn value(bucket: u32) -> nat {
        bucket as nat
    }

    open spec fn accepts(bit: usize) -> bool {
        bit < 32
    }

    proof fn lemma_bits()
        ensures
            Self::BITS == 26,
    {
    }

    proof fn lemma_value_injective(a: u32, b: u32) {
    }

    fn is_set(bucket: &u32, bit: usize) -> (r: bool)
        ensures
            r == bit_of(*bucket as nat, bit as nat),
    {
        proof {
            lemma_u32_test(*bucket, bit);
        }
        *bucket & (1 << bit) != 0
    }

    fn set(bucket: &mut u32, bit: usize)
        ensures
            *final(bucket) as nat == with_bit(*old(bucket) as nat, bit as nat),
    {
        proof {
            lemma_u32_raise(*bucket, bit);
        }
        *bucket |= 1 << bit;
    }

    fn empty() -> (r: u32)
        ensures
            r == 0,
    {
        0
    }
}

/// A field of 27 bits, held in a `u32`.
pub struct B27;

impl Specifier for B27 {
    type Bucket = u32;

    const BITS: usize = 27;

    open spec fn value(bucket: u32) -> nat {
        bucket as nat
    }

    open spec fn accepts(bit: usize) -> bool {
        bit < 32
    }

    proof fn lemma_bits()
        ensures
            Self::BITS == 27,
    {
    }

    proof fn lemma_value_injective(a: u32, b: u32) {
    }

    fn is_set(bucket: &u32, bit: usize) -> (r: bool)
        ensures
            r == bit_of(*bucket as nat, bit as nat),
    {
        proof {
            lemma_u32_test(*bucket, bit);
        }
        *bucket & (1 << bit) != 0
    }

    fn set(bucket: &mut u32, bit: usize)
        ensures
            *final(bucket) as nat == with_bit(*old(bucket) as nat, bit as nat),
    {
        proof {
            lemma_u32_raise(*bucket, bit);
        }
        *bucket |= 1 << bit;
    }

    fn empty() -> (r: u32)
        ensures
            r == 0,
    {
        0
    }
}

/// A field of 28 bits, held in a `u32`.
pub struct B28;

impl Specifier for B28 {
    type Bucket = u32;

    const BITS: usize = 28;

    open spec fn value(bucket: u32) -> nat {
        bucket as nat
    }

    open spec fn accepts(bit: usize) -> bool {
        bit < 32
    }

    proof fn lemma_bits()
        ensures
            Self::BITS == 28,
    {
    }

    proof fn lemma_value_injective(a: u32, b: u32) {
    }

    fn is_set(bucket: &u32, bit: usize) -> (r: bool)
        ensures
            r == bit_of(*bucket as nat, bit as nat),
    {
        proof {
            lemma_u32_test(*bucket, bit);
        }
        *bucket & (1 << bit) != 0
    }

    fn set(bucket: &mut u32, bit: usize)
        ensures
            *final(bucket) as nat == with_bit(*old(bucket) as nat, bit as nat),
    {
        proof {
            lemma_u32_raise(*bucket, bit);
        }
        *bucket |= 1 << bit;
    }

    fn empty() -> (r: u32)
        ensures
            r == 0,
    {
        0
    }
}

/// A field of 29 bits, held in a `u32`.
pub struct B29;

impl Specifier for B29 {
    type Bucket = u32;

    const BITS: usize = 29;

    open spec fn value(bucket: u32) -> nat {
        bucket as nat
    }

    open spec fn accepts(bit: usize) -> bool {
        bit < 32
    }

    proof fn lemma_bits()
        ensures
            Self::BITS == 29,
    {
    }

    proof fn lemma_value_injective(a: u32, b: u32) {
    }

    fn is_set(bucket: &u32, bit: usize) -> (r: bool)
        ensures
            r == bit_of(*bucket as nat, bit as nat),
    {
        proof {
            lemma_u32_test(*bucket, bit);
        }
        *bucket & (1 << bit) != 0
    }

    fn set(bucket: &mut u32, bit: usize)
        ensures
            *final(bucket) as nat == with_bit(*old(bucket) as nat, bit as nat),
    {
        proof {
            lemma_u32_raise(*bucket, bit);
        }
        *bucket |= 1 << bit;
    }

    fn empty() -> (r: u32)
        ensures
            r == 0,
    {
        0
    }
}

/// A field of 30 bits, held in a `u32`.
pub struct B30;

impl Specifier for B30 {
    type Bucket = u32;

    const BITS: usize = 30;

    open spec fn value(bucket: u32) -> nat {
        bucket as nat
    }

    open spec fn accepts(bit: usize) -> bool {
        bit < 32
    }

    proof fn lemma_bits()
        ensures
            Self::BITS == 30,
    {
    }

    proof fn lemma_value_injective(a: u32, b: u32) {
    }

    fn is_set(bucket: &u32, bit: usize) -> (r: bool)
        ensures
            r == bit_of(*bucket as nat, bit as nat),
    {
        proof {
            lemma_u32_test(*bucket, bit);
        }
        *bucket & (1 << bit) != 0
    }

    fn set(bucket: &mut u32, bit: usize)
        ensures
            *final(bucket) as nat == with_bit(*old(bucket) as nat, bit as nat),
    {
        proof {
            lemma_u32_raise(*bucket, bit);
        }
        *bucket |= 1 << bit;
    }

    fn empty() -> (r: u32)
        ensures
            r == 0,
    {
        0
    }
}

/// A field of 31 bits, held in a `u32`.
pub struct B31;

impl Specifier for B31 {
    type Bucket = u32;

    const BITS: usize = 31;

    open spec fn value(bucket: u32) -> nat {
        bucket as nat
    }

    open spec fn accepts(bit: usize) -> bool {
        bit < 32
    }

    proof fn lemma_bits()
        ensures
            Self::BITS == 31,
    {
    }

    proof fn lemma_value_injective(a: u32, b: u32) {
    }

    fn is_set(bucket: &u32, bit: usize) -> (r: bool)
        ensures
            r == bit_of(*bucket as nat, bit as nat),
    {
        proof {
            lemma_u32_test(*bucket, bit);
        }
        *bucket & (1 << bit) != 0
    }

    fn set(bucket: &mut u32, bit: usize)
        ensures
            *final(bucket) as nat == with_bit(*old(bucket) as nat, bit as nat),
    {
        proof {
            lemma_u32_raise(*bucket, bit);
        }
        *bucket |= 1 << bit;
    }

    fn empty() -> (r: u32)
        ensures
            r == 0,
    {
        0
    }
}

/// A field of 32 bits, held in a `u32`.
pub struct B32;

impl Specifier for B32 {
    type Bucket = u32;

    const BITS: usize = 32;

    open spec fn value(bucket: u32) -> nat {
        bucket as nat
    }

    open spec fn accepts(bit: usize) -> bool {
        bit < 32
    }

    proof fn lemma_bits()
        ensures
            Self::BITS == 32,
    {
    }

    proof fn lemma_value_injective(a: u32, b: u32) {
    }

    fn is_set(bucket: &u32, bit: usize) -> (r: bool)
        ensures
            r == bit_of(*bucket as nat, bit as nat),
    {
        proof {
            lemma_u32_test(*bucket, bit);
        }
        *bucket & (1 << bit) != 0
    }

    fn set(bucket: &mut u32, bit: usize)
        ensures
            *final(bucket) as nat == with_bit(*old(bucket) as nat, bit as nat),
    {
        proof {
            lemma_u32_raise(*bucket, bit);
        }
        *bucket |= 1 << bit;
    }

    fn empty() -> (r: u32)
        ensures
            r == 0,
    {
        0
    }
}

} // verus!
