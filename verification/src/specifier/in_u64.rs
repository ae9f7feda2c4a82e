//! The specifiers of 33 to 64 bits. Their bucket is a `u64`, the narrowest unsigned integer
//! that holds that many bits.

use crate::bits::{bit_of, lemma_u64_raise, lemma_u64_test, with_bit};
use crate::specifier::Specifier;
use vstd::prelude::*;

verus! {

/// A field of 33 bits, held in a `u64`.
pub struct B33;

impl Specifier for B33 {
    type Bucket = u64;

    const BITS: usize = 33;

    open spec fn value(bucket: u64) -> nat {
        bucket as nat
    }

    open spec fn accepts(bit: usize) -> bool {
        bit < 64
    }

    proof fn lemma_bits()
        ensures
            Self::BITS == 33,
    {
    }

    proof fn lemma_value_injective(a: u64, b: u64) {
    }

    fn is_set(bucket: &u64, bit: usize) -> (r: bool)
        ensures
            r == bit_of(*bucket as nat, bit as nat),
    {
        proof {
            lemma_u64_test(*bucket, bit);
        }
        *bucket & (1 << bit) != 0
    }

    fn set(bucket: &mut u64, bit: usize)
        ensures
            *final(bucket) as nat == with_bit(*old(bucket) as nat, bit as nat),
    {
        proof {
            lemma_u64_raise(*bucket, bit);
        }
        *bucket |= 1 << bit;
    }

    fn empty() -> (r: u64)
        ensures
            r == 0,
    {
        0
    }
}

/// A field of 34 bits, held in a `u64`.
pub struct B34;

impl Specifier for B34 {
    type Bucket = u64;

    const BITS: usize = 34;

    open spec fn value(bucket: u64) -> nat {
        bucket as nat
    }

    open spec fn accepts(bit: usize) -> bool {
        bit < 64
    }

    proof fn lemma_bits()
        ensures
            Self::BITS == 34,
    {
    }

    proof fn lemma_value_injective(a: u64, b: u64) {
    }

    fn is_set(bucket: &u64, bit: usize) -> (r: bool)
        ensures
            r == bit_of(*bucket as nat, bit as nat),
    {
        proof {
            lemma_u64_test(*bucket, bit);
        }
        *bucket & (1 << bit) != 0
    }

    fn set(bucket: &mut u64, bit: usize)
        ensures
            *final(bucket) as nat == with_bit(*old(bucket) as nat, bit as nat),
    {
        proof {
            lemma_u64_raise(*bucket, bit);
        }
        *bucket |= 1 << bit;
    }

    fn empty() -> (r: u64)
        ensures
            r == 0,
    {
        0
    }
}

/// A field of 35 bits, held in a `u64`.
pub struct B35;

impl Specifier for B35 {
    type Bucket = u64;

    const BITS: usize = 35;

    open spec fn value(bucket: u64) -> nat {
        bucket as nat
    }

    open spec fn accepts(bit: usize) -> bool {
        bit < 64
    }

    proof fn lemma_bits()
        ensures
            Self::BITS == 35,
    {
    }

    proof fn lemma_value_injective(a: u64, b: u64) {
    }

    fn is_set(bucket: &u64, bit: usize) -> (r: bool)
        ensures
            r == bit_of(*bucket as nat, bit as nat),
    {
        proof {
            lemma_u64_test(*bucket, bit);
        }
        *bucket & (1 << bit) != 0
    }

    fn set(bucket: &mut u64, bit: usize)
        ensures
            *final(bucket) as nat == with_bit(*old(bucket) as nat, bit as nat),
    {
        proof {
            lemma_u64_raise(*bucket, bit);
        }
        *bucket |= 1 << bit;
    }

    fn empty() -> (r: u64)
        ensures
            r == 0,
    {
        0
    }
}

/// A field of 36 bits, held in a `u64`.
pub struct B36;

impl Specifier for B36 {
    type Bucket = u64;

    const BITS: usize = 36;

    open spec fn value(bucket: u64) -> nat {
        bucket as nat
    }

    open spec fn accepts(bit: usize) -> bool {
        bit < 64
    }

    proof fn lemma_bits()
        ensures
            Self::BITS == 36,
    {
    }

    proof fn lemma_value_injective(a: u64, b: u64) {
    }

    fn is_set(bucket: &u64, bit: usize) -> (r: bool)
        ensures
            r == bit_of(*bucket as nat, bit as nat),
    {
        proof {
            lemma_u64_test(*bucket, bit);
        }
        *bucket & (1 << bit) != 0
    }

    fn set(bucket: &mut u64, bit: usize)
        ensures
            *final(bucket) as nat == with_bit(*old(bucket) as nat, bit as nat),
    {
        proof {
            lemma_u64_raise(*bucket, bit);
        }
        *bucket |= 1 << bit;
    }

    fn empty() -> (r: u64)
        ensures
            r == 0,
    {
        0
    }
}

/// A field of 37 bits, held in a `u64`.
pub struct B37;

impl Specifier for B37 {
    type Bucket = u64;

    const BITS: usize = 37;

    open spec fn value(bucket: u64) -> nat {
        bucket as nat
    }

    open spec fn accepts(bit: usize) -> bool {
        bit < 64
    }

    proof fn lemma_bits()
        ensures
            Self::BITS == 37,
    {
    }

    proof fn lemma_value_injective(a: u64, b: u64) {
    }

    fn is_set(bucket: &u64, bit: usize) -> (r: bool)
        ensures
            r == bit_of(*bucket as nat, bit as nat),
    {
        proof {
            lemma_u64_test(*bucket, bit);
        }
        *bucket & (1 << bit) != 0
    }

    fn set(bucket: &mut u64, bit: usize)
        ensures
            *final(bucket) as nat == with_bit(*old(bucket) as nat, bit as nat),
    {
        proof {
            lemma_u64_raise(*bucket, bit);
        }
        *bucket |= 1 << bit;
    }

    fn empty() -> (r: u64)
        ensures
            r == 0,
    {
        0
    }
}

/// A field of 38 bits, held in a `u64`.
pub struct B38;

impl Specifier for B38 {
    type Bucket = u64;

    const BITS: usize = 38;

    open spec fn value(bucket: u64) -> nat {
        bucket as nat
    }

    open spec fn accepts(bit: usize) -> bool {
        bit < 64
    }

    proof fn lemma_bits()
        ensures
            Self::BITS == 38,
    {
    }

    proof fn lemma_value_injective(a: u64, b: u64) {
    }

    fn is_set(bucket: &u64, bit: usize) -> (r: bool)
        ensures
            r == bit_of(*bucket as nat, bit as nat),
    {
        proof {
            lemma_u64_test(*bucket, bit);
        }
        *bucket & (1 << bit) != 0
    }

    fn set(bucket: &mut u64, bit: usize)
        ensures
            *final(bucket) as nat == with_bit(*old(bucket) as nat, bit as nat),
    {
        proof {
            lemma_u64_raise(*bucket, bit);
        }
        *bucket |= 1 << bit;
    }

    fn empty() -> (r: u64)
        ensures
            r == 0,
    {
        0
    }
}

/// A field of 39 bits, held in a `u64`.
pub struct B39;

impl Specifier for B39 {
    type Bucket = u64;

    const BITS: usize = 39;

    open spec fn value(bucket: u64) -> nat {
        bucket as nat
    }

    open spec fn accepts(bit: usize) -> bool {
        bit < 64
    }

    proof fn lemma_bits()
        ensures
            Self::BITS == 39,
    {
    }

    proof fn lemma_value_injective(a: u64, b: u64) {
    }

    fn is_set(bucket: &u64, bit: usize) -> (r: bool)
        ensures
            r == bit_of(*bucket as nat, bit as nat),
    {
        proof {
            lemma_u64_test(*bucket, bit);
        }
        *bucket & (1 << bit) != 0
    }

    fn set(bucket: &mut u64, bit: usize)
        ensures
            *final(bucket) as nat == with_bit(*old(bucket) as nat, bit as nat),
    {
        proof {
            lemma_u64_raise(*bucket, bit);
        }
        *bucket |= 1 << bit;
    }

    fn empty() -> (r: u64)
        ensures
            r == 0,
    {
        0
    }
}

/// A field of 40 bits, held in a `u64`.
pub struct B40;

impl Specifier for B40 {
    type Bucket = u64;

    const BITS: usize = 40;

    open spec fn value(bucket: u64) -> nat {
        bucket as nat
    }

    open spec fn accepts(bit: usize) -> bool {
        bit < 64
    }

    proof fn lemma_bits()
        ensures
            Self::BITS == 40,
    {
    }

    proof fn lemma_value_injective(a: u64, b: u64) {
    }

    fn is_set(bucket: &u64, bit: usize) -> (r: bool)
        ensures
            r == bit_of(*bucket as nat, bit as nat),
    {
        proof {
            lemma_u64_test(*bucket, bit);
        }
        *bucket & (1 << bit) != 0
    }

    fn set(bucket: &mut u64, bit: usize)
        ensures
            *final(bucket) as nat == with_bit(*old(bucket) as nat, bit as nat),
    {
        proof {
            lemma_u64_raise(*bucket, bit);
        }
        *bucket |= 1 << bit;
    }

    fn empty() -> (r: u64)
        ensures
            r == 0,
    {
        0
    }
}

/// A field of 41 bits, held in a `u64`.
pub struct B41;

impl Specifier for B41 {
    type Bucket = u64;

    const BITS: usize = 41;

    open spec fn value(bucket: u64) -> nat {
        bucket as nat
    }

    open spec fn accepts(bit: usize) -> bool {
        bit < 64
    }

    proof fn lemma_bits()
        ensures
            Self::BITS == 41,
    {
    }

    proof fn lemma_value_injective(a: u64, b: u64) {
    }

    fn is_set(bucket: &u64, bit: usize) -> (r: bool)
        ensures
            r == bit_of(*bucket as nat, bit as nat),
    {
        proof {
            lemma_u64_test(*bucket, bit);
        }
        *bucket & (1 << bit) != 0
    }

    fn set(bucket: &mut u64, bit: usize)
        ensures
            *final(bucket) as nat == with_bit(*old(bucket) as nat, bit as nat),
    {
        proof {
            lemma_u64_raise(*bucket, bit);
        }
        *bucket |= 1 << bit;
    }

    fn empty() -> (r: u64)
        ensures
            r == 0,
    {
        0
    }
}

/// A field of 42 bits, held in a `u64`.
pub struct B42;

impl Specifier for B42 {
    type Bucket = u64;

    const BITS: usize = 42;

    open spec fn value(bucket: u64) -> nat {
        bucket as nat
    }

    open spec fn accepts(bit: usize) -> bool {
        bit < 64
    }

    proof fn lemma_bits()
        ensures
            Self::BITS == 42,
    {
    }

    proof fn lemma_value_injective(a: u64, b: u64) {
    }

    fn is_set(bucket: &u64, bit: usize) -> (r: bool)
        ensures
            r == bit_of(*bucket as nat, bit as nat),
    {
        proof {
            lemma_u64_test(*bucket, bit);
        }
        *bucket & (1 << bit) != 0
    }

    fn set(bucket: &mut u64, bit: usize)
        ensures
            *final(bucket) as nat == with_bit(*old(bucket) as nat, bit as nat),
    {
        proof {
            lemma_u64_raise(*bucket, bit);
        }
        *bucket |= 1 << bit;
    }

    fn empty() -> (r: u64)
        ensures
            r == 0,
    {
        0
    }
}

/// A field of 43 bits, held in a `u64`.
pub struct B43;

impl Specifier for B43 {
    type Bucket = u64;

    const BITS: usize = 43;

    open spec fn value(bucket: u64) -> nat {
        bucket as nat
    }

    open spec fn accepts(bit: usize) -> bool {
        bit < 64
    }

    proof fn lemma_bits()
        ensures
            Self::BITS == 43,
    {
    }

    proof fn lemma_value_injective(a: u64, b: u64) {
    }

    fn is_set(bucket: &u64, bit: usize) -> (r: bool)
        ensures
            r == bit_of(*bucket as nat, bit as nat),
    {
        proof {
            lemma_u64_test(*bucket, bit);
        }
        *bucket & (1 << bit) != 0
    }

    fn set(bucket: &mut u64, bit: usize)
        ensures
            *final(bucket) as nat == with_bit(*old(bucket) as nat, bit as nat),
    {
        proof {
            lemma_u64_raise(*bucket, bit);
        }
        *bucket |= 1 << bit;
    }

    fn empty() -> (r: u64)
        ensures
            r == 0,
    {
        0
    }
}

/// A field of 44 bits, held in a `u64`.
pub struct B44;

impl Specifier for B44 {
    type Bucket = u64;

    const BITS: usize = 44;

    open spec fn value(bucket: u64) -> nat {
        bucket as nat
    }

    open spec fn accepts(bit: usize) -> bool {
        bit < 64
    }

    proof fn lemma_bits()
        ensures
            Self::BITS == 44,
    {
    }

    proof fn lemma_value_injective(a: u64, b: u64) {
    }

    fn is_set(bucket: &u64, bit: usize) -> (r: bool)
        ensures
            r == bit_of(*bucket as nat, bit as nat),
    {
        proof {
            lemma_u64_test(*bucket, bit);
        }
        *bucket & (1 << bit) != 0
    }

    fn set(bucket: &mut u64, bit: usize)
        ensures
            *final(bucket) as nat == with_bit(*old(bucket) as nat, bit as nat),
    {
        proof {
            lemma_u64_raise(*bucket, bit);
        }
        *bucket |= 1 << bit;
    }

    fn empty() -> (r: u64)
        ensures
            r == 0,
    {
        0
    }
}

/// A field of 45 bits, held in a `u64`.
pub struct B45;

impl Specifier for B45 {
    type Bucket = u64;

    const BITS: usize = 45;

    open spec fn value(bucket: u64) -> nat {
        bucket as nat
    }

    open spec fn accepts(bit: usize) -> bool {
        bit < 64
    }

    proof fn lemma_bits()
        ensures
            Self::BITS == 45,
    {
    }

    proof fn lemma_value_injective(a: u64, b: u64) {
    }

    fn is_set(bucket: &u64, bit: usize) -> (r: bool)
        ensures
            r == bit_of(*bucket as nat, bit as nat),
    {
        proof {
            lemma_u64_test(*bucket, bit);
        }
        *bucket & (1 << bit) != 0
    }

    fn set(bucket: &mut u64, bit: usize)
        ensures
            *final(bucket) as nat == with_bit(*old(bucket) as nat, bit as nat),
    {
        proof {
            lemma_u64_raise(*bucket, bit);
        }
        *bucket |= 1 << bit;
    }

    fn empty() -> (r: u64)
        ensures
            r == 0,
    {
        0
    }
}

/// A field of 46 bits, held in a `u64`.
pub struct B46;

impl Specifier for B46 {
    type Bucket = u64;

    const BITS: usize = 46;

    open spec fn value(bucket: u64) -> nat {
        bucket as nat
    }

    open spec fn accepts(bit: usize) -> bool {
        bit < 64
    }

    proof fn lemma_bits()
        ensures
            Self::BITS == 46,
    {
    }

    proof fn lemma_value_injective(a: u64, b: u64) {
    }

    fn is_set(bucket: &u64, bit: usize) -> (r: bool)
        ensures
            r == bit_of(*bucket as nat, bit as nat),
    {
        proof {
            lemma_u64_test(*bucket, bit);
        }
        *bucket & (1 << bit) != 0
    }

    fn set(bucket: &mut u64, bit: usize)
        ensures
            *final(bucket) as nat == with_bit(*old(bucket) as nat, bit as nat),
    {
        proof {
            lemma_u64_raise(*bucket, bit);
        }
        *bucket |= 1 << bit;
    }

    fn empty() -> (r: u64)
        ensures
            r == 0,
    {
        0
    }
}

/// A field of 47 bits, held in a `u64`.
pub struct B47;

impl Specifier for B47 {
    type Bucket = u64;

    const BITS: usize = 47;

    open spec fn value(bucket: u64) -> nat {
        bucket as nat
    }

    open spec fn accepts(bit: usize) -> bool {
        bit < 64
    }

    proof fn lemma_bits()
        ensures
            Self::BITS == 47,
    {
    }

    proof fn lemma_value_injective(a: u64, b: u64) {
    }

    fn is_set(bucket: &u64, bit: usize) -> (r: bool)
        ensures
            r == bit_of(*bucket as nat, bit as nat),
    {
        proof {
            lemma_u64_test(*bucket, bit);
        }
        *bucket & (1 << bit) != 0
    }

    fn set(bucket: &mut u64, bit: usize)
        ensures
            *final(bucket) as nat == with_bit(*old(bucket) as nat, bit as nat),
    {
        proof {
            lemma_u64_raise(*bucket, bit);
        }
        *bucket |= 1 << bit;
    }

    fn empty() -> (r: u64)
        ensures
            r == 0,
    {
        0
    }
}

/// A field of 48 bits, held in a `u64`.
pub struct B48;

impl Specifier for B48 {
    type Bucket = u64;

    const BITS: usize = 48;

    open spec fn value(bucket: u64) -> nat {
        bucket as nat
    }

    open spec fn accepts(bit: usize) -> bool {
        bit < 64
    }

    proof fn lemma_bits()
        ensures
            Self::BITS == 48,
    {
    }

    proof fn lemma_value_injective(a: u64, b: u64) {
    }

    fn is_set(bucket: &u64, bit: usize) -> (r: bool)
        ensures
            r == bit_of(*bucket as nat, bit as nat),
    {
        proof {
            lemma_u64_test(*bucket, bit);
        }
        *bucket & (1 << bit) != 0
    }

    fn set(bucket: &mut u64, bit: usize)
        ensures
            *final(bucket) as nat == with_bit(*old(bucket) as nat, bit as nat),
    {
        proof {
            lemma_u64_raise(*bucket, bit);
        }
        *bucket |= 1 << bit;
    }

    fn empty() -> (r: u64)
        ensures
            r == 0,
    {
        0
    }
}

/// A field of 49 bits, held in a `u64`.
pub struct B49;

impl Specifier for B49 {
    type Bucket = u64;

    const BITS: usize = 49;

    open spec fn value(bucket: u64) -> nat {
        bucket as nat
    }

    open spec fn accepts(bit: usize) -> bool {
        bit < 64
    }

    proof fn lemma_bits()
        ensures
            Self::BITS == 49,
    {
    }

    proof fn lemma_value_injective(a: u64, b: u64) {
    }

    fn is_set(bucket: &u64, bit: usize) -> (r: bool)
        ensures
            r == bit_of(*bucket as nat, bit as nat),
    {
        proof {
            lemma_u64_test(*bucket, bit);
        }
        *bucket & (1 << bit) != 0
    }

    fn set(bucket: &mut u64, bit: usize)
        ensures
            *final(bucket) as nat == with_bit(*old(bucket) as nat, bit as nat),
    {
        proof {
            lemma_u64_raise(*bucket, bit);
        }
        *bucket |= 1 << bit;
    }

    fn empty() -> (r: u64)
        ensures
            r == 0,
    {
        0
    }
}

/// A field of 50 bits, held in a `u64`.
pub struct B50;

impl Specifier for B50 {
    type Bucket = u64;

    const BITS: usize = 50;

    open spec fn value(bucket: u64) -> nat {
        bucket as nat
    }

    open spec fn accepts(bit: usize) -> bool {
        bit < 64
    }

    proof fn lemma_bits()
        ensures
            Self::BITS == 50,
    {
    }

    proof fn lemma_value_injective(a: u64, b: u64) {
    }

    fn is_set(bucket: &u64, bit: usize) -> (r: bool)
        ensures
            r == bit_of(*bucket as nat, bit as nat),
    {
        proof {
            lemma_u64_test(*bucket, bit);
        }
        *bucket & (1 << bit) != 0
    }

    fn set(bucket: &mut u64, bit: usize)
        ensures
            *final(bucket) as nat == with_bit(*old(bucket) as nat, bit as nat),
    {
        proof {
            lemma_u64_raise(*bucket, bit);
        }
        *bucket |= 1 << bit;
    }

    fn empty() -> (r: u64)
        ensures
            r == 0,
    {
        0
    }
}

/// A field of 51 bits, held in a `u64`.
pub struct B51;

impl Specifier for B51 {
    type Bucket = u64;

    const BITS: usize = 51;

    open spec fn value(bucket: u64) -> nat {
        bucket as nat
    }

    open spec fn accepts(bit: usize) -> bool {
        bit < 64
    }

    proof fn lemma_bits()
        ensures
            Self::BITS == 51,
    {
    }

    proof fn lemma_value_injective(a: u64, b: u64) {
    }

    fn is_set(bucket: &u64, bit: usize) -> (r: bool)
        ensures
            r == bit_of(*bucket as nat, bit as nat),
    {
        proof {
            lemma_u64_test(*bucket, bit);
        }
        *bucket & (1 << bit) != 0
    }

    fn set(bucket: &mut u64, bit: usize)
        ensures
            *final(bucket) as nat == with_bit(*old(bucket) as nat, bit as nat),
    {
        proof {
            lemma_u64_raise(*bucket, bit);
        }
        *bucket |= 1 << bit;
    }

    fn empty() -> (r: u64)
        ensures
            r == 0,
    {
        0
    }
}

/// A field of 52 bits, held in a `u64`.
pub struct B52;

impl Specifier for B52 {
    type Bucket = u64;

    const BITS: usize = 52;

    open spec fn value(bucket: u64) -> nat {
        bucket as nat
    }

    open spec fn accepts(bit: usize) -> bool {
        bit < 64
    }

    proof fn lemma_bits()
        ensures
            Self::BITS == 52,
    {
    }

    proof fn lemma_value_injective(a: u64, b: u64) {
    }

    fn is_set(bucket: &u64, bit: usize) -> (r: bool)
        ensures
            r == bit_of(*bucket as nat, bit as nat),
    {
        proof {
            lemma_u64_test(*bucket, bit);
        }
        *bucket & (1 << bit) != 0
    }

    fn set(bucket: &mut u64, bit: usize)
        ensures
            *final(bucket) as nat == with_bit(*old(bucket) as nat, bit as nat),
    {
        proof {
            lemma_u64_raise(*bucket, bit);
        }
        *bucket |= 1 << bit;
    }

    fn empty() -> (r: u64)
        ensures
            r == 0,
    {
        0
    }
}

/// A field of 53 bits, held in a `u64`.
pub struct B53;

impl Specifier for B53 {
    type Bucket = u64;

    const BITS: usize = 53;

    open spec fn value(bucket: u64) -> nat {
        bucket as nat
    }

    open spec fn accepts(bit: usize) -> bool {
        bit < 64
    }

    proof fn lemma_bits()
        ensures
            Self::BITS == 53,
    {
    }

    proof fn lemma_value_injective(a: u64, b: u64) {
    }

    fn is_set(bucket: &u64, bit: usize) -> (r: bool)
        ensures
            r == bit_of(*bucket as nat, bit as nat),
    {
        proof {
            lemma_u64_test(*bucket, bit);
        }
        *bucket & (1 << bit) != 0
    }

    fn set(bucket: &mut u64, bit: usize)
        ensures
            *final(bucket) as nat == with_bit(*old(bucket) as nat, bit as nat),
    {
        proof {
            lemma_u64_raise(*bucket, bit);
        }
        *bucket |= 1 << bit;
    }

    fn empty() -> (r: u64)
        ensures
            r == 0,
    {
        0
    }
}

/// A field of 54 bits, held in a `u64`.
pub struct B54;

impl Specifier for B54 {
    type Bucket = u64;

    const BITS: usize = 54;

    open spec fn value(bucket: u64) -> nat {
        bucket as nat
    }

    open spec fn accepts(bit: usize) -> bool {
        bit < 64
    }

    proof fn lemma_bits()
        ensures
            Self::BITS == 54,
    {
    }

    proof fn lemma_value_injective(a: u64, b: u64) {
    }

    fn is_set(bucket: &u64, bit: usize) -> (r: bool)
        ensures
            r == bit_of(*bucket as nat, bit as nat),
    {
        proof {
            lemma_u64_test(*bucket, bit);
        }
        *bucket & (1 << bit) != 0
    }

    fn set(bucket: &mut u64, bit: usize)
        ensures
            *final(bucket) as nat == with_bit(*old(bucket) as nat, bit as nat),
    {
        proof {
            lemma_u64_raise(*bucket, bit);
        }
        *bucket |= 1 << bit;
    }

    fn empty() -> (r: u64)
        ensures
            r == 0,
    {
        0
    }
}

/// A field of 55 bits, held in a `u64`.
pub struct B55;

impl Specifier for B55 {
    type Bucket = u64;

    const BITS: usize = 55;

    open spec fn value(bucket: u64) -> nat {
        bucket as nat
    }

    open spec fn accepts(bit: usize) -> bool {
        bit < 64
    }

    proof fn lemma_bits()
        ensures
            Self::BITS == 55,
    {
    }

    proof fn lemma_value_injective(a: u64, b: u64) {
    }

    fn is_set(bucket: &u64, bit: usize) -> (r: bool)
        ensures
            r == bit_of(*bucket as nat, bit as nat),
    {
        proof {
            lemma_u64_test(*bucket, bit);
        }
        *bucket & (1 << bit) != 0
    }

    fn set(bucket: &mut u64, bit: usize)
        ensures
            *final(bucket) as nat == with_bit(*old(bucket) as nat, bit as nat),
    {
        proof {
            lemma_u64_raise(*bucket, bit);
        }
        *bucket |= 1 << bit;
    }

    fn empty() -> (r: u64)
        ensures
            r == 0,
    {
        0
    }
}

/// A field of 56 bits, held in a `u64`.
pub struct B56;

impl Specifier for B56 {
    type Bucket = u64;

    const BITS: usize = 56;

    open spec fn value(bucket: u64) -> nat {
        bucket as nat
    }

    open spec fn accepts(bit: usize) -> bool {
        bit < 64
    }

    proof fn lemma_bits()
        ensures
            Self::BITS == 56,
    {
    }

    proof fn lemma_value_injective(a: u64, b: u64) {
    }

    fn is_set(bucket: &u64, bit: usize) -> (r: bool)
        ensures
            r == bit_of(*bucket as nat, bit as nat),
    {
        proof {
            lemma_u64_test(*bucket, bit);
        }
        *bucket & (1 << bit) != 0
    }

    fn set(bucket: &mut u64, bit: usize)
        ensures
            *final(bucket) as nat == with_bit(*old(bucket) as nat, bit as nat),
    {
        proof {
            lemma_u64_raise(*bucket, bit);
        }
        *bucket |= 1 << bit;
    }

    fn empty() -> (r: u64)
        ensures
            r == 0,
    {
        0
    }
}

/// A field of 57 bits, held in a `u64`.
pub struct B57;

impl Specifier for B57 {
    type Bucket = u64;

    const BITS: usize = 57;

    open spec fn value(bucket: u64) -> nat {
        bucket as nat
    }

    open spec fn accepts(bit: usize) -> bool {
        bit < 64
    }

    proof fn lemma_bits()
        ensures
            Self::BITS == 57,
    {
    }

    proof fn lemma_value_injective(a: u64, b: u64) {
    }

    fn is_set(bucket: &u64, bit: usize) -> (r: bool)
        ensures
            r == bit_of(*bucket as nat, bit as nat),
    {
        proof {
            lemma_u64_test(*bucket, bit);
        }
        *bucket & (1 << bit) != 0
    }

    fn set(bucket: &mut u64, bit: usize)
        ensures
            *final(bucket) as nat == with_bit(*old(bucket) as nat, bit as nat),
    {
        proof {
            lemma_u64_raise(*bucket, bit);
        }
        *bucket |= 1 << bit;
    }

    fn empty() -> (r: u64)
        ensures
            r == 0,
    {
        0
    }
}

/// A field of 58 bits, held in a `u64`.
pub struct B58;

impl Specifier for B58 {
    type Bucket = u64;

    const BITS: usize = 58;

    open spec fn value(bucket: u64) -> nat {
        bucket as nat
    }

    open spec fn accepts(bit: usize) -> bool {
        bit < 64
    }

    proof fn lemma_bits()
        ensures
            Self::BITS == 58,
    {
    }

    proof fn lemma_value_injective(a: u64, b: u64) {
    }

    fn is_set(bucket: &u64, bit: usize) -> (r: bool)
        ensures
            r == bit_of(*bucket as nat, bit as nat),
    {
        proof {
            lemma_u64_test(*bucket, bit);
        }
        *bucket & (1 << bit) != 0
    }

    fn set(bucket: &mut u64, bit: usize)
        ensures
            *final(bucket) as nat == with_bit(*old(bucket) as nat, bit as nat),
    {
        proof {
            lemma_u64_raise(*bucket, bit);
        }
        *bucket |= 1 << bit;
    }

    fn empty() -> (r: u64)
        ensures
            r == 0,
    {
        0
    }
}

/// A field of 59 bits, held in a `u64`.
pub struct B59;

impl Specifier for B59 {
    type Bucket = u64;

    const BITS: usize = 59;

    open spec fn value(bucket: u64) -> nat {
        bucket as nat
    }

    open spec fn accepts(bit: usize) -> bool {
        bit < 64
    }

    proof fn lemma_bits()
        ensures
            Self::BITS == 59,
    {
    }

    proof fn lemma_value_injective(a: u64, b: u64) {
    }

    fn is_set(bucket: &u64, bit: usize) -> (r: bool)
        ensures
            r == bit_of(*bucket as nat, bit as nat),
    {
        proof {
            lemma_u64_test(*bucket, bit);
        }
        *bucket & (1 << bit) != 0
    }

    fn set(bucket: &mut u64, bit: usize)
        ensures
            *final(bucket) as nat == with_bit(*old(bucket) as nat, bit as nat),
    {
        proof {
            lemma_u64_raise(*bucket, bit);
        }
        *bucket |= 1 << bit;
    }

    fn empty() -> (r: u64)
        ensures
            r == 0,
    {
        0
    }
}

/// A field of 60 bits, held in a `u64`.
pub struct B60;

impl Specifier for B60 {
    type Bucket = u64;

    const BITS: usize = 60;

    open spec fn value(bucket: u64) -> nat {
        bucket as nat
    }

    open spec fn accepts(bit: usize) -> bool {
        bit < 64
    }

    proof fn lemma_bits()
        ensures
            Self::BITS == 60,
    {
    }

    proof fn lemma_value_injective(a: u64, b: u64) {
    }

    fn is_set(bucket: &u64, bit: usize) -> (r: bool)
        ensures
            r == bit_of(*bucket as nat, bit as nat),
    {
        proof {
            lemma_u64_test(*bucket, bit);
        }
        *bucket & (1 << bit) != 0
    }

    fn set(bucket: &mut u64, bit: usize)
        ensures
            *final(bucket) as nat == with_bit(*old(bucket) as nat, bit as nat),
    {
        proof {
            lemma_u64_raise(*bucket, bit);
        }
        *bucket |= 1 << bit;
    }

    fn empty() -> (r: u64)
        ensures
            r == 0,
    {
        0
    }
}

/// A field of 61 bits, held in a `u64`.
pub struct B61;

impl Specifier for B61 {
    type Bucket = u64;

    const BITS: usize = 61;

    open spec fn value(bucket: u64) -> nat {
        bucket as nat
    }

    open spec fn accepts(bit: usize) -> bool {
        bit < 64
    }

    proof fn lemma_bits()
        ensures
            Self::BITS == 61,
    {
    }

    proof fn lemma_value_injective(a: u64, b: u64) {
    }

    fn is_set(bucket: &u64, bit: usize) -> (r: bool)
        ensures
            r == bit_of(*bucket as nat, bit as nat),
    {
        proof {
            lemma_u64_test(*bucket, bit);
        }
        *bucket & (1 << bit) != 0
    }

    fn set(bucket: &mut u64, bit: usize)
        ensures
            *final(bucket) as nat == with_bit(*old(bucket) as nat, bit as nat),
    {
        proof {
            lemma_u64_raise(*bucket, bit);
        }
        *bucket |= 1 << bit;
    }

    fn empty() -> (r: u64)
        ensures
            r == 0,
    {
        0
    }
}

/// A field of 62 bits, held in a `u64`.
pub struct B62;

impl Specifier for B62 {
    type Bucket = u64;

    const BITS: usize = 62;

    open spec fn value(bucket: u64) -> nat {
        bucket as nat
    }

    open spec fn accepts(bit: usize) -> bool {
        bit < 64
    }

    proof fn lemma_bits()
        ensures
            Self::BITS == 62,
    {
    }

    proof fn lemma_value_injective(a: u64, b: u64) {
    }

    fn is_set(bucket: &u64, bit: usize) -> (r: bool)
        ensures
            r == bit_of(*bucket as nat, bit as nat),
    {
        proof {
            lemma_u64_test(*bucket, bit);
        }
        *bucket & (1 << bit) != 0
    }

    fn set(bucket: &mut u64, bit: usize)
        ensures
            *final(bucket) as nat == with_bit(*old(bucket) as nat, bit as nat),
    {
        proof {
            lemma_u64_raise(*bucket, bit);
        }
        *bucket |= 1 << bit;
    }

    fn empty() -> (r: u64)
        ensures
            r == 0,
    {
        0
    }
}

/// A field of 63 bits, held in a `u64`.
pub struct B63;

impl Specifier for B63 {
    type Bucket = u64;

    const BITS: usize = 63;

    open spec fn value(bucket: u64) -> nat {
        bucket as nat
    }

    open spec fn accepts(bit: usize) -> bool {
        bit < 64
    }

    proof fn lemma_bits()
        ensures
            Self::BITS == 63,
    {
    }

    proof fn lemma_value_injective(a: u64, b: u64) {
    }

    fn is_set(bucket: &u64, bit: usize) -> (r: bool)
        ensures
            r == bit_of(*bucket as nat, bit as nat),
    {
        proof {
            lemma_u64_test(*bucket, bit);
        }
        *bucket & (1 << bit) != 0
    }

    fn set(bucket: &mut u64, bit: usize)
        ensures
            *final(bucket) as nat == with_bit(*old(bucket) as nat, bit as nat),
    {
        proof {
            lemma_u64_raise(*bucket, bit);
        }
        *bucket |= 1 << bit;
    }

    fn empty() -> (r: u64)
        ensures
            r == 0,
    {
        0
    }
}

/// A field of 64 bits, held in a `u64`.
pub struct B64;

impl Specifier for B64 {
    type Bucket = u64;

    const BITS: usize = 64;

    open spec fn value(bucket: u64) -> nat {
        bucket as nat
    }

    open spec fn accepts(bit: usize) -> bool {
        bit < 64
    }

    proof fn lemma_bits()
        ensures
            Self::BITS == 64,
    {
    }

    proof fn lemma_value_injective(a: u64, b: u64) {
    }

    fn is_set(bucket: &u64, bit: usize) -> (r: bool)
        ensures
            r == bit_of(*bucket as nat, bit as nat),
    {
        proof {
            lemma_u64_test(*bucket, bit);
        }
        *bucket & (1 << bit) != 0
    }

    fn set(bucket: &mut u64, bit: usize)
        ensures
            *final(bucket) as nat == with_bit(*old(bucket) as nat, bit as nat),
    {
        proof {
            lemma_u64_raise(*bucket, bit);
        }
        *bucket |= 1 << bit;
    }

    fn empty() -> (r: u64)
        ensures
            r == 0,
    {
        0
    }
}

} // verus!
