//! Specifiers: the types a field can have. A specifier fixes the width of a field in bits and
//! the bucket, the type that holds one value of the field.

pub mod in_u16;
pub mod in_u32;
pub mod in_u64;
pub mod in_u8;

use crate::bits::{bit_of, with_bit};
use vstd::arithmetic::power2::{lemma2_to64, pow2};
use vstd::prelude::*;

verus! {

/// The type of a field: its width in bits, the bucket that holds one of its values, and the
/// three operations on a bucket from which every accessor is built.
pub trait Specifier {
    /// Holds one value of the field.
    type Bucket;

    /// How many bits the field occupies in a record.
    const BITS: usize;

    /// The number that a bucket stands for.
    spec fn value(bucket: Self::Bucket) -> nat;

    /// The bit positions that `is_set` and `set` take beyond those of the field itself.
    spec fn accepts(bit: usize) -> bool;

    /// A field is between 1 and 64 bits wide.
    proof fn lemma_bits()
        ensures
            1 <= Self::BITS <= 64,
    ;

    /// Buckets that stand for the same number are the same bucket.
    proof fn lemma_value_injective(a: Self::Bucket, b: Self::Bucket)
        requires
            Self::value(a) == Self::value(b),
        ensures
            a == b,
    ;

    /// Whether bit `bit` of the bucket is 1, bit 0 being the least significant.
    fn is_set(bucket: &Self::Bucket, bit: usize) -> (r: bool)
        requires
            bit < Self::BITS || Self::accepts(bit),
        ensures
            bit < Self::BITS ==> r == bit_of(Self::value(*bucket), bit as nat),
    ;

    /// Sets bit `bit` of the bucket to 1. No bit is ever cleared.
    fn set(bucket: &mut Self::Bucket, bit: usize)
        requires
            bit < Self::BITS || Self::accepts(bit),
        ensures
            bit < Self::BITS ==> Self::value(*final(bucket)) == with_bit(
                Self::value(*old(bucket)),
                bit as nat,
            ),
    ;

    /// The bucket with no bit set.
    fn empty() -> (r: Self::Bucket)
        ensures
            Self::value(r) == 0,
    ;
}

/// Whether a bucket holds a value of the field, that is a number below `2^BITS`.
pub open spec fn fits<S: Specifier>(bucket: S::Bucket) -> bool {
    S::value(bucket) < pow2(S::BITS as nat)
}

/// A field of one bit, held in a `bool`. The bit position is ignored throughout.
impl Specifier for bool {
    type Bucket = bool;

    const BITS: usize = 1;

    open spec fn value(bucket: bool) -> nat {
        if bucket {
            1
        } else {
            0
        }
    }

    open spec fn accepts(bit: usize) -> bool {
        true
    }

    proof fn lemma_bits()
        ensures
            Self::BITS == 1,
    {
    }

    proof fn lemma_value_injective(a: bool, b: bool) {
    }

    fn is_set(bucket: &bool, _bit: usize) -> (r: bool)
        ensures
            r == *bucket,
    {
        *bucket
    }

    fn set(bucket: &mut bool, _bit: usize)
        ensures
            *final(bucket),
    {
        proof {
            lemma2_to64();
        }
        *bucket = true;
    }

    fn empty() -> (r: bool)
        ensures
            !r,
    {
        false
    }
}

} // verus!
