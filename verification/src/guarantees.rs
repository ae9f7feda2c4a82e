//! What the accessors guarantee when they are used together: a field gives back what was put
//! into it, and writing one field leaves every other field alone.

use crate::bits::{lemma_with_bit_below, with_bit};
use crate::fields::{lemma_pad_ordered, lemma_pad_within, pad, total_bits, Field};
use crate::specifier::{fits, Specifier};
use crate::stream::{
    field_value,
    lemma_field_value_zero,
    lemma_read_beside_written,
    lemma_read_written,
    written,
};
use vstd::arithmetic::power2::pow2;
use vstd::prelude::*;

verus! {

/// Setting a bit of the field in a bucket that holds a value of the field leaves a bucket that
/// holds a value of the field: every bucket built from the empty one by `set` can be written
/// and read back. `after` is what `set` leaves of `before`.
pub proof fn lemma_set_fits<S: Specifier>(before: S::Bucket, after: S::Bucket, bit: nat)
    requires
        bit < S::BITS,
        fits::<S>(before),
        S::value(after) == with_bit(S::value(before), bit),
    ensures
        fits::<S>(after),
{
    lemma_with_bit_below(S::value(before), bit, S::BITS as nat);
}

/// A bucket that holds a value of the field, written by the setter and read back by the
/// getter, comes back as the very same bucket. `after` is what the setter leaves of `before`,
/// and `read` is what the getter then returns.
pub proof fn lemma_round_trip<S: Specifier>(
    before: Seq<u8>,
    after: Seq<u8>,
    pad: nat,
    value: S::Bucket,
    read: S::Bucket,
)
    requires
        pad + S::BITS <= 8 * before.len(),
        fits::<S>(value),
        written(before, after, pad as int, S::BITS as nat, S::value(value)),
        S::value(read) == field_value(after, pad as int, S::BITS as nat),
    ensures
        read == value,
{
    lemma_read_written(before, after, pad as int, S::BITS as nat, S::value(value));
    S::lemma_value_injective(read, value);
}

/// Writing field `k` of a record does not change what any other field `j` reads as.
pub proof fn lemma_no_bleed(
    fields: Seq<Field>,
    before: Seq<u8>,
    after: Seq<u8>,
    k: int,
    j: int,
    v: nat,
)
    requires
        0 <= k < fields.len(),
        0 <= j < fields.len(),
        j != k,
        total_bits(fields) <= 8 * before.len(),
        written(before, after, pad(fields, k) as int, fields[k].bits as nat, v),
    ensures
        field_value(after, pad(fields, j) as int, fields[j].bits as nat) == field_value(
            before,
            pad(fields, j) as int,
            fields[j].bits as nat,
        ),
{
    lemma_pad_within(fields, j);
    if j < k {
        lemma_pad_ordered(fields, j, k);
    } else {
        lemma_pad_ordered(fields, k, j);
    }
    lemma_read_beside_written(
        before,
        after,
        pad(fields, k) as int,
        fields[k].bits as nat,
        v,
        pad(fields, j) as int,
        fields[j].bits as nat,
    );
}

/// In a record that is all zero, writing a value that fits into field `k` makes field `k` read
/// as that value and leaves every other field reading as zero.
pub proof fn lemma_one_field_set(
    fields: Seq<Field>,
    before: Seq<u8>,
    after: Seq<u8>,
    k: int,
    v: nat,
)
    requires
        0 <= k < fields.len(),
        total_bits(fields) <= 8 * before.len(),
        forall|b: int| 0 <= b < before.len() ==> before[b] == 0,
        v < pow2(fields[k].bits as nat),
        written(before, after, pad(fields, k) as int, fields[k].bits as nat, v),
    ensures
        field_value(after, pad(fields, k) as int, fields[k].bits as nat) == v,
        forall|j: int|
            0 <= j < fields.len() && j != k ==> #[trigger] field_value(
                after,
                pad(fields, j) as int,
                fields[j].bits as nat,
            ) == 0,
{
    lemma_pad_within(fields, k);
    lemma_read_written(before, after, pad(fields, k) as int, fields[k].bits as nat, v);
    assert forall|j: int| 0 <= j < fields.len() && j != k implies #[trigger] field_value(
        after,
        pad(fields, j) as int,
        fields[j].bits as nat,
    ) == 0 by {
        lemma_no_bleed(fields, before, after, k, j, v);
        lemma_pad_within(fields, j);
        lemma_field_value_zero(before, pad(fields, j) as int, fields[j].bits as nat);
    }
}

} // verus!
