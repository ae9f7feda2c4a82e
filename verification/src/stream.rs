//! The byte buffer of a record read as one stream of bits. Bit `i` of the stream is bit `i % 8`
//! of byte `i / 8`; a field is a run of consecutive bits of the stream and spells a number,
//! its first bit being the most significant.

use crate::bits::{bit_of, lemma_below_pow2, lemma_bits_determine};
use vstd::arithmetic::power2::pow2;
use vstd::prelude::*;

verus! {

/// Bit `i` of the stream laid over `data`.
pub open spec fn stream_bit(data: Seq<u8>, i: int) -> bool {
    bit_of(data[i / 8] as nat, (i % 8) as nat)
}

/// The number spelled by the `w` bits of the stream that start at bit `pad`, the first of them
/// being the most significant.
pub open spec fn field_value(data: Seq<u8>, pad: int, w: nat) -> nat
    decreases w,
{
    if w == 0 {
        0
    } else {
        2 * field_value(data, pad, (w - 1) as nat) + if stream_bit(data, pad + w - 1) {
            1nat
        } else {
            0nat
        }
    }
}

/// `after` is `before` with the low `w` bits of `v` written over the `w` bits of the stream
/// that start at bit `pad`: bit `w - 1` of `v` comes first, bit 0 last, and every bit outside
/// the run is kept.
pub open spec fn written(before: Seq<u8>, after: Seq<u8>, pad: int, w: nat, v: nat) -> bool {
    &&& after.len() == before.len()
    &&& forall|i: int|
        0 <= i < 8 * before.len() ==> #[trigger] stream_bit(after, i) == if pad <= i < pad + w {
            bit_of(v, (pad + w - 1 - i) as nat)
        } else {
            stream_bit(before, i)
        }
}

/// Bit `m` of the number a field spells is the stream bit `m` places before the field's last.
pub proof fn lemma_field_value_bit(data: Seq<u8>, pad: int, w: nat, m: nat)
    ensures
        bit_of(field_value(data, pad, w), m) == (m < w && stream_bit(data, pad + w - 1 - m)),
    decreases w,
{
    if w == 0 {
        crate::bits::lemma_bit_of_zero(m);
    } else {
        let rest = field_value(data, pad, (w - 1) as nat);
        let last: nat = if stream_bit(data, pad + w - 1) {
            1
        } else {
            0
        };
        assert((2 * rest + last) / 2 == rest);
        assert((2 * rest + last) % 2 == last);
        if m > 0 {
            lemma_field_value_bit(data, pad, (w - 1) as nat, (m - 1) as nat);
        }
    }
}

/// A field of `w` bits spells a number below `2^w`.
pub proof fn lemma_field_value_bound(data: Seq<u8>, pad: int, w: nat)
    ensures
        field_value(data, pad, w) < pow2(w),
{
    let v = field_value(data, pad, w);
    assert forall|i: nat| i >= w implies !bit_of(v, i) by {
        lemma_field_value_bit(data, pad, w, i);
    }
    lemma_below_pow2(v, w);
}

/// The number a field spells depends on the bits of the field alone.
pub proof fn lemma_field_value_same(a: Seq<u8>, b: Seq<u8>, pad: int, w: nat)
    requires
        forall|i: int| pad <= i < pad + w ==> stream_bit(a, i) == stream_bit(b, i),
    ensures
        field_value(a, pad, w) == field_value(b, pad, w),
    decreases w,
{
    if w > 0 {
        lemma_field_value_same(a, b, pad, (w - 1) as nat);
    }
}

/// Reading back what was written gives the number written, as far as it fits the field.
pub proof fn lemma_read_written(before: Seq<u8>, after: Seq<u8>, pad: int, w: nat, v: nat)
    requires
        written(before, after, pad, w, v),
        0 <= pad,
        pad + w <= 8 * before.len(),
        v < pow2(w),
    ensures
        field_value(after, pad, w) == v,
{
    let r = field_value(after, pad, w);
    lemma_below_pow2(v, w);
    assert forall|m: nat| bit_of(r, m) == bit_of(v, m) by {
        lemma_field_value_bit(after, pad, w, m);
        if m < w {
            assert(stream_bit(after, pad + w - 1 - m) == bit_of(v, m));
        }
    }
    lemma_bits_determine(r, v);
}

/// Writing one field leaves the number that any run of bits outside it spells as it was.
pub proof fn lemma_read_beside_written(
    before: Seq<u8>,
    after: Seq<u8>,
    pad: int,
    w: nat,
    v: nat,
    other_pad: int,
    other_w: nat,
)
    requires
        written(before, after, pad, w, v),
        0 <= other_pad,
        other_pad + other_w <= 8 * before.len(),
        other_pad + other_w <= pad || pad + w <= other_pad,
    ensures
        field_value(after, other_pad, other_w) == field_value(before, other_pad, other_w),
{
    assert forall|i: int| other_pad <= i < other_pad + other_w implies stream_bit(after, i)
        == stream_bit(before, i) by {}
    lemma_field_value_same(after, before, other_pad, other_w);
}

/// What a write leaves is fully determined: two buffers that both are `before` with the same
/// number written into the same bits are the same buffer.
pub proof fn lemma_written_unique(
    before: Seq<u8>,
    one: Seq<u8>,
    other: Seq<u8>,
    pad: int,
    w: nat,
    v: nat,
)
    requires
        written(before, one, pad, w, v),
        written(before, other, pad, w, v),
    ensures
        one == other,
{
    assert forall|b: int| 0 <= b < one.len() implies one[b] == other[b] by {
        let (x, y) = (one[b] as nat, other[b] as nat);
        assert forall|s: nat| bit_of(x, s) == bit_of(y, s) by {
            if s < 8 {
                assert(stream_bit(one, 8 * b + s) == stream_bit(other, 8 * b + s));
            } else {
                vstd::arithmetic::power2::lemma2_to64();
                if s > 8 {
                    vstd::arithmetic::power2::lemma_pow2_strictly_increases(8, s);
                }
                if bit_of(x, s) {
                    crate::bits::lemma_bit_of_lower_bound(x, s);
                }
                if bit_of(y, s) {
                    crate::bits::lemma_bit_of_lower_bound(y, s);
                }
            }
        }
        lemma_bits_determine(x, y);
    }
    assert(one =~= other);
}

/// A buffer of zero bytes spells zero everywhere.
pub proof fn lemma_field_value_zero(data: Seq<u8>, pad: int, w: nat)
    requires
        0 <= pad,
        pad + w <= 8 * data.len(),
        forall|b: int| 0 <= b < data.len() ==> data[b] == 0,
    ensures
        field_value(data, pad, w) == 0,
    decreases w,
{
    if w > 0 {
        lemma_field_value_zero(data, pad, (w - 1) as nat);
        crate::bits::lemma_bit_of_zero(((pad + w - 1) % 8) as nat);
    }
}

} // verus!
