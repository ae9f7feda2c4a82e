//! Getters: for each field of a record, where its bits lie and how they are read.

use crate::bitfield_specifier::{declared, first_with, EnumSpecifier, Primitive};
use crate::bits::{bit_of, lemma_bit_of_zero, lemma_bits_determine, lemma_u8_test, lemma_with_bit};
use crate::error::DecodeError;
use crate::fields::{lemma_pad_ordered, pad, total_bits, Field};
use crate::specifier::in_u16::B16;
use crate::specifier::in_u32::B32;
use crate::specifier::in_u64::B64;
use crate::specifier::in_u8::B8;
use crate::specifier::Specifier;
use crate::stream::{field_value, lemma_field_value_bit, lemma_field_value_bound, stream_bit};
use vstd::arithmetic::power2::pow2;
use vstd::prelude::*;
use vstd::string::StringExecFns;

verus! {

/// Reads one field: the method's name, the bit at which the field begins and its width.
#[derive(Clone, Debug, PartialEq, Eq)]
pub struct Getter {
    pub method: String,
    pub pad: usize,
    pub bits: usize,
}

/// Whether `getter` is the getter of field `k` of `fields`: it is named `get_` and the field's
/// name, begins where the fields before `k` end, and is as wide as the field.
pub open spec fn getter_of(getter: Getter, fields: Seq<Field>, k: int) -> bool {
    &&& getter.method@ == "get_"@ + fields[k].name@
    &&& getter.pad == pad(fields, k)
    &&& getter.bits == fields[k].bits
}

/// One getter for each field, in declaration order.
pub fn getters(fields: &[Field]) -> (r: Vec<Getter>)
    requires
        total_bits(fields@) <= usize::MAX,
    ensures
        r@.len() == fields@.len(),
        forall|k: int| 0 <= k < fields@.len() ==> getter_of(#[trigger] r@[k], fields@, k),
{
    let mut getters: Vec<Getter> = Vec::new();
    let mut pad: usize = 0;
    let mut cur: usize = 0;
    while cur < fields.len()
        invariant
            cur <= fields@.len(),
            total_bits(fields@) <= usize::MAX,
            pad == crate::fields::pad(fields@, cur as int),
            getters@.len() == cur,
            forall|k: int| 0 <= k < cur ==> getter_of(#[trigger] getters@[k], fields@, k),
        decreases fields@.len() - cur,
    {
        let field = &fields[cur];
        proof {
            lemma_pad_ordered(fields@, cur as int, fields@.len() as int);
        }
        let method = String::from_str("get_").concat(field.name.as_str());
        getters.push(Getter { method, pad, bits: field.bits });
        pad = pad + field.bits;
        cur += 1;
    }
    getters
}

impl Getter {
    /// Reads the field out of `data` into a bucket of `S`. Starting from the empty bucket, the
    /// bits of the field are walked from the first, which is the most significant, to the
    /// last, and each one that is 1 in `data` is set in the bucket.
    pub fn get<S: Specifier>(&self, data: &[u8]) -> (val: S::Bucket)
        requires
            self.bits <= S::BITS,
            self.pad + self.bits <= 8 * data@.len(),
            self.pad + self.bits <= usize::MAX,
        ensures
            S::value(val) == field_value(data@, self.pad as int, self.bits as nat),
            S::value(val) < pow2(self.bits as nat),
    {
        let pad = self.pad;
        let bits = self.bits;
        let mut val = S::empty();
        proof {
            assert forall|m: nat| !bit_of(S::value(val), m) by {
                lemma_bit_of_zero(m);
            }
        }
        let mut cur: usize = 0;
        while cur < bits
            invariant
                cur <= bits <= S::BITS,
                pad + bits <= 8 * data@.len(),
                pad + bits <= usize::MAX,
                forall|m: nat|
                    #[trigger] bit_of(S::value(val), m) == (bits - cur <= m < bits && stream_bit(
                        data@,
                        pad + bits - 1 - m,
                    )),
            decreases bits - cur,
        {
            let i = cur + pad;
            let bit = bits - (cur + 1);
            let b = i / 8;
            let s = i % 8;
            proof {
                lemma_u8_test(data@[b as int], s);
            }
            if data[b] & (1 << s) != 0 {
                let ghost before = S::value(val);
                S::set(&mut val, bit);
                proof {
                    assert forall|m: nat| #[trigger]
                        bit_of(S::value(val), m) == (bits - (cur + 1) <= m < bits && stream_bit(
                            data@,
                            pad + bits - 1 - m,
                        )) by {
                        lemma_with_bit(before, bit as nat, m);
                    }
                }
            }
            cur += 1;
        }
        proof {
            let want = field_value(data@, pad as int, bits as nat);
            assert forall|m: nat| bit_of(S::value(val), m) == bit_of(want, m) by {
                lemma_field_value_bit(data@, pad as int, bits as nat, m);
            }
            lemma_bits_determine(S::value(val), want);
            lemma_field_value_bound(data@, pad as int, bits as nat);
        }
        val
    }

    /// Reads the field out of `data` as a variant of the enumeration `specifier`. The bits are
    /// read through the primitive specifier that stands behind the enumeration, and the number
    /// they spell is looked up among the discriminants. Bits that spell no variant's
    /// discriminant are an error, which names that number.
    pub fn get_enum(&self, data: &[u8], specifier: &EnumSpecifier) -> (r: Result<usize, DecodeError>)
        requires
            self.bits == specifier.bits(),
            self.pad + self.bits <= 8 * data@.len(),
            self.pad + self.bits <= usize::MAX,
        ensures
            ({
                let spelled = field_value(data@, self.pad as int, self.bits as nat);
                match r {
                    Ok(variant) => first_with(
                        specifier.variants(),
                        spelled as int,
                        variant as int,
                    ),
                    Err(e) => !declared(specifier.variants(), spelled as int) && e.ty
                        == specifier.ty() && e.discriminant == spelled,
                }
            }),
    {
        proof {
            B8::lemma_bits();
            B16::lemma_bits();
            B32::lemma_bits();
            B64::lemma_bits();
        }
        let val = match Primitive::for_bits(specifier.bits()) {
            Primitive::B8 => self.get::<B8>(data) as u64,
            Primitive::B16 => self.get::<B16>(data) as u64,
            Primitive::B32 => self.get::<B32>(data) as u64,
            Primitive::B64 => self.get::<B64>(data),
        };
        specifier.decode(val)
    }
}

} // verus!
