//! Setters: for each field of a record, where its bits lie and how they are written.

use crate::bitfield_specifier::{lemma_fits_primitive, EnumSpecifier, Primitive};
use crate::bits::{bit_of, lemma_u8_lower, lemma_u8_raise, lemma_with_bit, lemma_without_bit};
use crate::fields::{lemma_pad_ordered, pad, total_bits, Field};
use crate::specifier::in_u16::B16;
use crate::specifier::in_u32::B32;
use crate::specifier::in_u64::B64;
use crate::specifier::in_u8::B8;
use crate::specifier::Specifier;
use crate::stream::{stream_bit, written};
use vstd::prelude::*;
use vstd::string::StringExecFns;

verus! {

/// Writes one field: the method's name, the bit at which the field begins and its width.
#[derive(Clone, Debug, PartialEq, Eq)]
pub struct Setter {
    pub method: String,
    pub pad: usize,
    pub bits: usize,
}

/// Whether `setter` is the setter of field `k` of `fields`: it is named `set_` and the field's
/// name, begins where the fields before `k` end, and is as wide as the field.
pub open spec fn setter_of(setter: Setter, fields: Seq<Field>, k: int) -> bool {
    &&& setter.method@ == "set_"@ + fields[k].name@
    &&& setter.pad == pad(fields, k)
    &&& setter.bits == fields[k].bits
}

/// One setter for each field, in declaration order.
pub fn setters(fields: &[Field]) -> (r: Vec<Setter>)
    requires
        total_bits(fields@) <= usize::MAX,
    ensures
        r@.len() == fields@.len(),
        forall|k: int| 0 <= k < fields@.len() ==> setter_of(#[trigger] r@[k], fields@, k),
{
    let mut setters: Vec<Setter> = Vec::new();
    let mut pad: usize = 0;
    let mut cur: usize = 0;
    while cur < fields.len()
        invariant
            cur <= fields@.len(),
            total_bits(fields@) <= usize::MAX,
            pad == crate::fields::pad(fields@, cur as int),
            setters@.len() == cur,
            forall|k: int| 0 <= k < cur ==> setter_of(#[trigger] setters@[k], fields@, k),
        decreases fields@.len() - cur,
    {
        let field = &fields[cur];
        proof {
            lemma_pad_ordered(fields@, cur as int, fields@.len() as int);
        }
        let method = String::from_str("set_").concat(field.name.as_str());
        setters.push(Setter { method, pad, bits: field.bits });
        pad = pad + field.bits;
        cur += 1;
    }
    setters
}

impl Setter {
    /// Writes `value` into the field's bits of `data`. The bits of the field are walked from
    /// the first, which takes the most significant bit of the value, to the last; each is set
    /// to 1 or cleared to 0 as the value has it, and no other bit of `data` is touched.
    pub fn set<S: Specifier>(&self, data: &mut Vec<u8>, value: S::Bucket)
        requires
            self.bits <= S::BITS,
            self.pad + self.bits <= 8 * old(data)@.len(),
            self.pad + self.bits <= usize::MAX,
        ensures
            written(
                old(data)@,
                final(data)@,
                self.pad as int,
                self.bits as nat,
                S::value(value),
            ),
    {
        let pad = self.pad;
        let bits = self.bits;
        let ghost before = data@;
        let ghost v = S::value(value);
        let mut cur: usize = 0;
        while cur < bits
            invariant
                cur <= bits <= S::BITS,
                data@.len() == before.len(),
                pad + bits <= 8 * before.len(),
                pad + bits <= usize::MAX,
                v == S::value(value),
                forall|j: int|
                    0 <= j < 8 * before.len() ==> #[trigger] stream_bit(data@, j) == if pad <= j
                        < pad + cur {
                        bit_of(v, (pad + bits - 1 - j) as nat)
                    } else {
                        stream_bit(before, j)
                    },
            decreases bits - cur,
        {
            let i = pad + cur;
            let b = i / 8;
            let s = i % 8;
            let mag = bits - (cur + 1);
            let ghost prior = data@;
            let byte = data[b];
            if S::is_set(&value, mag) {
                proof {
                    lemma_u8_raise(byte, s);
                }
                data[b] = byte | (1 << s);
            } else {
                proof {
                    lemma_u8_lower(byte, s);
                }
                data[b] = byte & !(1 << s);
            }
            proof {
                assert forall|j: int| 0 <= j < 8 * before.len() implies #[trigger] stream_bit(
                    data@,
                    j,
                ) == if j == i {
                    bit_of(v, mag as nat)
                } else {
                    stream_bit(prior, j)
                } by {
                    if j / 8 == b {
                        lemma_with_bit(byte as nat, s as nat, (j % 8) as nat);
                        lemma_without_bit(byte as nat, s as nat, (j % 8) as nat);
                    }
                }
            }
            cur += 1;
        }
    }

    /// Writes the variant `variant` of the enumeration `specifier` into the field's bits of
    /// `data`: the bits of its discriminant, through the primitive specifier that stands
    /// behind the enumeration.
    pub fn set_enum(&self, data: &mut Vec<u8>, specifier: &EnumSpecifier, variant: usize)
        requires
            variant < specifier.variants().len(),
            self.bits == specifier.bits(),
            self.pad + self.bits <= 8 * old(data)@.len(),
            self.pad + self.bits <= usize::MAX,
        ensures
            written(
                old(data)@,
                final(data)@,
                self.pad as int,
                self.bits as nat,
                specifier.variants()[variant as int].discriminant as nat,
            ),
    {
        let bits = specifier.bits();
        let val = specifier.discriminant(variant);
        proof {
            lemma_fits_primitive(bits as nat, val);
            B8::lemma_bits();
            B16::lemma_bits();
            B32::lemma_bits();
            B64::lemma_bits();
        }
        match Primitive::for_bits(bits) {
            Primitive::B8 => self.set::<B8>(data, val as u8),
            Primitive::B16 => self.set::<B16>(data, val as u16),
            Primitive::B32 => self.set::<B32>(data, val as u32),
            Primitive::B64 => self.set::<B64>(data, val),
        }
    }
}

} // verus!
