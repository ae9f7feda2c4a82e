//! Records: the layout that a list of fields defines, and the packed records of that layout.

use crate::bitfield_specifier::{declared, first_with, EnumSpecifier};
use crate::error::{DecodeError, Error};
use crate::fields::{lemma_pad_within, pad, total_bits, Field, Fields};
use crate::getter::{getter_of, getters, Getter};
use crate::setter::{setter_of, setters, Setter};
use crate::size::{byte_size, first_mismatched, mismatched, size_check, size_constraint};
use crate::specifier::{fits, Specifier};
use crate::stream::{field_value, written};
use vstd::prelude::*;
use vstd::string::StringExecFns;

verus! {

/// The layout of a record: its fields in declaration order, each with its getter and its
/// setter, and the number of bytes that the fields fill.
#[derive(Debug)]
pub struct Layout {
    name: String,
    fields: Fields,
    size: usize,
    getters: Vec<Getter>,
    setters: Vec<Setter>,
}

/// A record of some layout: as many bytes as the layout asks for, read and written field by
/// field.
#[derive(Clone, Debug)]
pub struct PackedRecord<'a> {
    layout: &'a Layout,
    data: Vec<u8>,
}

impl Layout {
    #[verifier::type_invariant]
    spec fn well_formed(self) -> bool {
        &&& total_bits(self.fields@) == 8 * self.size <= usize::MAX
        &&& self.getters@.len() == self.fields@.len()
        &&& self.setters@.len() == self.fields@.len()
        &&& forall|k: int|
            0 <= k < self.fields@.len() ==> getter_of(#[trigger] self.getters@[k], self.fields@, k)
        &&& forall|k: int|
            0 <= k < self.fields@.len() ==> setter_of(#[trigger] self.setters@[k], self.fields@, k)
    }

    /// The name of the record type.
    pub closed spec fn name(self) -> String {
        self.name
    }

    /// The fields, in declaration order.
    pub closed spec fn fields(self) -> Seq<Field> {
        self.fields@
    }

    /// How many bytes a record takes.
    pub closed spec fn spec_byte_size(&self) -> usize {
        self.size
    }

    /// How many bytes a record takes: an eighth of the widths of the fields, added up.
    #[verifier::when_used_as_spec(spec_byte_size)]
    pub fn byte_size(&self) -> (r: usize)
        ensures
            r == self.byte_size(),
            8 * r == total_bits(self.fields()) <= usize::MAX,
    {
        proof {
            use_type_invariant(self);
        }
        self.size
    }

    /// How many fields there are.
    pub fn len(&self) -> (r: usize)
        ensures
            r == self.fields().len(),
    {
        self.fields.len()
    }

    /// Field `k`.
    pub fn field(&self, k: usize) -> (r: &Field)
        requires
            k < self.fields().len(),
        ensures
            *r == self.fields()[k as int],
    {
        &self.fields.as_ref()[k]
    }

    /// The getter of field `k`.
    pub fn getter(&self, k: usize) -> (r: &Getter)
        requires
            k < self.fields().len(),
        ensures
            getter_of(*r, self.fields(), k as int),
            r.pad + r.bits <= 8 * self.byte_size() <= usize::MAX,
    {
        proof {
            use_type_invariant(self);
            lemma_pad_within(self.fields@, k as int);
        }
        &self.getters[k]
    }

    /// The setter of field `k`.
    pub fn setter(&self, k: usize) -> (r: &Setter)
        requires
            k < self.fields().len(),
        ensures
            setter_of(*r, self.fields(), k as int),
            r.pad + r.bits <= 8 * self.byte_size() <= usize::MAX,
    {
        proof {
            use_type_invariant(self);
            lemma_pad_within(self.fields@, k as int);
        }
        &self.setters[k]
    }
}

/// Defines the record type `name` with the given fields. The fields must fill whole bytes,
/// and each field that was declared with a width must have that width; of the two checks the
/// first is reported first, and of the fields the first that fails.
pub fn bitfield(name: &str, fields: Fields) -> (r: Result<Layout, Error>)
    requires
        total_bits(fields@) <= usize::MAX,
    ensures
        match r {
            Ok(layout) => {
                &&& total_bits(fields@) % 8 == 0
                &&& forall|k: int| 0 <= k < fields@.len() ==> !mismatched(#[trigger] fields@[k])
                &&& layout.name()@ == name@
                &&& layout.fields() == fields@
                &&& layout.byte_size() == total_bits(fields@) / 8
            },
            Err(Error::DoesNotFillAllBytes { name: n }) => {
                &&& total_bits(fields@) % 8 != 0
                &&& n@ == name@
            },
            Err(Error::SizeMismatch { ty, expr }) => {
                &&& total_bits(fields@) % 8 == 0
                &&& exists|k: int| #[trigger]
                    first_mismatched(fields@, k) && ty == fields@[k].ty && expr
                        == fields@[k].constraint->0.expr
            },
            Err(_) => false,
        },
{
    let size = byte_size(fields.as_ref());
    match size_check(name, fields.as_ref()) {
        Ok(()) => {},
        Err(e) => {
            return Err(e);
        },
    }
    match size_constraint(fields.as_ref()) {
        Ok(()) => {},
        Err(e) => {
            return Err(e);
        },
    }
    let getters = getters(fields.as_ref());
    let setters = setters(fields.as_ref());
    Ok(Layout { name: String::from_str(name), fields, size, getters, setters })
}

impl<'a> View for PackedRecord<'a> {
    type V = Seq<u8>;

    /// The bytes of the record.
    closed spec fn view(&self) -> Seq<u8> {
        self.data@
    }
}

impl<'a> PackedRecord<'a> {
    /// The layout of the record.
    pub closed spec fn layout(self) -> Layout {
        *self.layout
    }

    /// A record holds as many bytes as its layout asks for, which is an eighth of the widths
    /// of its fields added up. Every record that `new` makes does, and no method changes that.
    pub open spec fn wf(self) -> bool {
        &&& self@.len() == self.layout().byte_size()
        &&& 8 * self@.len() == total_bits(self.layout().fields())
    }

    /// A record of the given layout with every byte zero.
    pub fn new(layout: &'a Layout) -> (r: PackedRecord<'a>)
        ensures
            r.layout() == *layout,
            r.wf(),
            forall|b: int| 0 <= b < r@.len() ==> r@[b] == 0,
    {
        let size = layout.byte_size();
        let mut data: Vec<u8> = Vec::new();
        let mut b: usize = 0;
        while b < size
            invariant
                b <= size,
                data@.len() == b,
                forall|c: int| 0 <= c < b ==> data@[c] == 0,
            decreases size - b,
        {
            data.push(0);
            b += 1;
        }
        PackedRecord { layout, data }
    }

    /// The bytes of the record.
    pub fn as_bytes(&self) -> (r: &[u8])
        ensures
            r@ == self@,
    {
        self.data.as_slice()
    }

    /// Reads field `k`, whose specifier is `S`.
    pub fn get<S: Specifier>(&self, k: usize) -> (r: S::Bucket)
        requires
            self.wf(),
            k < self.layout().fields().len(),
            self.layout().fields()[k as int].bits == S::BITS,
        ensures
            S::value(r) == field_value(
                self@,
                pad(self.layout().fields(), k as int) as int,
                S::BITS as nat,
            ),
            fits::<S>(r),
    {
        self.layout.getter(k).get::<S>(self.data.as_slice())
    }

    /// Writes `value` into field `k`, whose specifier is `S`. The other fields keep their bits.
    pub fn set<S: Specifier>(&mut self, k: usize, value: S::Bucket)
        requires
            old(self).wf(),
            k < old(self).layout().fields().len(),
            old(self).layout().fields()[k as int].bits == S::BITS,
        ensures
            final(self).wf(),
            final(self).layout() == old(self).layout(),
            written(
                old(self)@,
                final(self)@,
                pad(old(self).layout().fields(), k as int) as int,
                S::BITS as nat,
                S::value(value),
            ),
    {
        self.layout.setter(k).set::<S>(&mut self.data, value);
    }

    /// Reads field `k`, whose specifier is the enumeration `specifier`, as a variant. Bits
    /// that spell no variant's discriminant are an error.
    pub fn get_enum(&self, k: usize, specifier: &EnumSpecifier) -> (r: Result<usize, DecodeError>)
        requires
            self.wf(),
            k < self.layout().fields().len(),
            self.layout().fields()[k as int].bits == specifier.bits(),
        ensures
            ({
                let spelled = field_value(
                    self@,
                    pad(self.layout().fields(), k as int) as int,
                    specifier.bits() as nat,
                );
                match r {
                    Ok(variant) => first_with(
                        specifier.variants(),
                        spelled as int,
                        variant as int,
                    ),
                    Err(e) => !declared(specifier.variants(), spelled as int) && e.ty
                        == specifier.ty() && e.discriminant == spelled,
                }
            }),
    {
        self.layout.getter(k).get_enum(self.data.as_slice(), specifier)
    }

    /// Writes the variant `variant` of the enumeration `specifier` into field `k`. The other
    /// fields keep their bits.
    pub fn set_enum(&mut self, k: usize, specifier: &EnumSpecifier, variant: usize)
        requires
            old(self).wf(),
            k < old(self).layout().fields().len(),
            old(self).layout().fields()[k as int].bits == specifier.bits(),
            variant < specifier.variants().len(),
        ensures
            final(self).wf(),
            final(self).layout() == old(self).layout(),
            written(
                old(self)@,
                final(self)@,
                pad(old(self).layout().fields(), k as int) as int,
                specifier.bits() as nat,
                specifier.variants()[variant as int].discriminant as nat,
            ),
    {
        self.layout.setter(k).set_enum(&mut self.data, specifier, variant);
    }
}

} // verus!
