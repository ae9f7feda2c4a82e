//! Field descriptors: what a record is declared with, in declaration order.

use vstd::prelude::*;
use vstd::string::StringExecFns;

verus! {

/// A width that a field was declared to have, as it was written and as a number.
#[derive(Clone, Debug, PartialEq, Eq)]
pub struct Constraint {
    /// The expression as it stands in the declaration.
    pub expr: String,
    /// What the expression evaluates to.
    pub value: usize,
}

/// One field of a record: its name, the name and width of its specifier, and the width it was
/// declared to have, if any.
#[derive(Clone, Debug, PartialEq, Eq)]
pub struct Field {
    pub name: String,
    /// The specifier's type, as written.
    pub ty: String,
    /// The specifier's `BITS`.
    pub bits: usize,
    pub constraint: Option<Constraint>,
}

/// An attribute on a field's declaration. Only `name = value` attributes carry a value.
#[derive(Clone, Debug, PartialEq, Eq)]
pub struct Attribute {
    pub name: String,
    pub value: Option<Constraint>,
}

/// The fields of a record, in declaration order.
#[derive(Clone, Debug)]
pub struct Fields {
    fields: Vec<Field>,
}

/// The bit at which field `k` begins: the widths of the fields before it, added up.
pub open spec fn pad(fields: Seq<Field>, k: int) -> nat
    decreases k,
{
    if k <= 0 {
        0
    } else {
        pad(fields, k - 1) + fields[k - 1].bits as nat
    }
}

/// The widths of all fields, added up.
pub open spec fn total_bits(fields: Seq<Field>) -> nat {
    pad(fields, fields.len() as int)
}

/// The width that a list of attributes declares: the value of the first attribute named `bits`,
/// if there is such an attribute and it has a value.
pub open spec fn declared_width(attrs: Seq<Attribute>) -> Option<Constraint>
    decreases attrs.len(),
{
    if attrs.len() == 0 {
        None
    } else if attrs[0].name@ == "bits"@ {
        attrs[0].value
    } else {
        declared_width(attrs.drop_first())
    }
}

/// Fields begin in order: a later field begins where an earlier one has ended, or after.
pub proof fn lemma_pad_ordered(fields: Seq<Field>, j: int, k: int)
    requires
        0 <= j < k <= fields.len(),
    ensures
        pad(fields, j) + fields[j].bits <= pad(fields, k),
    decreases k - j,
{
    if j + 1 < k {
        lemma_pad_ordered(fields, j, k - 1);
    }
}

/// Every field ends within the total width.
pub proof fn lemma_pad_within(fields: Seq<Field>, k: int)
    requires
        0 <= k < fields.len(),
    ensures
        pad(fields, k) + fields[k].bits <= total_bits(fields),
{
    lemma_pad_ordered(fields, k, fields.len() as int);
}

impl Constraint {
    /// A copy of the constraint.
    fn duplicate(&self) -> (r: Constraint)
        ensures
            r == *self,
    {
        Constraint { expr: self.expr.clone(), value: self.value }
    }
}

impl View for Fields {
    type V = Seq<Field>;

    closed spec fn view(&self) -> Seq<Field> {
        self.fields@
    }
}

impl Default for Fields {
    /// No fields.
    fn default() -> (r: Fields)
        ensures
            r@ == Seq::<Field>::empty(),
    {
        Fields { fields: Vec::new() }
    }
}

impl AsRef<[Field]> for Fields {
    /// The fields as a slice.
    fn as_ref(&self) -> (r: &[Field])
        ensures
            r@ == self@,
    {
        self.fields.as_slice()
    }
}

impl std::ops::Deref for Fields {
    type Target = [Field];

    /// The fields as a slice.
    fn deref(&self) -> (r: &[Field])
        ensures
            r@ == self@,
    {
        self.as_ref()
    }
}

impl Fields {
    /// Takes one declared field: its name, its specifier's type and width, and its attributes.
    /// The field is appended, with the width that the attributes declare.
    pub fn visit_field(&mut self, name: String, ty: String, bits: usize, attrs: &[Attribute])
        ensures
            final(self)@ == old(self)@.push(
                (Field { name, ty, bits, constraint: declared_width(attrs@) }),
            ),
    {
        let wanted = String::from_str("bits");
        let mut constraint: Option<Constraint> = None;
        let mut i: usize = 0;
        assert(attrs@.skip(0) =~= attrs@);
        while i < attrs.len()
            invariant_except_break
                constraint.is_none(),
                declared_width(attrs@) == declared_width(attrs@.skip(i as int)),
            invariant
                i <= attrs@.len(),
                wanted@ == "bits"@,
            ensures
                constraint == declared_width(attrs@),
            decreases attrs@.len() - i,
        {
            proof {
                let rest = attrs@.skip(i as int);
                assert(rest[0] == attrs@[i as int]);
                assert(rest.drop_first() =~= attrs@.skip(i + 1));
            }
            if attrs[i].name == wanted {
                constraint = match &attrs[i].value {
                    Some(c) => Some(c.duplicate()),
                    None => None,
                };
                break ;
            }
            i += 1;
        }
        self.fields.push(Field { name, ty, bits, constraint });
    }

    /// How many fields there are.
    pub fn len(&self) -> (r: usize)
        ensures
            r == self@.len(),
    {
        self.fields.len()
    }
}

} // verus!
