//! The size of a record and the checks on its widths.

use crate::error::Error;
use crate::fields::{lemma_pad_ordered, pad, total_bits, Field};
use vstd::prelude::*;
use vstd::string::StringExecFns;

verus! {

/// Whether a field was declared with a width that its specifier does not have.
pub open spec fn mismatched(field: Field) -> bool {
    field.constraint matches Some(c) && c.value != field.bits
}

/// Whether field `k` is the first that was declared with a width that its specifier does not
/// have.
pub open spec fn first_mismatched(fields: Seq<Field>, k: int) -> bool {
    &&& 0 <= k < fields.len()
    &&& mismatched(fields[k])
    &&& forall|j: int| 0 <= j < k ==> !mismatched(#[trigger] fields[j])
}

/// The widths of all fields added up, or `None` where the sum does not fit a `usize`.
pub fn checked_total_bits(fields: &[Field]) -> (r: Option<usize>)
    ensures
        match r {
            Some(total) => total == total_bits(fields@),
            None => total_bits(fields@) > usize::MAX,
        },
{
    let mut total: usize = 0;
    let mut cur: usize = 0;
    while cur < fields.len()
        invariant
            cur <= fields@.len(),
            total == pad(fields@, cur as int),
        decreases fields@.len() - cur,
    {
        proof {
            lemma_pad_ordered(fields@, cur as int, fields@.len() as int);
        }
        match total.checked_add(fields[cur].bits) {
            Some(next) => {
                total = next;
            },
            None => {
                return None;
            },
        }
        cur += 1;
    }
    Some(total)
}

/// The widths of all fields added up.
fn bit_size(fields: &[Field]) -> (r: usize)
    requires
        total_bits(fields@) <= usize::MAX,
    ensures
        r == total_bits(fields@),
{
    let mut total: usize = 0;
    let mut cur: usize = 0;
    while cur < fields.len()
        invariant
            cur <= fields@.len(),
            total_bits(fields@) <= usize::MAX,
            total == pad(fields@, cur as int),
        decreases fields@.len() - cur,
    {
        proof {
            lemma_pad_ordered(fields@, cur as int, fields@.len() as int);
        }
        total = total + fields[cur].bits;
        cur += 1;
    }
    total
}

/// How many bytes a record of these fields takes: an eighth of the widths added up.
pub fn byte_size(fields: &[Field]) -> (r: usize)
    requires
        total_bits(fields@) <= usize::MAX,
    ensures
        r == total_bits(fields@) / 8,
{
    if fields.len() == 0 {
        0
    } else {
        bit_size(fields) / 8
    }
}

/// Checks that the fields of the record `name` fill whole bytes.
pub fn size_check(name: &str, fields: &[Field]) -> (r: Result<(), Error>)
    requires
        total_bits(fields@) <= usize::MAX,
    ensures
        r is Ok <==> total_bits(fields@) % 8 == 0,
        r matches Err(e) ==> e matches Error::DoesNotFillAllBytes { name: n } && n@ == name@,
{
    if fields.len() == 0 {
        Ok(())
    } else if bit_size(fields) % 8 == 0 {
        Ok(())
    } else {
        Err(Error::DoesNotFillAllBytes { name: String::from_str(name) })
    }
}

/// Checks each declared width against the width of the field's specifier. The first field
/// that was declared with another width than it has is the one reported.
pub fn size_constraint(fields: &[Field]) -> (r: Result<(), Error>)
    ensures
        r is Ok <==> forall|k: int| 0 <= k < fields@.len() ==> !mismatched(#[trigger] fields@[k]),
        r matches Err(e) ==> exists|k: int| #[trigger]
            first_mismatched(fields@, k) && e == (Error::SizeMismatch {
                ty: fields@[k].ty,
                expr: fields@[k].constraint->0.expr,
            }),
{
    let mut cur: usize = 0;
    while cur < fields.len()
        invariant
            cur <= fields@.len(),
            forall|j: int| 0 <= j < cur ==> !mismatched(#[trigger] fields@[j]),
        decreases fields@.len() - cur,
    {
        let field = &fields[cur];
        if let Some(expr) = &field.constraint {
            if expr.value != field.bits {
                assert(first_mismatched(fields@, cur as int));
                return Err(Error::SizeMismatch { ty: field.ty.clone(), expr: expr.expr.clone() });
            }
        }
        cur += 1;
    }
    Ok(())
}

} // verus!
