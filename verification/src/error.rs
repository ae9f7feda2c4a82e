//! What can go wrong: a definition that is refused, and bits that stand for no variant.

use vstd::prelude::*;
use vstd::string::StringExecFns;

verus! {

/// Why a record or an enumeration specifier cannot be defined.
#[derive(Clone, Debug, PartialEq, Eq)]
pub enum Error {
    /// The widths of the record `name` do not add up to whole bytes.
    DoesNotFillAllBytes { name: String },
    /// A field of type `ty` was declared to be `expr` bits wide and is not.
    SizeMismatch { ty: String, expr: String },
    /// The discriminant of `variant` is not below the number of variants of `ty`.
    OutOfRange { variant: String, ty: String },
    /// The number of variants is not a power of two.
    NotPowerOfTwo,
    /// The item is a struct, not an enumeration.
    Struct,
    /// The item is a union, not an enumeration.
    Union,
}

/// The bits of a field spell a number that no variant of the enumeration `ty` has as its
/// discriminant.
#[derive(Clone, Debug, PartialEq, Eq)]
pub struct DecodeError {
    pub ty: String,
    pub discriminant: u64,
}

impl Error {
    /// The wording of the error.
    pub open spec fn text(self) -> Seq<char> {
        match self {
            Error::DoesNotFillAllBytes { name } => name@ + " does not fill all bytes"@,
            Error::SizeMismatch { ty, expr } => "expected "@ + ty@ + " to be of size "@ + expr@,
            Error::OutOfRange { variant, ty } => variant@ + " is out of range for type "@ + ty@,
            Error::NotPowerOfTwo => {
                "BitfieldSpecifier expected a number of variants which is a power of 2"@
            },
            Error::Struct => "BitfieldSpecifier does not support structs"@,
            Error::Union => "BitfieldSpecifier does not support unions"@,
        }
    }

    /// The wording of the error, as a string.
    pub fn message(&self) -> (r: String)
        ensures
            r@ == self.text(),
    {
        match self {
            Error::DoesNotFillAllBytes { name } => name.clone().concat(" does not fill all bytes"),
            Error::SizeMismatch { ty, expr } => String::from_str("expected ").concat(
                ty.as_str(),
            ).concat(" to be of size ").concat(expr.as_str()),
            Error::OutOfRange { variant, ty } => variant.clone().concat(
                " is out of range for type ",
            ).concat(ty.as_str()),
            Error::NotPowerOfTwo => String::from_str(
                "BitfieldSpecifier expected a number of variants which is a power of 2",
            ),
            Error::Struct => String::from_str("BitfieldSpecifier does not support structs"),
            Error::Union => String::from_str("BitfieldSpecifier does not support unions"),
        }
    }
}

} // verus!
