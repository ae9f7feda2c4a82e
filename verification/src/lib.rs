//! Packs fields of 1 to 64 bits into a contiguous byte buffer and reads them back, bit for bit.
//!
//! A record is declared as a list of [`Field`]s. [`bitfield`] checks the list and lays the
//! fields out one after the other, without padding; the [`Layout`] it returns makes
//! [`PackedRecord`]s, whose fields are read and written through a [`Specifier`].

pub mod bitfield_specifier;
pub mod bits;
pub mod error;
pub mod fields;
pub mod getter;
pub mod guarantees;
pub mod record;
pub mod setter;
pub mod size;
pub mod specifier;
pub mod stream;

pub use crate::bitfield_specifier::{
    bitfield_specifier, Data, DeriveInput, EnumSpecifier, Primitive, Variant,
};
pub use crate::error::{DecodeError, Error};
pub use crate::fields::{Attribute, Constraint, Field, Fields};
pub use crate::getter::{getters, Getter};
pub use crate::record::{bitfield, Layout, PackedRecord};
pub use crate::setter::{setters, Setter};
pub use crate::size::{byte_size, checked_total_bits, size_check, size_constraint};
pub use crate::specifier::in_u16::{
    B9, B10, B11, B12, B13, B14, B15, B16,
};
pub use crate::specifier::in_u32::{
    B17, B18, B19, B20, B21, B22, B23, B24, B25, B26, B27, B28, B29, B30, B31, B32,
};
pub use crate::specifier::in_u64::{
    B33, B34, B35, B36, B37, B38, B39, B40, B41, B42, B43, B44, B45, B46, B47, B48, B49,
    B50, B51, B52, B53, B54, B55, B56, B57, B58, B59, B60, B61, B62, B63, B64,
};
pub use crate::specifier::in_u8::{B1, B2, B3, B4, B5, B6, B7, B8};
pub use crate::specifier::Specifier;
