//! Enumeration specifiers: a field whose values are the variants of an enumeration. The
//! specifier is derived from the list of variants; its bucket is a variant, named by its
//! position in the declaration.

use crate::bits::{bit_of, with_bit};
use crate::error::{DecodeError, Error};
use crate::specifier::in_u16::B16;
use crate::specifier::in_u32::B32;
use crate::specifier::in_u64::B64;
use crate::specifier::in_u8::B8;
use crate::specifier::Specifier;
use vstd::arithmetic::power2::{
    is_pow2,
    lemma2_to64,
    lemma2_to64_rest,
    lemma_pow2_pos,
    lemma_pow2_strictly_increases,
    lemma_pow2_unfold,
    pow2,
};
use vstd::prelude::*;
use vstd::relations::injective_on;
use vstd::set_lib::{lemma_int_range, lemma_map_size, lemma_subset_equality, set_int_range};

verus! {

/// One variant of an enumeration: its name and its discriminant.
#[derive(Clone, Debug, PartialEq, Eq)]
pub struct Variant {
    pub ident: String,
    pub discriminant: i64,
}

/// What kind of item a specifier is to be derived from.
#[derive(Clone, Debug, PartialEq, Eq)]
pub enum Data {
    Struct,
    Union,
    /// An enumeration with its variants, in declaration order.
    Enum(Vec<Variant>),
}

/// The item a specifier is to be derived from.
#[derive(Clone, Debug, PartialEq, Eq)]
pub struct DeriveInput {
    pub ident: String,
    pub data: Data,
}

/// The primitive specifier that stands behind an enumeration specifier: the one that fills
/// the narrowest bucket able to hold the enumeration's bits.
#[derive(Clone, Copy, PartialEq, Eq, Structural, Debug)]
pub enum Primitive {
    B8,
    B16,
    B32,
    B64,
}

/// The specifier of an enumeration of `2^BITS` variants. An enumeration of one variant has no
/// bits at all: a field of it takes no room in a record.
#[derive(Debug)]
pub struct EnumSpecifier {
    ty: String,
    variants: Vec<Variant>,
    bits: usize,
    /// For each discriminant, the first variant that has it.
    table: Vec<Option<usize>>,
}

/// Whether a variant's discriminant lies in `0 .. count`.
pub open spec fn in_range(variant: Variant, count: nat) -> bool {
    0 <= variant.discriminant < count
}

/// Whether variant `k` is the first whose discriminant does not lie below the number of
/// variants.
pub open spec fn first_out_of_range(variants: Seq<Variant>, k: int) -> bool {
    &&& 0 <= k < variants.len()
    &&& !in_range(variants[k], variants.len())
    &&& forall|j: int| 0 <= j < k ==> in_range(#[trigger] variants[j], variants.len())
}

/// Whether some variant has the discriminant `d`.
pub open spec fn declared(variants: Seq<Variant>, d: int) -> bool {
    exists|i: int| 0 <= i < variants.len() && (#[trigger] variants[i]).discriminant == d
}

/// Whether variant `i` is the first that has the discriminant `d`.
pub open spec fn first_with(variants: Seq<Variant>, d: int, i: int) -> bool {
    &&& 0 <= i < variants.len()
    &&& variants[i].discriminant == d
    &&& forall|j: int| 0 <= j < i ==> (#[trigger] variants[j]).discriminant != d
}

/// The primitive specifier behind an enumeration of `bits` bits: the first of `B8`, `B16`,
/// `B32` and `B64` that is wide enough.
pub open spec fn primitive_for(bits: nat) -> Primitive {
    if bits <= 8 {
        Primitive::B8
    } else if bits <= 16 {
        Primitive::B16
    } else if bits <= 32 {
        Primitive::B32
    } else {
        Primitive::B64
    }
}

impl Primitive {
    /// How many bits the primitive specifier's bucket has.
    pub open spec fn width(self) -> nat {
        match self {
            Primitive::B8 => 8,
            Primitive::B16 => 16,
            Primitive::B32 => 32,
            Primitive::B64 => 64,
        }
    }

    /// The primitive specifier behind an enumeration of `bits` bits.
    pub fn for_bits(bits: usize) -> (r: Primitive)
        ensures
            r == primitive_for(bits as nat),
    {
        if bits <= 8 {
            Primitive::B8
        } else if bits <= 16 {
            Primitive::B16
        } else if bits <= 32 {
            Primitive::B32
        } else {
            Primitive::B64
        }
    }
}

/// Moving a factor of two from a number into the power of two beside it keeps their product.
proof fn lemma_halve(n: nat, half: nat, e: nat)
    requires
        n == 2 * half,
    ensures
        n * pow2(e) == half * pow2(e + 1),
{
    lemma_pow2_unfold(e + 1);
    let p = pow2(e);
    assert(n * p == half * (2 * p)) by (nonlinear_arith)
        requires
            n == 2 * half,
    ;
}

/// A power of two that fits a `usize` has an exponent below 64.
proof fn lemma_exponent_bound(n: usize, e: nat)
    requires
        pow2(e) <= n,
    ensures
        e < 64,
{
    if e >= 64 {
        lemma2_to64_rest();
        if e > 64 {
            lemma_pow2_strictly_increases(64, e);
        }
    }
}

/// Splits `count` into an odd number and a power of two, and so tells whether `count` is a
/// power of two, and which.
fn log2(count: usize) -> (r: Option<usize>)
    ensures
        r is Some <==> is_pow2(count as int),
        r matches Some(bits) ==> count == pow2(bits as nat) && bits < 64,
{
    if count == 0 {
        reveal(is_pow2);
        return None;
    }
    let mut n = count;
    let mut bits: usize = 0;
    proof {
        lemma2_to64();
        assert(n * pow2(0) == count) by (nonlinear_arith)
            requires
                n == count,
                pow2(0) == 1,
        ;
    }
    while n % 2 == 0
        invariant
            n >= 1,
            bits < 64,
            n * pow2(bits as nat) == count,
            is_pow2(n as int) == is_pow2(count as int),
        decreases n,
    {
        proof {
            reveal(is_pow2);
            lemma_halve(n as nat, (n / 2) as nat, bits as nat);
            lemma_pow2_pos((bits + 1) as nat);
            let p = pow2((bits + 1) as nat);
            let half = (n / 2) as nat;
            assert(p <= half * p) by (nonlinear_arith)
                requires
                    half >= 1,
                    p > 0,
            ;
            lemma_exponent_bound(count, (bits + 1) as nat);
        }
        n = n / 2;
        bits += 1;
    }
    proof {
        reveal(is_pow2);
    }
    if n == 1 {
        assert(1 * pow2(bits as nat) == pow2(bits as nat)) by (nonlinear_arith);
        Some(bits)
    } else {
        None
    }
}

impl EnumSpecifier {
    #[verifier::type_invariant]
    spec fn well_formed(self) -> bool {
        &&& self.bits < 64
        &&& self.variants@.len() == pow2(self.bits as nat)
        &&& forall|i: int|
            0 <= i < self.variants@.len() ==> in_range(
                #[trigger] self.variants@[i],
                self.variants@.len(),
            )
        &&& self.table@.len() == self.variants@.len()
        &&& forall|d: int|
            0 <= d < self.table@.len() ==> match #[trigger] self.table@[d] {
                Some(i) => first_with(self.variants@, d, i as int),
                None => !declared(self.variants@, d),
            }
    }

    /// The name of the enumeration.
    pub closed spec fn ty(self) -> String {
        self.ty
    }

    /// The variants, in declaration order.
    pub closed spec fn variants(self) -> Seq<Variant> {
        self.variants@
    }

    /// How many bits a field of this specifier occupies.
    pub closed spec fn spec_bits(&self) -> usize {
        self.bits
    }

    /// How many bits a field of this specifier occupies: the number of variants is `2^bits`.
    #[verifier::when_used_as_spec(spec_bits)]
    pub fn bits(&self) -> (r: usize)
        ensures
            r == self.bits(),
            r < 64,
            self.variants().len() == pow2(r as nat),
    {
        proof {
            use_type_invariant(self);
        }
        self.bits
    }

    /// How many variants there are.
    pub fn len(&self) -> (r: usize)
        ensures
            r == self.variants().len(),
    {
        self.variants.len()
    }

    /// The primitive specifier that the bucket operations go through.
    pub fn primitive(&self) -> (r: Primitive)
        ensures
            r == primitive_for(self.bits() as nat),
    {
        Primitive::for_bits(self.bits)
    }

    /// The name of a variant.
    pub fn ident(&self, variant: usize) -> (r: &String)
        requires
            variant < self.variants().len(),
        ensures
            *r == self.variants()[variant as int].ident,
    {
        &self.variants[variant].ident
    }

    /// The discriminant of a variant, which lies below the number of variants.
    pub fn discriminant(&self, variant: usize) -> (r: u64)
        requires
            variant < self.variants().len(),
        ensures
            r == self.variants()[variant as int].discriminant,
            r < self.variants().len() == pow2(self.bits() as nat),
    {
        proof {
            use_type_invariant(self);
        }
        self.variants[variant].discriminant as u64
    }

    /// The variant that a discriminant stands for: the first that was declared with it. A
    /// number that no variant has as its discriminant is an error.
    pub fn decode(&self, discriminant: u64) -> (r: Result<usize, DecodeError>)
        ensures
            match r {
                Ok(variant) => first_with(self.variants(), discriminant as int, variant as int),
                Err(e) => !declared(self.variants(), discriminant as int) && e.ty == self.ty()
                    && e.discriminant == discriminant,
            },
    {
        proof {
            use_type_invariant(self);
        }
        if discriminant < self.table.len() as u64 {
            if let Some(variant) = self.table[discriminant as usize] {
                return Ok(variant);
            }
        }
        Err(DecodeError { ty: self.ty.clone(), discriminant })
    }

    /// The variant whose discriminant is 0.
    pub fn empty(&self) -> (r: Result<usize, DecodeError>)
        ensures
            match r {
                Ok(variant) => first_with(self.variants(), 0, variant as int),
                Err(e) => !declared(self.variants(), 0) && e.ty == self.ty() && e.discriminant
                    == 0,
            },
    {
        self.decode(0)
    }

    /// Whether bit `bit` of the discriminant of the variant `bucket` is 1.
    pub fn is_set(&self, bucket: usize, bit: usize) -> (r: bool)
        requires
            bucket < self.variants().len(),
            bit < primitive_for(self.bits() as nat).width(),
        ensures
            r == bit_of(self.variants()[bucket as int].discriminant as nat, bit as nat),
    {
        let val = self.discriminant(bucket);
        proof {
            use_type_invariant(self);
            lemma_fits_primitive(self.bits as nat, val);
        }
        match self.primitive() {
            Primitive::B8 => B8::is_set(&(val as u8), bit),
            Primitive::B16 => B16::is_set(&(val as u16), bit),
            Primitive::B32 => B32::is_set(&(val as u32), bit),
            Primitive::B64 => B64::is_set(&val, bit),
        }
    }

    /// The variant whose discriminant is that of the variant `bucket` with bit `bit` set to 1.
    /// Where no variant has that discriminant, this is an error.
    pub fn set(&self, bucket: usize, bit: usize) -> (r: Result<usize, DecodeError>)
        requires
            bucket < self.variants().len(),
            bit < primitive_for(self.bits() as nat).width(),
        ensures
            ({
                let raised = with_bit(
                    self.variants()[bucket as int].discriminant as nat,
                    bit as nat,
                );
                match r {
                    Ok(variant) => first_with(self.variants(), raised as int, variant as int),
                    Err(e) => !declared(self.variants(), raised as int) && e.ty == self.ty()
                        && e.discriminant == raised,
                }
            }),
    {
        let val = self.discriminant(bucket);
        proof {
            use_type_invariant(self);
            lemma_fits_primitive(self.bits as nat, val);
        }
        let val = match self.primitive() {
            Primitive::B8 => {
                let mut val = val as u8;
                B8::set(&mut val, bit);
                val as u64
            },
            Primitive::B16 => {
                let mut val = val as u16;
                B16::set(&mut val, bit);
                val as u64
            },
            Primitive::B32 => {
                let mut val = val as u32;
                B32::set(&mut val, bit);
                val as u64
            },
            Primitive::B64 => {
                let mut val = val;
                B64::set(&mut val, bit);
                val
            },
        };
        self.decode(val)
    }
}

/// A discriminant of an enumeration of `bits` bits fits the bucket of the primitive specifier
/// that stands behind the enumeration.
pub proof fn lemma_fits_primitive(bits: nat, discriminant: u64)
    requires
        bits < 64,
        discriminant < pow2(bits),
    ensures
        primitive_for(bits) == Primitive::B8 ==> discriminant <= u8::MAX,
        primitive_for(bits) == Primitive::B16 ==> discriminant <= u16::MAX,
        primitive_for(bits) == Primitive::B32 ==> discriminant <= u32::MAX,
{
    let width = primitive_for(bits).width();
    lemma2_to64();
    lemma2_to64_rest();
    if bits < width {
        lemma_pow2_strictly_increases(bits, width);
    }
}

/// Whether no two variants have the same discriminant.
pub open spec fn distinct(variants: Seq<Variant>) -> bool {
    forall|i: int, j: int|
        0 <= i < j < variants.len() ==> (#[trigger] variants[i]).discriminant != (
        #[trigger] variants[j]).discriminant
}

/// Where every discriminant lies below the number of variants and no two variants share one,
/// every number below the number of variants is the discriminant of a variant. The bits of a
/// field of such an enumeration always spell a variant.
pub proof fn lemma_distinct_cover(variants: Seq<Variant>, d: int)
    requires
        forall|i: int| 0 <= i < variants.len() ==> in_range(#[trigger] variants[i], variants.len()),
        distinct(variants),
        0 <= d < variants.len(),
    ensures
        declared(variants, d),
{
    let n = variants.len() as int;
    let indices = set_int_range(0, n);
    let of = |i: int| variants[i].discriminant as int;
    let taken = indices.map(of);
    lemma_int_range(0, n);
    assert(injective_on(of, indices)) by {
        assert forall|i: int, j: int|
            indices.contains(i) && indices.contains(j) && #[trigger] of(i) == #[trigger] of(
                j,
            ) implies i == j by {
            if i < j {
                assert(variants[i].discriminant != variants[j].discriminant);
            } else if j < i {
                assert(variants[j].discriminant != variants[i].discriminant);
            }
        }
    }
    lemma_map_size(indices, taken, of);
    assert(taken.subset_of(indices)) by {
        assert forall|e: int| taken.contains(e) implies indices.contains(e) by {
            let i = choose|i: int| indices.contains(i) && of(i) == e;
            assert(in_range(variants[i], variants.len()));
        }
    }
    lemma_subset_equality(taken, indices);
    assert(taken.contains(d));
    let i = choose|i: int| indices.contains(i) && of(i) == d;
    assert(variants[i].discriminant == d);
}

/// Whether `specifier` is the specifier of the item `input`: the item is an enumeration, the
/// number of its variants is a power of two, which gives the width, and every discriminant
/// lies below the number of variants.
pub open spec fn derived(input: DeriveInput, specifier: EnumSpecifier) -> bool {
    &&& input.data matches Data::Enum(variants)
    &&& specifier.ty() == input.ident
    &&& specifier.variants() == variants@
    &&& is_pow2(variants@.len() as int)
    &&& variants@.len() == pow2(specifier.bits() as nat)
    &&& specifier.bits() < 64
    &&& forall|i: int|
        0 <= i < variants@.len() ==> in_range(#[trigger] variants@[i], variants@.len())
}

/// Whether `e` is the error with which the item `input` is refused. The kind of item is
/// looked at first, then the number of variants, then the discriminants; of these the first
/// that does not lie below the number of variants is the one reported.
pub open spec fn refused(input: DeriveInput, e: Error) -> bool {
    match e {
        Error::Struct => input.data is Struct,
        Error::Union => input.data is Union,
        Error::NotPowerOfTwo => {
            &&& input.data matches Data::Enum(variants)
            &&& !is_pow2(variants@.len() as int)
        },
        Error::OutOfRange { variant, ty } => {
            &&& input.data matches Data::Enum(variants)
            &&& is_pow2(variants@.len() as int)
            &&& ty == input.ident
            &&& exists|k: int|
                #[trigger] first_out_of_range(variants@, k) && variant == variants@[k].ident
        },
        _ => false,
    }
}

/// Derives the specifier of an item, or says in words why the item has none.
pub fn bitfield_specifier(input: DeriveInput) -> (r: Result<EnumSpecifier, String>)
    ensures
        match r {
            Ok(specifier) => derived(input, specifier),
            Err(message) => exists|e: Error| #[trigger] refused(input, e) && message@ == e.text(),
        },
{
    match self::derive(input) {
        Ok(specifier) => Ok(specifier),
        Err(e) => Err(e.message()),
    }
}

/// Derives the specifier of an enumeration. The number of variants must be a power of two,
/// which gives the width, and each discriminant must lie below the number of variants; the
/// first variant whose discriminant does not is the one reported.
pub fn derive(input: DeriveInput) -> (r: Result<EnumSpecifier, Error>)
    ensures
        match r {
            Ok(specifier) => derived(input, specifier),
            Err(e) => refused(input, e),
        },
{
    let DeriveInput { ident, data } = input;
    let variants = match data {
        Data::Struct => {
            return Err(Error::Struct);
        },
        Data::Union => {
            return Err(Error::Union);
        },
        Data::Enum(variants) => variants,
    };
    let len = variants.len();
    let bits = match log2(len) {
        Some(bits) => bits,
        None => {
            return Err(Error::NotPowerOfTwo);
        },
    };
    proof {
        lemma2_to64();
    }
    let mut cur: usize = 0;
    while cur < len
        invariant
            cur <= len == variants@.len(),
            is_pow2(len as int),
            input.data matches Data::Enum(declared) && declared == variants,
            input.ident == ident,
            forall|j: int| 0 <= j < cur ==> in_range(#[trigger] variants@[j], len as nat),
        decreases len - cur,
    {
        let var = &variants[cur];
        if var.discriminant < 0 || var.discriminant as u64 >= len as u64 {
            assert(first_out_of_range(variants@, cur as int));
            let variant = var.ident.clone();
            return Err(Error::OutOfRange { variant, ty: ident });
        }
        cur += 1;
    }
    let mut table: Vec<Option<usize>> = Vec::new();
    let mut d: usize = 0;
    while d < len
        invariant
            d <= len,
            table@.len() == d,
            forall|e: int| 0 <= e < d ==> (#[trigger] table@[e]) is None,
        decreases len - d,
    {
        table.push(None);
        d += 1;
    }
    let mut cur: usize = 0;
    while cur < len
        invariant
            cur <= len == variants@.len() == table@.len(),
            forall|j: int| 0 <= j < len ==> in_range(#[trigger] variants@[j], len as nat),
            forall|d: int|
                0 <= d < len ==> match #[trigger] table@[d] {
                    Some(i) => i < cur && first_with(variants@, d, i as int),
                    None => forall|j: int|
                        0 <= j < cur ==> (#[trigger] variants@[j]).discriminant != d,
                },
        decreases len - cur,
    {
        let d = variants[cur].discriminant as usize;
        if table[d].is_none() {
            table[d] = Some(cur);
        }
        cur += 1;
    }
    Ok(EnumSpecifier { ty: ident, variants, bits, table })
}

} // verus!
