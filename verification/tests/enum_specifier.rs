use bitfield::{
    bitfield_specifier, Data, DecodeError, DeriveInput, EnumSpecifier, Error, Primitive, Variant,
};

fn variant(ident: &str, discriminant: i64) -> Variant {
    Variant { ident: ident.to_string(), discriminant }
}

fn input(ident: &str, variants: Vec<Variant>) -> DeriveInput {
    DeriveInput { ident: ident.to_string(), data: Data::Enum(variants) }
}

fn positional(ident: &str, count: usize) -> DeriveInput {
    let variants = (0..count).map(|i| variant(&format!("V{}", i), i as i64)).collect();
    input(ident, variants)
}

fn derived(input: DeriveInput) -> EnumSpecifier {
    bitfield::bitfield_specifier::derive(input).unwrap()
}

fn refused(input: DeriveInput) -> Error {
    bitfield::bitfield_specifier::derive(input).unwrap_err()
}

#[test]
fn three_variants_are_not_a_power_of_two() {
    let e = refused(positional("Trio", 3));
    assert_eq!(e, Error::NotPowerOfTwo);
    assert_eq!(
        e.message(),
        "BitfieldSpecifier expected a number of variants which is a power of 2"
    );
}

#[test]
fn four_variants_take_two_bits() {
    let s = derived(positional("Quad", 4));
    assert_eq!(s.bits(), 2);
    assert_eq!(s.len(), 4);
}

#[test]
fn the_width_is_the_logarithm_of_the_number_of_variants() {
    assert_eq!(derived(positional("E", 2)).bits(), 1);
    assert_eq!(derived(positional("E", 8)).bits(), 3);
    assert_eq!(derived(positional("E", 256)).bits(), 8);
    assert_eq!(derived(positional("E", 512)).bits(), 9);
    assert_eq!(derived(positional("E", 1 << 17)).bits(), 17);
}

#[test]
fn numbers_of_variants_that_are_no_power_of_two_are_refused() {
    for count in [0usize, 3, 5, 6, 7, 9, 12, 255, 257, 1000] {
        assert_eq!(refused(positional("E", count)), Error::NotPowerOfTwo, "{}", count);
    }
}

#[test]
fn a_discriminant_out_of_range_names_its_variant() {
    let e = refused(input(
        "Mode",
        vec![variant("Off", 0), variant("On", 1), variant("Auto", 4), variant("Eco", 3)],
    ));
    assert_eq!(e, Error::OutOfRange { variant: "Auto".to_string(), ty: "Mode".to_string() });
    assert_eq!(e.message(), "Auto is out of range for type Mode");
}

#[test]
fn the_first_discriminant_out_of_range_is_reported() {
    let e = refused(input(
        "Mode",
        vec![variant("Off", 0), variant("On", 9), variant("Auto", 4), variant("Eco", 3)],
    ));
    assert_eq!(e.message(), "On is out of range for type Mode");
}

#[test]
fn a_negative_discriminant_is_out_of_range() {
    let e = refused(input("Sign", vec![variant("Minus", -1), variant("Plus", 1)]));
    assert_eq!(e.message(), "Minus is out of range for type Sign");
}

#[test]
fn a_discriminant_equal_to_the_number_of_variants_is_out_of_range() {
    let e = refused(input("Bit", vec![variant("Zero", 0), variant("Two", 2)]));
    assert_eq!(e.message(), "Two is out of range for type Bit");
    let s = derived(input("Bit", vec![variant("One", 1), variant("Zero", 0)]));
    assert_eq!(s.bits(), 1);
}

#[test]
fn the_number_of_variants_is_checked_before_the_discriminants() {
    let e = refused(input("Trio", vec![variant("A", 0), variant("B", 7), variant("C", 2)]));
    assert_eq!(e, Error::NotPowerOfTwo);
}

#[test]
fn structs_are_not_supported() {
    let e = refused(DeriveInput { ident: "S".to_string(), data: Data::Struct });
    assert_eq!(e, Error::Struct);
    assert_eq!(e.message(), "BitfieldSpecifier does not support structs");
}

#[test]
fn unions_are_not_supported() {
    let e = refused(DeriveInput { ident: "U".to_string(), data: Data::Union });
    assert_eq!(e, Error::Union);
    assert_eq!(e.message(), "BitfieldSpecifier does not support unions");
}

#[test]
fn variants_and_discriminants_map_both_ways() {
    let s = derived(input(
        "Mode",
        vec![variant("Off", 2), variant("On", 0), variant("Auto", 3), variant("Eco", 1)],
    ));
    assert_eq!(s.ident(0), "Off");
    assert_eq!(s.ident(3), "Eco");
    assert_eq!(s.discriminant(0), 2);
    assert_eq!(s.discriminant(1), 0);
    assert_eq!(s.discriminant(2), 3);
    assert_eq!(s.discriminant(3), 1);
    assert_eq!(s.decode(0), Ok(1));
    assert_eq!(s.decode(1), Ok(3));
    assert_eq!(s.decode(2), Ok(0));
    assert_eq!(s.decode(3), Ok(2));
    assert_eq!(s.decode(4), Err(DecodeError { ty: "Mode".to_string(), discriminant: 4 }));
    assert_eq!(
        s.decode(u64::MAX),
        Err(DecodeError { ty: "Mode".to_string(), discriminant: u64::MAX })
    );
}

#[test]
fn empty_is_the_variant_with_discriminant_zero() {
    let s = derived(input(
        "Mode",
        vec![variant("Off", 2), variant("On", 0), variant("Auto", 3), variant("Eco", 1)],
    ));
    assert_eq!(s.empty(), Ok(1));
    assert_eq!(derived(positional("E", 8)).empty(), Ok(0));
}

#[test]
fn is_set_reads_the_bits_of_the_discriminant() {
    let s = derived(input(
        "Mode",
        vec![variant("Off", 2), variant("On", 0), variant("Auto", 3), variant("Eco", 1)],
    ));
    assert!(!s.is_set(0, 0));
    assert!(s.is_set(0, 1));
    assert!(!s.is_set(1, 0));
    assert!(!s.is_set(1, 1));
    assert!(s.is_set(2, 0));
    assert!(s.is_set(2, 1));
    assert!(s.is_set(3, 0));
    assert!(!s.is_set(3, 1));
    assert!(!s.is_set(2, 7));
}

#[test]
fn set_moves_to_the_variant_with_the_bit_raised() {
    let s = derived(input(
        "Mode",
        vec![variant("Off", 2), variant("On", 0), variant("Auto", 3), variant("Eco", 1)],
    ));
    assert_eq!(s.set(1, 0), Ok(3));
    assert_eq!(s.set(1, 1), Ok(0));
    assert_eq!(s.set(0, 0), Ok(2));
    assert_eq!(s.set(0, 1), Ok(0));
    assert_eq!(s.set(2, 0), Ok(2));
}

#[test]
fn a_discriminant_declared_twice_stands_for_its_first_variant() {
    let s = derived(input(
        "Twice",
        vec![variant("A", 0), variant("B", 0), variant("C", 3), variant("D", 3)],
    ));
    assert_eq!(s.bits(), 2);
    assert_eq!(s.decode(0), Ok(0));
    assert_eq!(s.decode(3), Ok(2));
    assert_eq!(s.empty(), Ok(0));
}

#[test]
fn a_discriminant_that_no_variant_has_is_a_decode_error() {
    let s = derived(input(
        "Twice",
        vec![variant("A", 0), variant("B", 0), variant("C", 3), variant("D", 3)],
    ));
    assert_eq!(s.decode(1), Err(DecodeError { ty: "Twice".to_string(), discriminant: 1 }));
    assert_eq!(s.decode(2), Err(DecodeError { ty: "Twice".to_string(), discriminant: 2 }));
    assert_eq!(s.set(0, 0), Err(DecodeError { ty: "Twice".to_string(), discriminant: 1 }));
    assert_eq!(s.set(1, 1), Err(DecodeError { ty: "Twice".to_string(), discriminant: 2 }));
    assert_eq!(s.set(2, 1), Ok(2));
    let none = derived(input("NoZero", vec![variant("A", 1), variant("B", 1)]));
    assert_eq!(none.empty(), Err(DecodeError { ty: "NoZero".to_string(), discriminant: 0 }));
}

#[test]
fn the_primitive_is_the_narrowest_that_holds_the_width() {
    assert_eq!(Primitive::for_bits(1), Primitive::B8);
    assert_eq!(Primitive::for_bits(8), Primitive::B8);
    assert_eq!(Primitive::for_bits(9), Primitive::B16);
    assert_eq!(Primitive::for_bits(16), Primitive::B16);
    assert_eq!(Primitive::for_bits(17), Primitive::B32);
    assert_eq!(Primitive::for_bits(32), Primitive::B32);
    assert_eq!(Primitive::for_bits(33), Primitive::B64);
    assert_eq!(Primitive::for_bits(64), Primitive::B64);
    assert_eq!(derived(positional("E", 4)).primitive(), Primitive::B8);
    assert_eq!(derived(positional("E", 256)).primitive(), Primitive::B8);
    assert_eq!(derived(positional("E", 512)).primitive(), Primitive::B16);
    assert_eq!(derived(positional("E", 1 << 17)).primitive(), Primitive::B32);
}

#[test]
fn wide_enumerations_use_every_bit_of_their_discriminants() {
    let s = derived(positional("Wide", 512));
    assert!(s.is_set(256, 8));
    assert!(!s.is_set(255, 8));
    assert_eq!(s.set(1, 8), Ok(257));
    assert_eq!(s.set(0, 15), Err(DecodeError { ty: "Wide".to_string(), discriminant: 1 << 15 }));
    let t = derived(positional("Wider", 1 << 17));
    assert!(t.is_set(1 << 16, 16));
    assert_eq!(t.set(5, 16), Ok((1 << 16) + 5));
    assert_eq!(t.decode((1 << 17) - 1), Ok((1 << 17) - 1));
}

#[test]
fn one_variant_takes_no_bits() {
    let s = derived(positional("Only", 1));
    assert_eq!(s.bits(), 0);
    assert_eq!(s.len(), 1);
    assert_eq!(s.primitive(), Primitive::B8);
    assert_eq!(s.empty(), Ok(0));
    assert_eq!(s.decode(1), Err(DecodeError { ty: "Only".to_string(), discriminant: 1 }));
    let e = refused(input("Only", vec![variant("A", 1)]));
    assert_eq!(e.message(), "A is out of range for type Only");
}

#[test]
fn bitfield_specifier_says_in_words_why_an_item_is_refused() {
    assert_eq!(bitfield_specifier(positional("Quad", 4)).unwrap().bits(), 2);
    assert_eq!(
        bitfield_specifier(positional("Trio", 3)).unwrap_err(),
        "BitfieldSpecifier expected a number of variants which is a power of 2"
    );
    assert_eq!(
        bitfield_specifier(DeriveInput { ident: "S".to_string(), data: Data::Struct }).unwrap_err(),
        "BitfieldSpecifier does not support structs"
    );
    assert_eq!(
        bitfield_specifier(DeriveInput { ident: "U".to_string(), data: Data::Union }).unwrap_err(),
        "BitfieldSpecifier does not support unions"
    );
    assert_eq!(
        bitfield_specifier(input("Bit", vec![variant("Zero", 0), variant("Two", 2)])).unwrap_err(),
        "Two is out of range for type Bit"
    );
}
