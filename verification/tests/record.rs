use bitfield::{
    bitfield, Data, DecodeError, DeriveInput, EnumSpecifier, Field, Fields, Layout, PackedRecord,
    Specifier, Variant, B12, B24, B3, B4, B5, B64, B7, B9,
};

fn layout(name: &str, fields: &[(&str, &str, usize)]) -> Layout {
    let mut list = Fields::default();
    for (field, ty, bits) in fields {
        list.visit_field(field.to_string(), ty.to_string(), *bits, &[]);
    }
    bitfield(name, list).unwrap()
}

fn enumeration(ident: &str, variants: &[(&str, i64)]) -> EnumSpecifier {
    let variants = variants
        .iter()
        .map(|(ident, discriminant)| Variant { ident: ident.to_string(), discriminant: *discriminant })
        .collect();
    let input = DeriveInput { ident: ident.to_string(), data: Data::Enum(variants) };
    bitfield::bitfield_specifier::derive(input).unwrap()
}

#[test]
fn two_fields_in_one_byte() {
    let pair = layout("Pair", &[("a", "bool", 1), ("b", "B7", 7)]);
    let mut record = PackedRecord::new(&pair);
    record.set::<bool>(0, true);
    record.set::<B7>(1, 5);
    assert_eq!(record.as_bytes(), &[0b1010_0001]);
    assert_eq!(record.as_bytes()[0], 161);
    assert_eq!(record.get::<bool>(0), true);
    assert_eq!(record.get::<B7>(1), 5);
}

#[test]
fn a_new_record_is_all_zero() {
    let l = layout("Wide", &[("a", "B3", 3), ("b", "B64", 64), ("c", "B5", 5)]);
    let record = PackedRecord::new(&l);
    assert_eq!(record.as_bytes(), &[0u8; 9]);
    assert_eq!(record.get::<B3>(0), 0);
    assert_eq!(record.get::<B64>(1), 0);
    assert_eq!(record.get::<B5>(2), 0);
}

#[test]
fn a_record_has_as_many_bytes_as_its_layout_asks_for() {
    let l = layout("Four", &[("a", "B1", 1), ("b", "B3", 3), ("c", "B4", 4), ("d", "B24", 24)]);
    assert_eq!(l.byte_size(), 4);
    let mut record = PackedRecord::new(&l);
    assert_eq!(record.as_bytes().len(), 4);
    record.set::<B24>(3, 0xFF_FFFF);
    record.set::<B3>(1, 7);
    assert_eq!(record.as_bytes().len(), 4);
    let none = layout("None", &[]);
    assert_eq!(PackedRecord::new(&none).as_bytes().len(), 0);
}

#[test]
fn setting_one_field_leaves_the_others_zero() {
    let fields = [("a", "B3", 3), ("b", "B9", 9), ("c", "B4", 4), ("d", "B12", 12), ("e", "B4", 4)];
    let l = layout("Five", &fields);
    let all_ones = [0b111u64, 0x1FF, 0xF, 0xFFF, 0xF];
    let read = |record: &PackedRecord, k: usize| -> u64 {
        match k {
            0 => record.get::<B3>(0) as u64,
            1 => record.get::<B9>(1) as u64,
            2 => record.get::<B4>(2) as u64,
            3 => record.get::<B12>(3) as u64,
            _ => record.get::<B4>(4) as u64,
        }
    };
    for k in 0..fields.len() {
        let mut record = PackedRecord::new(&l);
        match k {
            0 => record.set::<B3>(0, 0b111),
            1 => record.set::<B9>(1, 0x1FF),
            2 => record.set::<B4>(2, 0xF),
            3 => record.set::<B12>(3, 0xFFF),
            _ => record.set::<B4>(4, 0xF),
        }
        for j in 0..fields.len() {
            let want = if j == k { all_ones[k] } else { 0 };
            assert_eq!(read(&record, j), want, "field {} after setting field {}", j, k);
        }
    }
}

#[test]
fn setting_one_field_leaves_the_others_as_they_were() {
    let l = layout("Mixed", &[("a", "B5", 5), ("b", "B12", 12), ("c", "B7", 7)]);
    let mut record = PackedRecord::new(&l);
    record.set::<B5>(0, 0b10101);
    record.set::<B12>(1, 0xABC);
    record.set::<B7>(2, 0b1100110);
    record.set::<B12>(1, 0x123);
    assert_eq!(record.get::<B5>(0), 0b10101);
    assert_eq!(record.get::<B12>(1), 0x123);
    assert_eq!(record.get::<B7>(2), 0b1100110);
    record.set::<B12>(1, 0);
    assert_eq!(record.get::<B5>(0), 0b10101);
    assert_eq!(record.get::<B12>(1), 0);
    assert_eq!(record.get::<B7>(2), 0b1100110);
}

#[test]
fn fields_lie_in_declaration_order() {
    let l = layout("Order", &[("a", "B4", 4), ("b", "B4", 4), ("c", "B24", 24)]);
    let mut record = PackedRecord::new(&l);
    record.set::<B4>(0, 0b1000);
    assert_eq!(record.as_bytes(), &[0b0000_0001, 0, 0, 0]);
    record.set::<B4>(1, 0b0001);
    assert_eq!(record.as_bytes(), &[0b1000_0001, 0, 0, 0]);
    record.set::<B24>(2, 1);
    assert_eq!(record.as_bytes(), &[0b1000_0001, 0, 0, 0b1000_0000]);
}

#[test]
fn an_enumeration_field_is_read_and_written_as_a_variant() {
    let mode = enumeration("Mode", &[("Off", 2), ("On", 0), ("Auto", 3), ("Eco", 1)]);
    let l = layout("Device", &[("id", "B5", 5), ("mode", "Mode", 2), ("on", "bool", 1)]);
    let mut record = PackedRecord::new(&l);
    assert_eq!(record.get_enum(1, &mode), Ok(1));
    record.set::<B5>(0, 0b11111);
    record.set::<bool>(2, true);
    for variant in 0..4 {
        record.set_enum(1, &mode, variant);
        assert_eq!(record.get_enum(1, &mode), Ok(variant));
        assert_eq!(record.get::<B5>(0), 0b11111);
        assert_eq!(record.get::<bool>(2), true);
    }
    record.set_enum(1, &mode, 0);
    // The discriminant of `Off` is 2: its high bit comes first, at bit 5.
    assert_eq!(record.as_bytes(), &[0b1011_1111]);
}

#[test]
fn bits_that_spell_no_variant_are_a_decode_error() {
    let twice = enumeration("Twice", &[("A", 0), ("B", 0), ("C", 3), ("D", 3)]);
    let l = layout("Holder", &[("pad", "B3", 3), ("t", "Twice", 2), ("rest", "B3", 3)]);
    let mut record = PackedRecord::new(&l);
    assert_eq!(record.get_enum(1, &twice), Ok(0));
    record.set::<bitfield::B2>(1, 1);
    assert_eq!(
        record.get_enum(1, &twice),
        Err(DecodeError { ty: "Twice".to_string(), discriminant: 1 })
    );
    record.set::<bitfield::B2>(1, 2);
    assert_eq!(
        record.get_enum(1, &twice),
        Err(DecodeError { ty: "Twice".to_string(), discriminant: 2 })
    );
    record.set::<bitfield::B2>(1, 3);
    assert_eq!(record.get_enum(1, &twice), Ok(2));
    record.set_enum(1, &twice, 1);
    assert_eq!(record.get_enum(1, &twice), Ok(0));
}

#[test]
fn a_wide_enumeration_field_uses_a_wide_primitive() {
    let variants: Vec<(String, i64)> = (0..512).map(|i| (format!("V{}", i), i as i64)).collect();
    let borrowed: Vec<(&str, i64)> = variants.iter().map(|(n, d)| (n.as_str(), *d)).collect();
    let wide = enumeration("Wide", &borrowed);
    let l = layout("Holder", &[("a", "B3", 3), ("w", "Wide", 9), ("b", "B4", 4)]);
    let mut record = PackedRecord::new(&l);
    for variant in [0usize, 1, 255, 256, 300, 511] {
        record.set_enum(1, &wide, variant);
        assert_eq!(record.get_enum(1, &wide), Ok(variant));
        assert_eq!(record.get::<B9>(1), variant as u16);
        assert_eq!(record.get::<B3>(0), 0);
        assert_eq!(record.get::<B4>(2), 0);
    }
}

#[test]
fn a_field_is_found_by_the_name_of_its_accessor() {
    let l = layout("Pair", &[("a", "bool", 1), ("b", "B7", 7)]);
    let names: Vec<String> = (0..l.len()).map(|k| l.getter(k).method.clone()).collect();
    assert_eq!(names, vec!["get_a", "get_b"]);
    let k = names.iter().position(|n| n == "get_b").unwrap();
    let mut record = PackedRecord::new(&l);
    record.set::<B7>(k, <B7 as Specifier>::empty() | 0x7F);
    assert_eq!(record.get::<B7>(k), 0x7F);
    assert_eq!(l.field(k), &Field { name: "b".into(), ty: "B7".into(), bits: 7, constraint: None });
}

#[test]
fn a_field_of_no_bits_takes_no_room() {
    let only = enumeration("Only", &[("A", 0)]);
    let l = layout("Holder", &[("a", "B4", 4), ("o", "Only", 0), ("b", "B4", 4)]);
    assert_eq!(l.byte_size(), 1);
    assert_eq!(l.getter(1).pad, 4);
    assert_eq!(l.getter(2).pad, 4);
    let mut record = PackedRecord::new(&l);
    record.set::<B4>(0, 0xF);
    record.set::<B4>(2, 0xF);
    assert_eq!(record.get_enum(1, &only), Ok(0));
    record.set_enum(1, &only, 0);
    assert_eq!(record.as_bytes(), &[0xFF]);
}
