use bitfield::{
    bitfield, byte_size, checked_total_bits, getters, setters, size_check, size_constraint,
    Attribute, Constraint, Error, Field, Fields,
};

fn field(name: &str, ty: &str, bits: usize) -> Field {
    Field { name: name.to_string(), ty: ty.to_string(), bits, constraint: None }
}

fn declared(name: &str, ty: &str, bits: usize, expr: &str, value: usize) -> Field {
    Field {
        name: name.to_string(),
        ty: ty.to_string(),
        bits,
        constraint: Some(Constraint { expr: expr.to_string(), value }),
    }
}

fn collect(fields: &[Field]) -> Fields {
    let mut out = Fields::default();
    for f in fields {
        let attrs = match &f.constraint {
            Some(c) => vec![Attribute { name: "bits".to_string(), value: Some(c.clone()) }],
            None => vec![],
        };
        out.visit_field(f.name.clone(), f.ty.clone(), f.bits, &attrs);
    }
    out
}

#[test]
fn byte_size_is_an_eighth_of_the_widths() {
    assert_eq!(byte_size(&[]), 0);
    assert_eq!(byte_size(&[field("a", "B8", 8)]), 1);
    assert_eq!(byte_size(&[field("a", "bool", 1), field("b", "B7", 7)]), 1);
    assert_eq!(
        byte_size(&[field("a", "B1", 1), field("b", "B3", 3), field("c", "B4", 4), field("d", "B24", 24)]),
        4
    );
    assert_eq!(byte_size(&[field("a", "B64", 64), field("b", "B64", 64)]), 16);
    assert_eq!(byte_size(&[field("a", "B9", 9)]), 1);
}

#[test]
fn checked_total_bits_adds_the_widths() {
    assert_eq!(checked_total_bits(&[]), Some(0));
    assert_eq!(checked_total_bits(&[field("a", "B3", 3), field("b", "B13", 13)]), Some(16));
    assert_eq!(
        checked_total_bits(&[field("a", "?", usize::MAX), field("b", "B1", 1)]),
        None
    );
    assert_eq!(checked_total_bits(&[field("a", "?", usize::MAX)]), Some(usize::MAX));
}

#[test]
fn size_check_accepts_whole_bytes() {
    assert_eq!(size_check("Empty", &[]), Ok(()));
    assert_eq!(size_check("One", &[field("a", "B8", 8)]), Ok(()));
    assert_eq!(size_check("Pair", &[field("a", "bool", 1), field("b", "B7", 7)]), Ok(()));
}

#[test]
fn size_check_names_the_record_that_does_not_fill_its_bytes() {
    let r = size_check("Odd", &[field("a", "bool", 1), field("b", "B6", 6)]);
    assert_eq!(r, Err(Error::DoesNotFillAllBytes { name: "Odd".to_string() }));
    assert_eq!(r.unwrap_err().message(), "Odd does not fill all bytes");
    assert!(size_check("Nine", &[field("a", "B9", 9)]).is_err());
}

#[test]
fn size_constraint_accepts_matching_widths() {
    assert_eq!(size_constraint(&[]), Ok(()));
    assert_eq!(size_constraint(&[field("a", "B3", 3)]), Ok(()));
    assert_eq!(
        size_constraint(&[declared("a", "B3", 3, "3", 3), field("b", "B5", 5), declared("c", "B9", 9, "4 + 5", 9)]),
        Ok(())
    );
}

#[test]
fn size_constraint_names_the_type_and_the_declared_size() {
    let r = size_constraint(&[field("a", "B3", 3), declared("b", "B5", 5, "6", 6)]);
    assert_eq!(r, Err(Error::SizeMismatch { ty: "B5".to_string(), expr: "6".to_string() }));
    assert_eq!(r.unwrap_err().message(), "expected B5 to be of size 6");
}

#[test]
fn size_constraint_reports_the_first_mismatch() {
    let r = size_constraint(&[
        declared("a", "B3", 3, "3", 3),
        declared("b", "B5", 5, "2 + 2", 4),
        declared("c", "B8", 8, "9", 9),
    ]);
    assert_eq!(r, Err(Error::SizeMismatch { ty: "B5".to_string(), expr: "2 + 2".to_string() }));
    assert_eq!(r.unwrap_err().message(), "expected B5 to be of size 2 + 2");
}

#[test]
fn getters_give_each_field_its_name_offset_and_width() {
    let fields = [field("a", "B1", 1), field("b", "B3", 3), field("c", "B4", 4), field("d", "B24", 24)];
    let g = getters(&fields);
    assert_eq!(g.len(), 4);
    let methods: Vec<&str> = g.iter().map(|x| x.method.as_str()).collect();
    assert_eq!(methods, vec!["get_a", "get_b", "get_c", "get_d"]);
    let pads: Vec<usize> = g.iter().map(|x| x.pad).collect();
    assert_eq!(pads, vec![0, 1, 4, 8]);
    let widths: Vec<usize> = g.iter().map(|x| x.bits).collect();
    assert_eq!(widths, vec![1, 3, 4, 24]);
    assert!(getters(&[]).is_empty());
}

#[test]
fn setters_give_each_field_its_name_offset_and_width() {
    let fields = [field("x", "B9", 9), field("y", "bool", 1), field("z", "B6", 6)];
    let s = setters(&fields);
    assert_eq!(s.len(), 3);
    let methods: Vec<&str> = s.iter().map(|x| x.method.as_str()).collect();
    assert_eq!(methods, vec!["set_x", "set_y", "set_z"]);
    let pads: Vec<usize> = s.iter().map(|x| x.pad).collect();
    assert_eq!(pads, vec![0, 9, 10]);
    let widths: Vec<usize> = s.iter().map(|x| x.bits).collect();
    assert_eq!(widths, vec![9, 1, 6]);
    assert!(setters(&[]).is_empty());
}

#[test]
fn visit_field_takes_the_width_from_the_first_bits_attribute() {
    let nine = Constraint { expr: "9".to_string(), value: 9 };
    let ten = Constraint { expr: "10".to_string(), value: 10 };
    let mut fields = Fields::default();
    assert_eq!(fields.len(), 0);
    fields.visit_field("a".to_string(), "B9".to_string(), 9, &[]);
    fields.visit_field(
        "b".to_string(),
        "B9".to_string(),
        9,
        &[
            Attribute { name: "doc".to_string(), value: Some(ten.clone()) },
            Attribute { name: "bits".to_string(), value: Some(nine.clone()) },
            Attribute { name: "bits".to_string(), value: Some(ten.clone()) },
        ],
    );
    fields.visit_field(
        "c".to_string(),
        "B9".to_string(),
        9,
        &[
            Attribute { name: "bits".to_string(), value: None },
            Attribute { name: "bits".to_string(), value: Some(nine.clone()) },
        ],
    );
    assert_eq!(fields.len(), 3);
    let seen = fields.as_ref();
    assert_eq!(seen[0], field("a", "B9", 9));
    assert_eq!(seen[1], declared("b", "B9", 9, "9", 9));
    assert_eq!(seen[2], field("c", "B9", 9));
}

#[test]
fn bitfield_lays_out_fields_that_fill_whole_bytes() {
    let layout = bitfield("Pair", collect(&[field("a", "bool", 1), field("b", "B7", 7)])).unwrap();
    assert_eq!(layout.byte_size(), 1);
    assert_eq!(layout.len(), 2);
    assert_eq!(layout.field(1), &field("b", "B7", 7));
    assert_eq!(layout.getter(1).method, "get_b");
    assert_eq!(layout.getter(1).pad, 1);
    assert_eq!(layout.getter(1).bits, 7);
    assert_eq!(layout.setter(0).method, "set_a");
    assert_eq!(layout.setter(0).pad, 0);
    assert_eq!(layout.setter(0).bits, 1);
}

#[test]
fn bitfield_accepts_no_fields() {
    let layout = bitfield("Unit", Fields::default()).unwrap();
    assert_eq!(layout.byte_size(), 0);
    assert_eq!(layout.len(), 0);
}

#[test]
fn bitfield_refuses_fields_that_do_not_fill_whole_bytes() {
    let r = bitfield("Short", collect(&[field("a", "B3", 3), field("b", "B4", 4)]));
    let e = r.unwrap_err();
    assert_eq!(e, Error::DoesNotFillAllBytes { name: "Short".to_string() });
    assert_eq!(e.message(), "Short does not fill all bytes");
}

#[test]
fn bitfield_refuses_a_width_that_was_declared_otherwise() {
    let r = bitfield("Wrong", collect(&[declared("a", "B3", 3, "4", 4), field("b", "B5", 5)]));
    let e = r.unwrap_err();
    assert_eq!(e, Error::SizeMismatch { ty: "B3".to_string(), expr: "4".to_string() });
    assert_eq!(e.message(), "expected B3 to be of size 4");
}

#[test]
fn bitfield_reports_unfilled_bytes_before_a_declared_width() {
    let r = bitfield("Both", collect(&[declared("a", "B3", 3, "4", 4), field("b", "B4", 4)]));
    assert_eq!(r.unwrap_err().message(), "Both does not fill all bytes");
}

#[test]
fn fields_read_as_a_slice() {
    let fields = collect(&[field("a", "B3", 3), field("b", "B5", 5)]);
    assert_eq!(fields.len(), 2);
    assert_eq!(fields[1], field("b", "B5", 5));
    let names: Vec<&str> = fields.iter().map(|f| f.name.as_str()).collect();
    assert_eq!(names, vec!["a", "b"]);
    let slice: &[Field] = fields.as_ref();
    assert_eq!(slice.len(), 2);
    assert_eq!(byte_size(&fields), 1);
}
