use bitfield::{
    Getter, Setter, Specifier, B1, B10, B11, B12, B13, B14, B15, B16, B17, B18, B19, B2, B20, B21,
    B22, B23, B24, B25, B26, B27, B28, B29, B3, B30, B31, B32, B33, B34, B35, B36, B37, B38, B39,
    B4, B40, B41, B42, B43, B44, B45, B46, B47, B48, B49, B5, B50, B51, B52, B53, B54, B55, B56,
    B57, B58, B59, B6, B60, B61, B62, B63, B64, B7, B8, B9,
};

/// Some numbers below `2^bits`: the smallest, the largest and a few patterns between.
fn samples(bits: usize) -> Vec<u64> {
    let max = if bits == 64 { u64::MAX } else { (1u64 << bits) - 1 };
    let mut out = vec![0, 1, max, max >> 1, max ^ (max >> 1)];
    out.push(0xAAAA_AAAA_AAAA_AAAA & max);
    out.push(0x5555_5555_5555_5555 & max);
    out.push(0x0123_4567_89AB_CDEF & max);
    if bits <= 10 {
        out.extend(0..=max);
    }
    out
}

/// Writes each sample at several offsets into a buffer of ones and of zeros, reads it back,
/// and checks that the bits around the field are as before.
fn check<S: Specifier>(make: fn(u64) -> S::Bucket, take: fn(S::Bucket) -> u64) {
    let bits = S::BITS;
    for pad in [0usize, 1, 3, 7, 8, 13] {
        let getter = Getter { method: String::from("get_x"), pad, bits };
        let setter = Setter { method: String::from("set_x"), pad, bits };
        for fill in [0x00u8, 0xFF] {
            for v in samples(bits) {
                let mut data = vec![fill; 11];
                setter.set::<S>(&mut data, make(v));
                assert_eq!(take(getter.get::<S>(&data)), v, "B{} at {}", bits, pad);
                for i in 0..data.len() * 8 {
                    if i < pad || i >= pad + bits {
                        let bit = data[i / 8] & (1 << (i % 8)) != 0;
                        assert_eq!(bit, fill == 0xFF, "bit {} beside B{} at {}", i, bits, pad);
                    }
                }
            }
        }
    }
}

fn to_u8(v: u64) -> u8 {
    v as u8
}

fn from_u8(v: u8) -> u64 {
    v as u64
}

fn to_u16(v: u64) -> u16 {
    v as u16
}

fn from_u16(v: u16) -> u64 {
    v as u64
}

fn to_u32(v: u64) -> u32 {
    v as u32
}

fn from_u32(v: u32) -> u64 {
    v as u64
}

fn same(v: u64) -> u64 {
    v
}

#[test]
fn bool_round_trips() {
    for pad in [0usize, 5, 8, 15] {
        let getter = Getter { method: String::from("get_x"), pad, bits: 1 };
        let setter = Setter { method: String::from("set_x"), pad, bits: 1 };
        for fill in [0x00u8, 0xFF] {
            for v in [false, true] {
                let mut data = vec![fill; 2];
                setter.set::<bool>(&mut data, v);
                assert_eq!(getter.get::<bool>(&data), v);
                let mut want = vec![fill; 2];
                if v {
                    want[pad / 8] |= 1 << (pad % 8);
                } else {
                    want[pad / 8] &= !(1 << (pad % 8));
                }
                assert_eq!(data, want);
            }
        }
    }
}

#[test]
fn widths_1_to_8_round_trip() {
    check::<B1>(to_u8, from_u8);
    check::<B2>(to_u8, from_u8);
    check::<B3>(to_u8, from_u8);
    check::<B4>(to_u8, from_u8);
    check::<B5>(to_u8, from_u8);
    check::<B6>(to_u8, from_u8);
    check::<B7>(to_u8, from_u8);
    check::<B8>(to_u8, from_u8);
}

#[test]
fn widths_9_to_16_round_trip() {
    check::<B9>(to_u16, from_u16);
    check::<B10>(to_u16, from_u16);
    check::<B11>(to_u16, from_u16);
    check::<B12>(to_u16, from_u16);
    check::<B13>(to_u16, from_u16);
    check::<B14>(to_u16, from_u16);
    check::<B15>(to_u16, from_u16);
    check::<B16>(to_u16, from_u16);
}

#[test]
fn widths_17_to_32_round_trip() {
    check::<B17>(to_u32, from_u32);
    check::<B18>(to_u32, from_u32);
    check::<B19>(to_u32, from_u32);
    check::<B20>(to_u32, from_u32);
    check::<B21>(to_u32, from_u32);
    check::<B22>(to_u32, from_u32);
    check::<B23>(to_u32, from_u32);
    check::<B24>(to_u32, from_u32);
    check::<B25>(to_u32, from_u32);
    check::<B26>(to_u32, from_u32);
    check::<B27>(to_u32, from_u32);
    check::<B28>(to_u32, from_u32);
    check::<B29>(to_u32, from_u32);
    check::<B30>(to_u32, from_u32);
    check::<B31>(to_u32, from_u32);
    check::<B32>(to_u32, from_u32);
}

#[test]
fn widths_33_to_48_round_trip() {
    check::<B33>(same, same);
    check::<B34>(same, same);
    check::<B35>(same, same);
    check::<B36>(same, same);
    check::<B37>(same, same);
    check::<B38>(same, same);
    check::<B39>(same, same);
    check::<B40>(same, same);
    check::<B41>(same, same);
    check::<B42>(same, same);
    check::<B43>(same, same);
    check::<B44>(same, same);
    check::<B45>(same, same);
    check::<B46>(same, same);
    check::<B47>(same, same);
    check::<B48>(same, same);
}

#[test]
fn widths_49_to_64_round_trip() {
    check::<B49>(same, same);
    check::<B50>(same, same);
    check::<B51>(same, same);
    check::<B52>(same, same);
    check::<B53>(same, same);
    check::<B54>(same, same);
    check::<B55>(same, same);
    check::<B56>(same, same);
    check::<B57>(same, same);
    check::<B58>(same, same);
    check::<B59>(same, same);
    check::<B60>(same, same);
    check::<B61>(same, same);
    check::<B62>(same, same);
    check::<B63>(same, same);
    check::<B64>(same, same);
}

#[test]
fn a_value_too_wide_for_the_field_loses_its_high_bits() {
    let getter = Getter { method: String::from("get_x"), pad: 2, bits: 3 };
    let setter = Setter { method: String::from("set_x"), pad: 2, bits: 3 };
    let mut data = vec![0u8; 1];
    setter.set::<B3>(&mut data, 0b1111_1010);
    assert_eq!(getter.get::<B3>(&data), 0b010);
    assert_eq!(data, vec![0b0000_1000]);
}

#[test]
fn the_first_bit_of_a_field_is_the_most_significant() {
    let setter = Setter { method: String::from("set_x"), pad: 0, bits: 4 };
    let mut data = vec![0u8; 1];
    setter.set::<B4>(&mut data, 0b1000);
    assert_eq!(data, vec![0b0000_0001]);
    setter.set::<B4>(&mut data, 0b0001);
    assert_eq!(data, vec![0b0000_1000]);
    setter.set::<B4>(&mut data, 0b0011);
    assert_eq!(data, vec![0b0000_1100]);
}

#[test]
fn a_field_may_span_bytes() {
    let getter = Getter { method: String::from("get_x"), pad: 6, bits: 5 };
    let setter = Setter { method: String::from("set_x"), pad: 6, bits: 5 };
    let mut data = vec![0u8; 2];
    setter.set::<B5>(&mut data, 0b10011);
    // Bits 6 and 7 of byte 0 take the two highest bits, bits 0 to 2 of byte 1 the rest.
    assert_eq!(data, vec![0b0100_0000, 0b0000_0110]);
    assert_eq!(getter.get::<B5>(&data), 0b10011);
}

#[test]
fn writing_clears_what_was_set_before() {
    let getter = Getter { method: String::from("get_x"), pad: 4, bits: 8 };
    let setter = Setter { method: String::from("set_x"), pad: 4, bits: 8 };
    let mut data = vec![0u8; 2];
    setter.set::<B8>(&mut data, 0xFF);
    assert_eq!(data, vec![0xF0, 0x0F]);
    setter.set::<B8>(&mut data, 0x00);
    assert_eq!(data, vec![0x00, 0x00]);
    setter.set::<B8>(&mut data, 0x81);
    assert_eq!(getter.get::<B8>(&data), 0x81);
    assert_eq!(data, vec![0x10, 0x08]);
}
