use fat_pointer_hack::{Metadata, Tag};

#[test]
fn usize_pack_is_identity() {
    assert_eq!(9001usize.pack().0, 9001);
    assert_eq!(<usize as Metadata>::unpack(Tag(1337)), 1337);
}

#[test]
fn usize_round_trip_edges() {
    for v in [0usize, 1, 9001, usize::MAX] {
        assert_eq!(<usize as Metadata>::unpack(v.pack()), v);
    }
}

#[test]
fn u32_round_trip_edges() {
    for v in [0u32, 7, 0x8000_0000, u32::MAX] {
        assert_eq!(v.pack().0, v as usize);
        assert_eq!(<u32 as Metadata>::unpack(v.pack()), v);
    }
}

#[test]
fn char_packs_to_its_code_point() {
    assert_eq!('♥'.pack().0, 0x2665);
    assert_eq!('A'.pack().0, 65);
    assert_eq!('\u{10FFFF}'.pack().0, 0x10FFFF);
}

#[test]
fn char_unpacks_from_its_code_point() {
    assert_eq!(<char as Metadata>::unpack(Tag(0x2665)), '♥');
    assert_eq!(<char as Metadata>::unpack(Tag(0)), '\0');
    assert_eq!(<char as Metadata>::unpack(Tag(0xE000)), '\u{E000}');
}

#[test]
fn char_round_trip_edges() {
    for c in ['\0', 'a', '♥', '\u{D7FF}', '\u{E000}', '\u{10FFFF}'] {
        assert_eq!(<char as Metadata>::unpack(c.pack()), c);
    }
}

#[test]
fn float_bits_round_trip_exactly() {
    let values = [
        0.9f32,
        0.0f32,
        -0.0f32,
        f32::INFINITY,
        f32::NEG_INFINITY,
        f32::NAN,
        f32::from_bits(0x7FC0_1234),
    ];
    for f in values {
        let back = f32::from_bits(<u32 as Metadata>::unpack(f.to_bits().pack()));
        assert_eq!(back.to_bits(), f.to_bits());
    }
    assert!(f32::from_bits(<u32 as Metadata>::unpack(f32::NAN.to_bits().pack())).is_nan());
    assert!(f32::from_bits(<u32 as Metadata>::unpack((-0.0f32).to_bits().pack())).is_sign_negative());
}

#[test]
fn packing_is_injective_on_samples() {
    assert_ne!('a'.pack().0, 'b'.pack().0);
    assert_ne!(1u32.pack().0, 2u32.pack().0);
    assert_ne!(0usize.pack().0, usize::MAX.pack().0);
}
