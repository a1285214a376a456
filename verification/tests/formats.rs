use vulkan_rs::format::Format;

#[test]
fn core_formats_have_their_codes() {
    assert_eq!(Format::Undefined.raw(), 0);
    assert_eq!(Format::R4g4UnormPack8.raw(), 1);
    assert_eq!(Format::R8g8b8a8Unorm.raw(), 37);
    assert_eq!(Format::B8g8r8a8Srgb.raw(), 50);
    assert_eq!(Format::R32g32Sfloat.raw(), 103);
    assert_eq!(Format::R32g32b32Sfloat.raw(), 106);
    assert_eq!(Format::Astc12x12SrgbBlock.raw(), 184);
}

#[test]
fn extension_formats_have_their_codes() {
    assert_eq!(Format::G8b8g8r8_422Unorm.raw(), 1000156000);
    assert_eq!(Format::B8g8r8g8_422Unorm.raw(), 1000156001);
}

#[test]
fn codes_are_read_back() {
    assert_eq!(Format::from_raw(0), Some(Format::Undefined));
    assert_eq!(Format::from_raw(37), Some(Format::R8g8b8a8Unorm));
    assert_eq!(Format::from_raw(50), Some(Format::B8g8r8a8Srgb));
    assert_eq!(Format::from_raw(184), Some(Format::Astc12x12SrgbBlock));
    assert_eq!(Format::from_raw(1000156000), Some(Format::G8b8g8r8_422Unorm));
}

#[test]
fn unknown_codes_are_no_formats() {
    assert_eq!(Format::from_raw(-1), None);
    assert_eq!(Format::from_raw(185), None);
    assert_eq!(Format::from_raw(999), None);
    assert_eq!(Format::from_raw(i32::MAX), None);
    assert_eq!(Format::from_raw(i32::MIN), None);
}

#[test]
fn every_core_code_round_trips() {
    let mut known: usize = 0;
    for raw in 0..=184 {
        let format = Format::from_raw(raw).unwrap();
        assert_eq!(format.raw(), raw);
        known += 1;
    }
    assert_eq!(known, 185);
}

#[test]
fn every_known_code_round_trips() {
    let mut known: usize = 0;
    for raw in 1_000_000_000..1_000_400_000 {
        if let Some(format) = Format::from_raw(raw) {
            assert_eq!(format.raw(), raw);
            known += 1;
        }
    }
    assert_eq!(known + 185, 247);
}
