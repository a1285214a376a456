use vulkan_rs::version::{append_decimal, ApiVersion};

#[test]
fn packs_the_four_parts() {
    let v = ApiVersion::new(0, 1, 2, 3);
    assert_eq!(v.raw(), (1 << 22) | (2 << 12) | 3);
    assert_eq!(v.raw(), 4_202_499);
}

#[test]
fn unpacks_what_was_packed() {
    let v = ApiVersion::new(5, 100, 1000, 4000);
    assert_eq!(v.variant(), 5);
    assert_eq!(v.major(), 100);
    assert_eq!(v.minor(), 1000);
    assert_eq!(v.patch(), 4000);
}

#[test]
fn round_trip_at_the_upper_bounds() {
    let v = ApiVersion::new(7, 127, 1023, 4095);
    assert_eq!(v.raw(), u32::MAX);
    assert_eq!((v.variant(), v.major(), v.minor(), v.patch()), (7, 127, 1023, 4095));
}

#[test]
fn round_trip_at_zero() {
    let v = ApiVersion::new(0, 0, 0, 0);
    assert_eq!(v.raw(), 0);
    assert_eq!((v.variant(), v.major(), v.minor(), v.patch()), (0, 0, 0, 0));
}

#[test]
fn round_trip_over_a_grid_of_parts() {
    let variants: [u32; 3] = [0, 3, 7];
    let majors: [u32; 4] = [0, 1, 64, 127];
    let minors: [u32; 4] = [0, 1, 512, 1023];
    let patches: [u32; 4] = [0, 1, 2048, 4095];
    for variant in variants {
        for major in majors {
            for minor in minors {
                for patch in patches {
                    let v = ApiVersion::new(variant, major, minor, patch);
                    assert_eq!(v.variant(), variant);
                    assert_eq!(v.major(), major);
                    assert_eq!(v.minor(), minor);
                    assert_eq!(v.patch(), patch);
                    assert_eq!(ApiVersion::from_raw(v.raw()), v);
                }
            }
        }
    }
}

#[test]
fn named_versions() {
    assert_eq!(ApiVersion::v1_0(), ApiVersion::new(0, 1, 0, 0));
    assert_eq!(ApiVersion::v1_1(), ApiVersion::new(0, 1, 1, 0));
    assert_eq!(ApiVersion::v1_2(), ApiVersion::new(0, 1, 2, 0));
    assert_eq!(ApiVersion::v1_0().raw(), 0x0040_0000);
    assert_eq!(ApiVersion::v1_1().raw(), 0x0040_1000);
    assert_eq!(ApiVersion::v1_2().raw(), 0x0040_2000);
}

#[test]
fn from_raw_keeps_the_integer() {
    assert_eq!(ApiVersion::from_raw(0xDEAD_BEEF).raw(), 0xDEAD_BEEF);
    assert_eq!(ApiVersion::from_raw(0x0040_2003), ApiVersion::new(0, 1, 2, 3));
}

#[test]
fn default_is_the_zero_version() {
    assert_eq!(ApiVersion::default().raw(), 0);
}

#[test]
fn versions_order_as_their_integers() {
    assert!(ApiVersion::v1_2().at_least(&ApiVersion::v1_1()));
    assert!(ApiVersion::v1_1().at_least(&ApiVersion::v1_1()));
    assert!(!ApiVersion::v1_0().at_least(&ApiVersion::v1_1()));
    assert!(ApiVersion::new(0, 1, 0, 1).at_least(&ApiVersion::new(0, 1, 0, 0)));
    assert!(ApiVersion::new(1, 0, 0, 0).at_least(&ApiVersion::new(0, 127, 1023, 4095)));
}

#[test]
fn text_is_major_minor_patch() {
    assert_eq!(ApiVersion::new(0, 1, 2, 198).to_string(), "1.2.198");
    assert_eq!(ApiVersion::new(3, 1, 0, 0).to_string(), "1.0.0");
    assert_eq!(ApiVersion::new(0, 127, 1023, 4095).to_string(), "127.1023.4095");
    assert_eq!(ApiVersion::from_raw(0).to_string(), "0.0.0");
}

#[test]
fn decimal_digits_are_appended() {
    let mut text = String::from("n=");
    append_decimal(&mut text, 0);
    assert_eq!(text, "n=0");
    append_decimal(&mut text, 4_294_967_295);
    assert_eq!(text, "n=04294967295");
    let mut other = String::new();
    append_decimal(&mut other, 1000);
    assert_eq!(other, "1000");
}
