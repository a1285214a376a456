use vulkan_rs::common::{
    check, enumeration_code_expected, result_code_expected, Error, Extent2D, Extent3D, Offset2D,
    Offset3D, Rect2D, INCOMPLETE, SUCCESS,
};

fn all_errors() -> Vec<(Error, i32)> {
    vec![
        (Error::OutOfHostMemory, -1),
        (Error::OutOfDeviceMemory, -2),
        (Error::InitializationFailed, -3),
        (Error::DeviceLost, -4),
        (Error::MemoryMapFailed, -5),
        (Error::LayerNotPresent, -6),
        (Error::ExtensionNotPresent, -7),
        (Error::FeatureNotPresent, -8),
        (Error::IncompatibleDriver, -9),
        (Error::TooManyObjects, -10),
        (Error::FormatNotSupported, -11),
        (Error::FragmentedPool, -12),
        (Error::Unknown, -13),
        (Error::OutOfPoolMemory, -1000069000),
        (Error::InvalidExternalHandle, -1000072003),
        (Error::Fragmentation, -1000161000),
        (Error::InvalidOpaqueCaptureAddress, -1000257000),
        (Error::SurfaceLostKhr, -1000000000),
        (Error::NativeWindowInUseKhr, -1000000001),
        (Error::OutOfDateKhr, -1000001004),
        (Error::IncompatibleDisplayKhr, -1000003001),
        (Error::ValidationFailedExt, -1000011001),
        (Error::InvalidShaderNv, -1000012000),
        (Error::InvalidDrmFormatModifierPlaneLayoutExt, -1000158000),
        (Error::NotPermittedExt, -1000174001),
        (Error::FullScreenExclusiveModeLostExt, -1000255000),
    ]
}

#[test]
fn every_error_has_its_code() {
    for (error, code) in all_errors() {
        assert_eq!(error.code(), code);
    }
}

#[test]
fn every_code_gives_its_error() {
    for (error, code) in all_errors() {
        assert_eq!(Error::from_code(code), Some(error));
        assert_eq!(check(code), Err(error));
    }
}

#[test]
fn codes_are_distinct() {
    let all = all_errors();
    assert_eq!(all.len(), 26);
    for (i, (_, a)) in all.iter().enumerate() {
        for (j, (_, b)) in all.iter().enumerate() {
            assert_eq!(i == j, a == b);
        }
    }
}

#[test]
fn success_is_no_error() {
    assert_eq!(SUCCESS, 0);
    assert_eq!(Error::from_code(SUCCESS), None);
    assert_eq!(check(SUCCESS), Ok(()));
}

#[test]
fn status_codes_are_no_errors() {
    assert_eq!(INCOMPLETE, 5);
    assert_eq!(Error::from_code(INCOMPLETE), None);
    assert_eq!(Error::from_code(1), None);
    assert_eq!(Error::from_code(-14), None);
    assert_eq!(Error::from_code(i32::MIN), None);
    assert_eq!(Error::from_code(i32::MAX), None);
}

#[test]
fn expected_result_codes() {
    assert!(result_code_expected(0));
    assert!(result_code_expected(-3));
    assert!(result_code_expected(-1000001004));
    assert!(!result_code_expected(5));
    assert!(!result_code_expected(1));
    assert!(!result_code_expected(-14));
}

#[test]
fn expected_enumeration_codes() {
    assert!(enumeration_code_expected(0));
    assert!(enumeration_code_expected(5));
    assert!(enumeration_code_expected(-1));
    assert!(!enumeration_code_expected(1));
    assert!(!enumeration_code_expected(4));
    assert!(!enumeration_code_expected(-1000000002));
}

#[test]
fn every_error_reads_the_same() {
    for (error, _) in all_errors() {
        assert_eq!(error.to_string(), "vulkan run-time error");
    }
}

#[test]
fn extents_keep_their_sides() {
    let e = Extent2D::new(640, 480);
    assert_eq!(e.width(), 640);
    assert_eq!(e.height(), 480);
    assert_eq!(Extent2D::from_pair((640, 480)), e);
    assert_eq!(Extent2D::default(), Extent2D::new(0, 0));
    let d = Extent3D::new(1, 2, 3);
    assert_eq!((d.width, d.height, d.depth), (1, 2, 3));
}

#[test]
fn offsets_and_rectangles() {
    let o = Offset2D::new(-4, 9);
    assert_eq!((o.x, o.y), (-4, 9));
    assert_eq!(Offset2D::from_pair((-4, 9)), o);
    let p = Offset3D::new(1, -2, 3);
    assert_eq!((p.x, p.y, p.z), (1, -2, 3));
    let r = Rect2D::new(o, Extent2D::new(10, 20));
    assert_eq!(r.offset, o);
    assert_eq!(r.extent, Extent2D::new(10, 20));
}
