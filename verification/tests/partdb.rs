use xc2bit::partdb::{PhysicalPackage, PhysicalPackageShape, SpeedGrade, XC2Device, XC2Part};

#[test]
fn spot_test_valid_part() {
    assert_eq!(
        XC2Part::try_from("xc2c32a-6-vq44"),
        Ok(XC2Part {
            device: XC2Device::XC2C32A,
            speed: Some(SpeedGrade::_6),
            package: Some(PhysicalPackage {
                shape: PhysicalPackageShape::VQ44,
                pbfree: false
            })
        })
    );
    assert_eq!(
        XC2Part::try_from("XC2C128-7-VQG100"),
        Ok(XC2Part {
            device: XC2Device::XC2C128,
            speed: Some(SpeedGrade::_7),
            package: Some(PhysicalPackage {
                shape: PhysicalPackageShape::VQ100,
                pbfree: true
            })
        })
    );
    assert_eq!(
        XC2Part::try_from("XC2C32A-UNKNOWN-vqg44"),
        Ok(XC2Part {
            device: XC2Device::XC2C32A,
            speed: None,
            package: Some(PhysicalPackage {
                shape: PhysicalPackageShape::VQ44,
                pbfree: true
            })
        })
    );
}

#[test]
fn spot_test_invalid_part() {
    assert_eq!(XC2Part::try_from("xc2c32a-1-vq44"), Err(()));
    assert_eq!(XC2Part::try_from("xc2c32a-5-vq100"), Err(()));
}

#[test]
fn malformed_part_names() {
    assert_eq!(XC2Part::try_from("asdf"), Err(()));
    assert_eq!(XC2Part::try_from("xc2c32a-5-vq44-asdf"), Err(()));
}

#[test]
fn part_stringifying() {
    assert_eq!(
        XC2Part::new(
            XC2Device::XC2C32A,
            Some(SpeedGrade::_4),
            Some(PhysicalPackage {
                shape: PhysicalPackageShape::VQ44,
                pbfree: true
            })
        )
        .unwrap()
        .to_string(),
        "XC2C32A-4-VQG44"
    );
    assert_eq!(
        XC2Part::new(
            XC2Device::XC2C32A,
            None,
            Some(PhysicalPackage {
                shape: PhysicalPackageShape::VQ44,
                pbfree: true
            })
        )
        .unwrap()
        .to_string(),
        "XC2C32A-UNKNOWN-VQG44"
    );
}

#[test]
fn device_name_parsing() {
    assert_eq!(XC2Device::try_from("xc2c32"), Ok(XC2Device::XC2C32));
    assert_eq!(XC2Device::try_from("XC2C512"), Ok(XC2Device::XC2C512));
    assert_eq!(XC2Device::try_from("xc2c99"), Err(()));
}

#[test]
fn geometry_spot_checks() {
    assert_eq!(XC2Device::XC2C32A.fuse_array_dims(), (260, 50));
    assert_eq!(XC2Device::XC2C512.fuse_array_dims(), (1980, 162));
    assert_eq!(XC2Device::XC2C32.num_fbs(), 2);
    assert_eq!(XC2Device::XC2C512.num_fbs(), 32);
    assert_eq!(XC2Device::XC2C256.zia_width(), 48);
    assert!(!XC2Device::XC2C64A.has_large_macrocells());
    assert!(XC2Device::XC2C128.has_large_macrocells());
    // buried macrocells on the larger devices
    assert!(XC2Device::XC2C32.has_io_at(0, 7));
    assert!(!XC2Device::XC2C128.has_io_at(0, 7));
    assert!(XC2Device::XC2C128.has_io_at(2, 6));
    assert!(!XC2Device::XC2C512.has_io_at(0, 4));
    assert!(XC2Device::XC2C512.has_io_at(2, 4));
}
