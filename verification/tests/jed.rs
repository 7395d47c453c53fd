use xc2bit::partdb::XC2Device;

const ALL_DEVICES: [XC2Device; 8] = [
    XC2Device::XC2C32,
    XC2Device::XC2C32A,
    XC2Device::XC2C64,
    XC2Device::XC2C64A,
    XC2Device::XC2C128,
    XC2Device::XC2C256,
    XC2Device::XC2C384,
    XC2Device::XC2C512,
];

#[test]
fn fuse_counts() {
    assert_eq!(XC2Device::XC2C32A.num_jed_fuses(), 12278);
    assert_eq!(XC2Device::guess_device_from_fuses(12278), Some(XC2Device::XC2C32A));
    assert_eq!(XC2Device::guess_device_from_fuses(999), None);
    assert_eq!(XC2Device::XC2C32.num_jed_fuses(), 12274);
    assert_eq!(XC2Device::XC2C64.num_jed_fuses(), 25808);
    assert_eq!(XC2Device::XC2C64A.num_jed_fuses(), 25812);
    assert_eq!(XC2Device::XC2C128.num_jed_fuses(), 55341);
    assert_eq!(XC2Device::XC2C256.num_jed_fuses(), 123249);
    assert_eq!(XC2Device::XC2C384.num_jed_fuses(), 209357);
    assert_eq!(XC2Device::XC2C512.num_jed_fuses(), 296403);
}

fn check_injective(device: XC2Device) {
    let (w, h) = device.fuse_array_dims();
    let mut seen = vec![false; w * h];
    for i in 0..device.num_jed_fuses() {
        let c = device.jed_index_to_crbit(i);
        assert!(c.x < w && c.y < h, "{:?}: index {} out of bounds", device, i);
        let lin = c.y * w + c.x;
        assert!(
            !seen[lin],
            "{:?}: index {} collides at ({}, {})",
            device, i, c.x, c.y
        );
        seen[lin] = true;
    }
}

#[test]
fn jed_map_injective_small() {
    check_injective(XC2Device::XC2C32);
    check_injective(XC2Device::XC2C32A);
    check_injective(XC2Device::XC2C64);
    check_injective(XC2Device::XC2C64A);
}

#[test]
fn jed_map_injective_128() {
    check_injective(XC2Device::XC2C128);
}

#[test]
fn jed_map_injective_256() {
    check_injective(XC2Device::XC2C256);
}

#[test]
fn jed_map_injective_384() {
    check_injective(XC2Device::XC2C384);
}

#[test]
fn jed_map_injective_512() {
    check_injective(XC2Device::XC2C512);
}

#[test]
fn region_sizes_partition_fuse_range() {
    for device in ALL_DEVICES {
        let mut total = 0usize;
        for fb in 0..device.num_fbs() as u8 {
            total += device.jed_fb_size(fb);
        }
        // global tail
        let tail = device.num_jed_fuses() - total;
        let expected_tail = match device {
            XC2Device::XC2C32 => 18,
            XC2Device::XC2C32A => 22,
            XC2Device::XC2C64 => 16,
            XC2Device::XC2C64A => 20,
            XC2Device::XC2C128 | XC2Device::XC2C256 => 25,
            XC2Device::XC2C384 | XC2Device::XC2C512 => 29,
        };
        assert_eq!(tail, expected_tail, "{:?}", device);
    }
}

#[test]
fn small_device_map_spot_checks() {
    // first ZIA selector bit of FB 0: top row, rightmost pair column
    let c = XC2Device::XC2C32A.jed_index_to_crbit(0);
    assert_eq!((c.x, c.y), (1 + 121 + 14, 0));
    // first AND-array bit: ZIA row 0 true-input of product term 0
    let c = XC2Device::XC2C32A.jed_index_to_crbit(8 * 40);
    assert_eq!((c.x, c.y), (1 + 9 + 1, 0));
    // first OR-array bit: row 20 of the block
    let c = XC2Device::XC2C32A.jed_index_to_crbit(8 * 40 + 80 * 56);
    assert_eq!((c.x, c.y), (1 + 9, 20));
    // global clock enables at the head of the tail
    let c = XC2Device::XC2C32A.jed_index_to_crbit(12256);
    assert_eq!((c.x, c.y), (126, 23));
    let c = XC2Device::XC2C32A.jed_index_to_crbit(12277);
    assert_eq!((c.x, c.y), (134, 25));
}
