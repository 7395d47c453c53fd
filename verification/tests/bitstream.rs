use xc2bit::bitstream::Coolrunner2;
use xc2bit::coordinate::Coordinate;
use xc2bit::partdb::{XC2Device, XC2Part};
use xc2bit::props::PropertyAccessor;

#[test]
fn smoke_test_create_new() {
    let mut bitstream = Coolrunner2::new(XC2Part::new(XC2Device::XC2C32A, None, None).unwrap());

    assert_eq!(bitstream.bits.len(), 260 * 50);
    bitstream.set(Coordinate::new(1, 1), true);
    assert!(bitstream.bits[261]);
}

#[test]
fn smoke_test_rw_in_rust() {
    let mut bitstream = Coolrunner2::new(XC2Part::new(XC2Device::XC2C32A, None, None).unwrap());

    let inp = bitstream.fb(0).and_term(1).inp(2);
    bitstream.set_prop_bit(&inp, 0, true);
}

#[test]
fn and_term_read_back() {
    let mut bitstream = Coolrunner2::new(XC2Part::new(XC2Device::XC2C32A, None, None).unwrap());

    let inp = bitstream.fb(0).and_term(1).inp(2);
    let other = bitstream.fb(0).and_term(1).inp(3);
    let before_other = bitstream.get_prop_bit(&other, 0);
    bitstream.set_prop_bit(&inp, 0, true);
    assert!(bitstream.get_prop_bit(&inp, 0));
    assert_eq!(bitstream.get_prop_bit(&other, 0), before_other);
}

#[test]
fn blank_device_done_and_security_rows() {
    let bitstream = Coolrunner2::new(XC2Part::new(XC2Device::XC2C32A, None, None).unwrap());
    let (w, h) = XC2Device::XC2C32A.fuse_array_dims();
    for y in (h - 2)..h {
        for x in 0..w {
            let bit = bitstream.get(Coordinate::new(x, y));
            if x == 9 && y == 48 {
                assert!(!bit, "done1 must be 0 on a blank device");
            } else {
                assert!(bit, "security/done rows must be 1 at ({}, {})", x, y);
            }
        }
    }
}

#[test]
fn blank_device_defaults() {
    for device in [
        XC2Device::XC2C32A,
        XC2Device::XC2C64A,
        XC2Device::XC2C128,
        XC2Device::XC2C512,
    ] {
        let bs = Coolrunner2::new(XC2Part::new(device, None, None).unwrap());
        // global clock, set/reset buffers disabled
        for gck in 0..3 {
            assert!(!bs.get_prop_bit(&bs.gck_enabled(gck), 0));
        }
        assert!(!bs.get_prop_bit(&bs.gsr_enabled(), 0));
        assert!(!bs.get_prop_bit(&bs.gsr_invert(), 0));
        // untouched tristate bits decode to their defaults
        for gts in 0..4 {
            assert!(!bs.get_prop_bit(&bs.gts_enabled(gts), 0));
            assert!(bs.get_prop_bit(&bs.gts_invert(gts), 0));
        }
        for fb in 0..device.num_fbs() as u8 {
            for mc in 0..16u8 {
                let m = bs.fb(fb).mc(mc);
                // power-up state defaults to 1 (stored inverted)
                assert!(bs.get_prop_bit(&m.init_state(), 0));
                // clock configuration cleared
                assert!(!bs.get_prop_bit(&m.clk_inv(), 0));
                assert!(!bs.get_prop_bit(&m.is_ddr(), 0));
                for b in 0..3 {
                    assert!(!bs.get_prop_bit(&m.clk_src(), b));
                }
                if device.has_io_at(fb, mc) {
                    let io = bs.fb(fb).io(mc);
                    assert!(!bs.get_prop_bit(&io.termination_enabled(), 0));
                    for b in 0..4 {
                        assert!(!bs.get_prop_bit(&io.output_pad_mode(), b));
                    }
                }
            }
        }
    }
}

#[test]
fn property_widths() {
    let bs = Coolrunner2::new(XC2Part::new(XC2Device::XC2C64, None, None).unwrap());
    assert_eq!(bs.fb(0).mc(0).clk_src().width(), 3);
    assert_eq!(bs.fb(0).mc(0).ff_mode().width(), 2);
    assert_eq!(bs.fb(0).io(0).output_pad_mode().width(), 4);
    assert_eq!(bs.usercode().width(), 32);
    assert_eq!(bs.security().width(), 7);
    assert_eq!(bs.fb(1).zia_row(0).width(), 16);
}

#[test]
fn multi_bit_property_round_trip() {
    let mut bs = Coolrunner2::new(XC2Part::new(XC2Device::XC2C128, None, None).unwrap());
    let acc = bs.fb(3).mc(5).ff_mode();
    bs.set_prop(&acc, &vec![true, false]);
    assert_eq!(bs.get_prop(&acc), vec![true, false]);
    bs.set_prop(&acc, &vec![false, true]);
    assert_eq!(bs.get_prop(&acc), vec![false, true]);
}

#[test]
fn usercode_blank_is_all_ones() {
    let bs = Coolrunner2::new(XC2Part::new(XC2Device::XC2C256, None, None).unwrap());
    let uc = bs.get_prop(&bs.usercode());
    assert_eq!(uc.len(), 32);
    assert!(uc.iter().all(|&b| b));
}

#[test]
fn blank_device_is_at_default() {
    for device in [XC2Device::XC2C32A, XC2Device::XC2C256] {
        let bs = Coolrunner2::new(XC2Part::new(device, None, None).unwrap());
        for gts in 0..4 {
            assert!(bs.gts_invert(gts).is_at_default(&bs));
        }
        assert!(bs.usercode().is_at_default(&bs));
        for fb in 0..device.num_fbs() as u8 {
            for mc in 0..16u8 {
                assert!(bs.fb(fb).mc(mc).init_state().is_at_default(&bs));
                // a wiped cell decodes to "not driving the pad", which is
                // the default only for macrocells that own a pad
                assert_eq!(
                    bs.fb(fb).mc(mc).use_iob().is_at_default(&bs),
                    device.has_io_at(fb, mc)
                );
            }
        }
    }
}
