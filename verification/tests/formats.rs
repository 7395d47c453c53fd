use xc2bit::bitstream::Coolrunner2;
use xc2bit::coordinate::Coordinate;
use xc2bit::crbit::{read_crbit, CrbitFormatError};
use xc2bit::partdb::{XC2Device, XC2Part};

fn scribble(bs: &mut Coolrunner2) {
    // flip a scattering of logic bits through the accessors
    let inp = bs.fb(0).and_term(1).inp(2);
    bs.set_prop_bit(&inp, 0, true);
    let or = bs.fb(1).or_term(3).inp(7);
    bs.set_prop_bit(&or, 0, true);
    let ff = bs.fb(1).mc(9).ff_mode();
    bs.set_prop(&ff, &vec![true, true]);
    let gsr = bs.gsr_enabled();
    bs.set_prop_bit(&gsr, 0, true);
}

#[test]
fn crbit_round_trip() {
    for device in [
        XC2Device::XC2C32A,
        XC2Device::XC2C64,
        XC2Device::XC2C128,
        XC2Device::XC2C512,
    ] {
        let mut bs = Coolrunner2::new(XC2Part::new(device, None, None).unwrap());
        scribble(&mut bs);
        let text = bs.write_crbit();
        let back = read_crbit(&text).expect("round trip parse");
        assert_eq!(back.part.device, device);
        assert_eq!(back.bits, bs.bits, "{:?} crbit round trip", device);
    }
}

#[test]
fn jed_round_trip() {
    for device in [
        XC2Device::XC2C32A,
        XC2Device::XC2C64A,
        XC2Device::XC2C128,
        XC2Device::XC2C384,
    ] {
        let mut bs = Coolrunner2::new(XC2Part::new(device, None, None).unwrap());
        scribble(&mut bs);
        let file = bs.write_jed();
        let back = Coolrunner2::read_jed(&file).expect("round trip parse");
        assert_eq!(back.part.device, device);
        assert_eq!(back.bits, bs.bits, "{:?} jed round trip", device);
    }
}

#[test]
fn jed_device_note_is_emitted() {
    let bs = Coolrunner2::new(XC2Part::new(XC2Device::XC2C32A, None, None).unwrap());
    let file = bs.write_jed();
    let text = String::from_utf8_lossy(&file);
    assert!(text.contains("DEVICE XC2C32A-UNKNOWN-UNKNOWN"));
}

#[test]
fn crbit_errors() {
    assert!(matches!(read_crbit(b""), Err(CrbitFormatError::NoData)));
    assert!(matches!(
        read_crbit(b"// only a comment\n"),
        Err(CrbitFormatError::NoData)
    ));
    assert!(matches!(
        read_crbit(b"01012\n"),
        Err(CrbitFormatError::InvalidCharacter)
    ));
    assert!(matches!(
        read_crbit(b"// DEVICE bogus-part-name\n0101\n"),
        Err(CrbitFormatError::InvalidPartName)
    ));
    assert!(matches!(
        read_crbit(b"// DEVICE XC2C32A-UNKNOWN-UNKNOWN\n0101\n"),
        Err(CrbitFormatError::InvalidBitCount)
    ));
    assert!(matches!(
        read_crbit(b"0101\n"),
        Err(CrbitFormatError::InvalidBitCount)
    ));
}

#[test]
fn crbit_guesses_device_without_directive() {
    let bs = Coolrunner2::new(XC2Part::new(XC2Device::XC2C32A, None, None).unwrap());
    let text = bs.write_crbit();
    // strip the directive line, keeping only data rows
    let stripped: Vec<u8> = String::from_utf8(text.clone())
        .unwrap()
        .lines()
        .filter(|l| !l.starts_with("//"))
        .map(|l| format!("{}\n", l))
        .collect::<String>()
        .into_bytes();
    let back = read_crbit(&stripped).expect("guessed parse");
    assert_eq!(back.part.device, XC2Device::XC2C32A);
    assert_eq!(back.bits, bs.bits);
}

#[test]
fn jed_unknown_fuse_count() {
    // a syntactically valid fuse file whose count matches no device
    let file = b"\x02QF4*\nL0 1010*\n\x030000\n";
    match Coolrunner2::read_jed(file) {
        Err(xc2bit::jed::JedReadError::UnknownPart) => {}
        other => panic!("expected UnknownPart, got {:?}", other.map(|b| b.part)),
    }
}

#[test]
fn crbit_device_directive_selects_part() {
    let mut bs = Coolrunner2::new(XC2Part::new(XC2Device::XC2C64, None, None).unwrap());
    bs.set(Coordinate::new(5, 7), false);
    let text = bs.write_crbit();
    let back = read_crbit(&text).unwrap();
    assert_eq!(back.part.device, XC2Device::XC2C64);
    assert!(!back.get(Coordinate::new(5, 7)));
}

#[test]
fn jed_malformed_shapes_are_rejected() {
    // shapes on which the raw codec would crash: a bare Q field, a fuse
    // count that grows after fuse data, an end marker before the start
    // marker, and an absurd fuse count
    for bytes in [
        &b"\x02*Q*\x030000"[..],
        &b"\x02*QF1*L0 1*QF5*C0001*\x030000"[..],
        &b"\x030000\x02"[..],
        &b"\x02QF999999999*\x030000"[..],
    ] {
        assert!(matches!(
            Coolrunner2::read_jed(bytes),
            Err(xc2bit::jed::JedReadError::Malformed)
        ));
    }
}

#[test]
fn jed_codec_errors_pass_through() {
    // inputs the codec rejects with its own error still reach it
    assert!(matches!(
        Coolrunner2::read_jed(b"\x02F2*\x030000"),
        Err(xc2bit::jed::JedReadError::ParseError(_))
    ));
    assert!(matches!(
        Coolrunner2::read_jed(b"no start marker at all"),
        Err(xc2bit::jed::JedReadError::ParseError(_))
    ));
}
