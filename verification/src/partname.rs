//! Parsing and formatting of canonical part identifier strings:
//! `DEVICE-SPEED-PACKAGE`, case-insensitive, with `UNKNOWN` standing for
//! an absent speed or package.  A package string is a two-letter shape
//! code, an optional `G` (Pb-free) flag, then the pin count.
//!
//! The routines work on ASCII bytes; byte values are written numerically
//! (`88` is `X`, `45` is `-`, and so on).

use vstd::prelude::*;
use vstd::string::StringSliceAdditionalSpecFns;
use vstd::string::StringExecFns;

use crate::partdb::{
    spec_valid_package, spec_valid_speed, PhysicalPackage, PhysicalPackageShape, SpeedGrade,
    XC2Device, XC2Part,
};

verus! {

/// ASCII lower-casing of one byte.
pub open spec fn spec_lower(b: u8) -> u8 {
    if 65 <= b <= 90 {
        (b + 32) as u8
    } else {
        b
    }
}

/// ASCII lower-casing of a byte string.
pub open spec fn spec_lower_seq(s: Seq<u8>) -> Seq<u8> {
    Seq::new(s.len(), |i: int| spec_lower(s[i]))
}

pub fn lower_byte(b: u8) -> (r: u8)
    ensures
        r == spec_lower(b),
{
    if 65 <= b && b <= 90 {
        b + 32
    } else {
        b
    }
}

/// Canonical (upper-case) name of a device.
pub open spec fn spec_device_name(device: XC2Device) -> Seq<u8> {
    match device {
        XC2Device::XC2C32 => seq![88u8, 67, 50, 67, 51, 50],
        XC2Device::XC2C32A => seq![88u8, 67, 50, 67, 51, 50, 65],
        XC2Device::XC2C64 => seq![88u8, 67, 50, 67, 54, 52],
        XC2Device::XC2C64A => seq![88u8, 67, 50, 67, 54, 52, 65],
        XC2Device::XC2C128 => seq![88u8, 67, 50, 67, 49, 50, 56],
        XC2Device::XC2C256 => seq![88u8, 67, 50, 67, 50, 53, 54],
        XC2Device::XC2C384 => seq![88u8, 67, 50, 67, 51, 56, 52],
        XC2Device::XC2C512 => seq![88u8, 67, 50, 67, 53, 49, 50],
    }
}

/// Name of a speed grade (matched exactly, as the digits carry no case).
pub open spec fn spec_speed_name(speed: SpeedGrade) -> Seq<u8> {
    match speed {
        SpeedGrade::_4 => seq![52u8],
        SpeedGrade::_5 => seq![53u8],
        SpeedGrade::_6 => seq![54u8],
        SpeedGrade::_7 => seq![55u8],
        SpeedGrade::_10 => seq![49u8, 48],
    }
}

/// Two-letter shape code of a package, upper-case.
pub open spec fn spec_shape_code(shape: PhysicalPackageShape) -> Seq<u8> {
    match shape {
        PhysicalPackageShape::QF32 => seq![81u8, 70],
        PhysicalPackageShape::PC44 => seq![80u8, 67],
        PhysicalPackageShape::VQ44 => seq![86u8, 81],
        PhysicalPackageShape::QF48 => seq![81u8, 70],
        PhysicalPackageShape::CP56 => seq![67u8, 80],
        PhysicalPackageShape::VQ100 => seq![86u8, 81],
        PhysicalPackageShape::CP132 => seq![67u8, 80],
        PhysicalPackageShape::TQ144 => seq![84u8, 81],
        PhysicalPackageShape::PQ208 => seq![80u8, 81],
        PhysicalPackageShape::FT256 => seq![70u8, 84],
        PhysicalPackageShape::FG324 => seq![70u8, 71],
    }
}

/// Pin count digits of a package shape.
pub open spec fn spec_shape_pins(shape: PhysicalPackageShape) -> Seq<u8> {
    match shape {
        PhysicalPackageShape::QF32 => seq![51u8, 50],
        PhysicalPackageShape::PC44 => seq![52u8, 52],
        PhysicalPackageShape::VQ44 => seq![52u8, 52],
        PhysicalPackageShape::QF48 => seq![52u8, 56],
        PhysicalPackageShape::CP56 => seq![53u8, 54],
        PhysicalPackageShape::VQ100 => seq![49u8, 48, 48],
        PhysicalPackageShape::CP132 => seq![49u8, 51, 50],
        PhysicalPackageShape::TQ144 => seq![49u8, 52, 52],
        PhysicalPackageShape::PQ208 => seq![50u8, 48, 56],
        PhysicalPackageShape::FT256 => seq![50u8, 53, 54],
        PhysicalPackageShape::FG324 => seq![51u8, 50, 52],
    }
}

/// The literal `UNKNOWN`.
pub open spec fn spec_unknown_name() -> Seq<u8> {
    seq![85u8, 78, 75, 78, 79, 87, 78]
}

/// Canonical name of a package: shape code, `G` when Pb-free, pins.
pub open spec fn spec_package_name(package: PhysicalPackage) -> Seq<u8> {
    spec_shape_code(package.shape) + (if package.pbfree {
        seq![71u8]
    } else {
        Seq::<u8>::empty()
    }) + spec_shape_pins(package.shape)
}

/// Canonical name of a part: `DEVICE-SPEED-PACKAGE`.
pub open spec fn spec_part_name(part: XC2Part) -> Seq<u8> {
    spec_device_name(part.device) + seq![45u8] + (match part.speed {
        Some(s) => spec_speed_name(s),
        None => spec_unknown_name(),
    }) + seq![45u8] + (match part.package {
        Some(p) => spec_package_name(p),
        None => spec_unknown_name(),
    })
}

/// Device whose name matches the bytes, ignoring case.
pub open spec fn spec_device_from_name(s: Seq<u8>) -> Option<XC2Device> {
    if spec_lower_seq(s) == spec_lower_seq(spec_device_name(XC2Device::XC2C32)) {
        Some(XC2Device::XC2C32)
    } else if spec_lower_seq(s) == spec_lower_seq(spec_device_name(XC2Device::XC2C32A)) {
        Some(XC2Device::XC2C32A)
    } else if spec_lower_seq(s) == spec_lower_seq(spec_device_name(XC2Device::XC2C64)) {
        Some(XC2Device::XC2C64)
    } else if spec_lower_seq(s) == spec_lower_seq(spec_device_name(XC2Device::XC2C64A)) {
        Some(XC2Device::XC2C64A)
    } else if spec_lower_seq(s) == spec_lower_seq(spec_device_name(XC2Device::XC2C128)) {
        Some(XC2Device::XC2C128)
    } else if spec_lower_seq(s) == spec_lower_seq(spec_device_name(XC2Device::XC2C256)) {
        Some(XC2Device::XC2C256)
    } else if spec_lower_seq(s) == spec_lower_seq(spec_device_name(XC2Device::XC2C384)) {
        Some(XC2Device::XC2C384)
    } else if spec_lower_seq(s) == spec_lower_seq(spec_device_name(XC2Device::XC2C512)) {
        Some(XC2Device::XC2C512)
    } else {
        None
    }
}

/// Speed grade whose name matches the bytes exactly.
pub open spec fn spec_speed_from_name(s: Seq<u8>) -> Option<SpeedGrade> {
    if s == spec_speed_name(SpeedGrade::_4) {
        Some(SpeedGrade::_4)
    } else if s == spec_speed_name(SpeedGrade::_5) {
        Some(SpeedGrade::_5)
    } else if s == spec_speed_name(SpeedGrade::_6) {
        Some(SpeedGrade::_6)
    } else if s == spec_speed_name(SpeedGrade::_7) {
        Some(SpeedGrade::_7)
    } else if s == spec_speed_name(SpeedGrade::_10) {
        Some(SpeedGrade::_10)
    } else {
        None
    }
}

/// Whether the bytes name the given shape: the code matches ignoring
/// case and the pin digits match exactly.
pub open spec fn spec_shape_matches(code: Seq<u8>, pins: Seq<u8>, shape: PhysicalPackageShape)
    -> bool {
    spec_lower_seq(code) == spec_lower_seq(spec_shape_code(shape)) && pins == spec_shape_pins(
        shape,
    )
}

pub open spec fn spec_shape_from_name(code: Seq<u8>, pins: Seq<u8>) -> Option<
    PhysicalPackageShape,
> {
    if spec_shape_matches(code, pins, PhysicalPackageShape::PC44) {
        Some(PhysicalPackageShape::PC44)
    } else if spec_shape_matches(code, pins, PhysicalPackageShape::QF32) {
        Some(PhysicalPackageShape::QF32)
    } else if spec_shape_matches(code, pins, PhysicalPackageShape::VQ44) {
        Some(PhysicalPackageShape::VQ44)
    } else if spec_shape_matches(code, pins, PhysicalPackageShape::QF48) {
        Some(PhysicalPackageShape::QF48)
    } else if spec_shape_matches(code, pins, PhysicalPackageShape::CP56) {
        Some(PhysicalPackageShape::CP56)
    } else if spec_shape_matches(code, pins, PhysicalPackageShape::VQ100) {
        Some(PhysicalPackageShape::VQ100)
    } else if spec_shape_matches(code, pins, PhysicalPackageShape::CP132) {
        Some(PhysicalPackageShape::CP132)
    } else if spec_shape_matches(code, pins, PhysicalPackageShape::TQ144) {
        Some(PhysicalPackageShape::TQ144)
    } else if spec_shape_matches(code, pins, PhysicalPackageShape::PQ208) {
        Some(PhysicalPackageShape::PQ208)
    } else if spec_shape_matches(code, pins, PhysicalPackageShape::FT256) {
        Some(PhysicalPackageShape::FT256)
    } else if spec_shape_matches(code, pins, PhysicalPackageShape::FG324) {
        Some(PhysicalPackageShape::FG324)
    } else {
        None
    }
}

/// Package named by the bytes: shape code, optional `g` flag, pins.
pub open spec fn spec_package_from_name(s: Seq<u8>) -> Option<PhysicalPackage> {
    if s.len() < 3 {
        None
    } else {
        let code = s.subrange(0, 2);
        let pbfree = spec_lower(s[2]) == 103;
        let pins = if pbfree {
            s.subrange(3, s.len() as int)
        } else {
            s.subrange(2, s.len() as int)
        };
        match spec_shape_from_name(code, pins) {
            Some(shape) => Some(PhysicalPackage { shape, pbfree }),
            None => None,
        }
    }
}

/// Index of the first dash at or after `from`, or the length if none.
pub open spec fn spec_find_dash(s: Seq<u8>, from: int) -> int
    decreases s.len() - from,
{
    if from < 0 || from >= s.len() {
        s.len() as int
    } else if s[from] == 45 {
        from
    } else {
        spec_find_dash(s, from + 1)
    }
}

/// The part named by the bytes, if they are a well-formed name of a
/// legal device/speed/package combination: exactly three dash-separated
/// fields, the device field a known device, the speed and package either
/// `UNKNOWN` or a known token, and the combination valid.
pub open spec fn spec_parse_part(s: Seq<u8>) -> Option<XC2Part> {
    let d1 = spec_find_dash(s, 0);
    let d2 = spec_find_dash(s, d1 + 1);
    let d3 = spec_find_dash(s, d2 + 1);
    if d1 == s.len() || d2 == s.len() || d3 != s.len() {
        None
    } else {
        let dev_s = s.subrange(0, d1);
        let spd_s = s.subrange(d1 + 1, d2);
        let pkg_s = s.subrange(d2 + 1, s.len() as int);
        match spec_device_from_name(dev_s) {
            None => None,
            Some(device) => {
                let speed_tok = if spec_lower_seq(spd_s) == spec_lower_seq(spec_unknown_name()) {
                    Some(None::<SpeedGrade>)
                } else {
                    match spec_speed_from_name(spd_s) {
                        Some(sp) => Some(Some(sp)),
                        None => None,
                    }
                };
                let pkg_tok = if spec_lower_seq(pkg_s) == spec_lower_seq(spec_unknown_name()) {
                    Some(None::<PhysicalPackage>)
                } else {
                    match spec_package_from_name(pkg_s) {
                        Some(p) => Some(Some(p)),
                        None => None,
                    }
                };
                match (speed_tok, pkg_tok) {
                    (Some(speed), Some(package)) => {
                        if spec_valid_speed(device, speed) && spec_valid_package(device, package) {
                            Some(XC2Part { device, speed, package })
                        } else {
                            None
                        }
                    },
                    _ => None,
                }
            },
        }
    }
}

/// Case-insensitive comparison of `s[start..end]` against `lit`.
fn eq_lower_range(s: &[u8], start: usize, end: usize, lit: &[u8]) -> (r: bool)
    requires
        start <= end <= s@.len(),
    ensures
        r == (spec_lower_seq(s@.subrange(start as int, end as int)) == spec_lower_seq(lit@)),
{
    if end - start != lit.len() {
        assert(spec_lower_seq(s@.subrange(start as int, end as int)).len() == end - start);
        assert(spec_lower_seq(lit@).len() == lit@.len());
        return false;
    }
    let n = lit.len();
    let mut i: usize = 0;
    while i < n
        invariant
            start <= end <= s@.len(),
            end - start == n,
            n == lit@.len(),
            i <= n,
            forall|j: int|
                0 <= j < i ==> spec_lower(s@.subrange(start as int, end as int)[j]) == spec_lower(
                    lit@[j],
                ),
        decreases n - i,
    {
        if lower_byte(s[start + i]) != lower_byte(lit[i]) {
            assert(spec_lower(s@.subrange(start as int, end as int)[i as int]) != spec_lower(
                lit@[i as int],
            ));
            assert(spec_lower_seq(s@.subrange(start as int, end as int))[i as int]
                != spec_lower_seq(lit@)[i as int]);
            return false;
        }
        i += 1;
    }
    proof {
        assert(spec_lower_seq(s@.subrange(start as int, end as int)) =~= spec_lower_seq(lit@));
    }
    true
}

/// Exact comparison of `s[start..end]` against `lit`.
fn eq_range(s: &[u8], start: usize, end: usize, lit: &[u8]) -> (r: bool)
    requires
        start <= end <= s@.len(),
    ensures
        r == (s@.subrange(start as int, end as int) == lit@),
{
    if end - start != lit.len() {
        assert(s@.subrange(start as int, end as int).len() == end - start);
        return false;
    }
    let n = lit.len();
    let mut i: usize = 0;
    while i < n
        invariant
            start <= end <= s@.len(),
            end - start == n,
            n == lit@.len(),
            i <= n,
            forall|j: int| 0 <= j < i ==> s@.subrange(start as int, end as int)[j] == lit@[j],
        decreases n - i,
    {
        if s[start + i] != lit[i] {
            assert(s@.subrange(start as int, end as int)[i as int] != lit@[i as int]);
            return false;
        }
        i += 1;
    }
    proof {
        assert(s@.subrange(start as int, end as int) =~= lit@);
    }
    true
}

/// The canonical device names as vectors.
fn device_name_bytes(device: XC2Device) -> (r: Vec<u8>)
    ensures
        r@ == spec_device_name(device),
{
    let mut v: Vec<u8> = Vec::new();
    v.push(88);
    v.push(67);
    v.push(50);
    v.push(67);
    match device {
        XC2Device::XC2C32 | XC2Device::XC2C32A => {
            v.push(51);
            v.push(50);
        },
        XC2Device::XC2C64 | XC2Device::XC2C64A => {
            v.push(54);
            v.push(52);
        },
        XC2Device::XC2C128 => {
            v.push(49);
            v.push(50);
            v.push(56);
        },
        XC2Device::XC2C256 => {
            v.push(50);
            v.push(53);
            v.push(54);
        },
        XC2Device::XC2C384 => {
            v.push(51);
            v.push(56);
            v.push(52);
        },
        XC2Device::XC2C512 => {
            v.push(53);
            v.push(49);
            v.push(50);
        },
    }
    match device {
        XC2Device::XC2C32A | XC2Device::XC2C64A => {
            v.push(65);
        },
        _ => {},
    }
    proof {
        assert(v@ =~= spec_device_name(device));
    }
    v
}

/// Parse the device named by `s[start..end]`.
pub fn device_from_name(s: &[u8], start: usize, end: usize) -> (r: Option<XC2Device>)
    requires
        start <= end <= s@.len(),
    ensures
        r == spec_device_from_name(s@.subrange(start as int, end as int)),
{
    let n32 = device_name_bytes(XC2Device::XC2C32);
    let n32a = device_name_bytes(XC2Device::XC2C32A);
    let n64 = device_name_bytes(XC2Device::XC2C64);
    let n64a = device_name_bytes(XC2Device::XC2C64A);
    let n128 = device_name_bytes(XC2Device::XC2C128);
    let n256 = device_name_bytes(XC2Device::XC2C256);
    let n384 = device_name_bytes(XC2Device::XC2C384);
    let n512 = device_name_bytes(XC2Device::XC2C512);
    if eq_lower_range(s, start, end, n32.as_slice()) {
        Some(XC2Device::XC2C32)
    } else if eq_lower_range(s, start, end, n32a.as_slice()) {
        Some(XC2Device::XC2C32A)
    } else if eq_lower_range(s, start, end, n64.as_slice()) {
        Some(XC2Device::XC2C64)
    } else if eq_lower_range(s, start, end, n64a.as_slice()) {
        Some(XC2Device::XC2C64A)
    } else if eq_lower_range(s, start, end, n128.as_slice()) {
        Some(XC2Device::XC2C128)
    } else if eq_lower_range(s, start, end, n256.as_slice()) {
        Some(XC2Device::XC2C256)
    } else if eq_lower_range(s, start, end, n384.as_slice()) {
        Some(XC2Device::XC2C384)
    } else if eq_lower_range(s, start, end, n512.as_slice()) {
        Some(XC2Device::XC2C512)
    } else {
        None
    }
}

/// Parse the speed grade named by `s[start..end]`.
pub fn speed_from_name(s: &[u8], start: usize, end: usize) -> (r: Option<SpeedGrade>)
    requires
        start <= end <= s@.len(),
    ensures
        r == spec_speed_from_name(s@.subrange(start as int, end as int)),
{
    let mut n4: Vec<u8> = Vec::new();
    n4.push(52);
    let mut n5: Vec<u8> = Vec::new();
    n5.push(53);
    let mut n6: Vec<u8> = Vec::new();
    n6.push(54);
    let mut n7: Vec<u8> = Vec::new();
    n7.push(55);
    let mut n10: Vec<u8> = Vec::new();
    n10.push(49);
    n10.push(48);
    proof {
        assert(n4@ =~= spec_speed_name(SpeedGrade::_4));
        assert(n5@ =~= spec_speed_name(SpeedGrade::_5));
        assert(n6@ =~= spec_speed_name(SpeedGrade::_6));
        assert(n7@ =~= spec_speed_name(SpeedGrade::_7));
        assert(n10@ =~= spec_speed_name(SpeedGrade::_10));
    }
    if eq_range(s, start, end, n4.as_slice()) {
        Some(SpeedGrade::_4)
    } else if eq_range(s, start, end, n5.as_slice()) {
        Some(SpeedGrade::_5)
    } else if eq_range(s, start, end, n6.as_slice()) {
        Some(SpeedGrade::_6)
    } else if eq_range(s, start, end, n7.as_slice()) {
        Some(SpeedGrade::_7)
    } else if eq_range(s, start, end, n10.as_slice()) {
        Some(SpeedGrade::_10)
    } else {
        None
    }
}

fn shape_code_bytes(shape: PhysicalPackageShape) -> (r: Vec<u8>)
    ensures
        r@ == spec_shape_code(shape),
{
    let mut v: Vec<u8> = Vec::new();
    match shape {
        PhysicalPackageShape::QF32 | PhysicalPackageShape::QF48 => {
            v.push(81);
            v.push(70);
        },
        PhysicalPackageShape::PC44 => {
            v.push(80);
            v.push(67);
        },
        PhysicalPackageShape::VQ44 | PhysicalPackageShape::VQ100 => {
            v.push(86);
            v.push(81);
        },
        PhysicalPackageShape::CP56 | PhysicalPackageShape::CP132 => {
            v.push(67);
            v.push(80);
        },
        PhysicalPackageShape::TQ144 => {
            v.push(84);
            v.push(81);
        },
        PhysicalPackageShape::PQ208 => {
            v.push(80);
            v.push(81);
        },
        PhysicalPackageShape::FT256 => {
            v.push(70);
            v.push(84);
        },
        PhysicalPackageShape::FG324 => {
            v.push(70);
            v.push(71);
        },
    }
    proof {
        assert(v@ =~= spec_shape_code(shape));
    }
    v
}

fn shape_pins_bytes(shape: PhysicalPackageShape) -> (r: Vec<u8>)
    ensures
        r@ == spec_shape_pins(shape),
{
    let mut v: Vec<u8> = Vec::new();
    match shape {
        PhysicalPackageShape::QF32 => {
            v.push(51);
            v.push(50);
        },
        PhysicalPackageShape::PC44 | PhysicalPackageShape::VQ44 => {
            v.push(52);
            v.push(52);
        },
        PhysicalPackageShape::QF48 => {
            v.push(52);
            v.push(56);
        },
        PhysicalPackageShape::CP56 => {
            v.push(53);
            v.push(54);
        },
        PhysicalPackageShape::VQ100 => {
            v.push(49);
            v.push(48);
            v.push(48);
        },
        PhysicalPackageShape::CP132 => {
            v.push(49);
            v.push(51);
            v.push(50);
        },
        PhysicalPackageShape::TQ144 => {
            v.push(49);
            v.push(52);
            v.push(52);
        },
        PhysicalPackageShape::PQ208 => {
            v.push(50);
            v.push(48);
            v.push(56);
        },
        PhysicalPackageShape::FT256 => {
            v.push(50);
            v.push(53);
            v.push(54);
        },
        PhysicalPackageShape::FG324 => {
            v.push(51);
            v.push(50);
            v.push(52);
        },
    }
    proof {
        assert(v@ =~= spec_shape_pins(shape));
    }
    v
}

fn unknown_bytes() -> (r: Vec<u8>)
    ensures
        r@ == spec_unknown_name(),
{
    let mut v: Vec<u8> = Vec::new();
    v.push(85);
    v.push(78);
    v.push(75);
    v.push(78);
    v.push(79);
    v.push(87);
    v.push(78);
    proof {
        assert(v@ =~= spec_unknown_name());
    }
    v
}

/// Test one shape against the code and pin ranges of the input.
fn shape_matches(s: &[u8], start: usize, pins_start: usize, end: usize,
    shape: PhysicalPackageShape) -> (r: bool)
    requires
        start + 2 <= pins_start <= end <= s@.len(),
    ensures
        r == spec_shape_matches(
            s@.subrange(start as int, start + 2),
            s@.subrange(pins_start as int, end as int),
            shape,
        ),
{
    let code = shape_code_bytes(shape);
    let pins = shape_pins_bytes(shape);
    eq_lower_range(s, start, start + 2, code.as_slice()) && eq_range(
        s,
        pins_start,
        end,
        pins.as_slice(),
    )
}

/// Parse the package named by `s[start..end]`.
pub fn package_from_name(s: &[u8], start: usize, end: usize) -> (r: Option<PhysicalPackage>)
    requires
        start <= end <= s@.len(),
    ensures
        r == spec_package_from_name(s@.subrange(start as int, end as int)),
{
    proof {
        assert(s@.subrange(start as int, end as int).len() == end - start);
    }
    if end - start < 3 {
        return None;
    }
    let ghost sub = s@.subrange(start as int, end as int);
    proof {
        assert(sub.subrange(0, 2) =~= s@.subrange(start as int, start + 2));
        assert(sub[2] == s@[start + 2]);
    }
    let pbfree = lower_byte(s[start + 2]) == 103;
    let pins_start: usize = if pbfree {
        start + 3
    } else {
        start + 2
    };
    proof {
        if pbfree {
            assert(sub.subrange(3, sub.len() as int) =~= s@.subrange(
                pins_start as int,
                end as int,
            ));
        } else {
            assert(sub.subrange(2, sub.len() as int) =~= s@.subrange(
                pins_start as int,
                end as int,
            ));
        }
    }
    let shape = if shape_matches(s, start, pins_start, end, PhysicalPackageShape::PC44) {
        Some(PhysicalPackageShape::PC44)
    } else if shape_matches(s, start, pins_start, end, PhysicalPackageShape::QF32) {
        Some(PhysicalPackageShape::QF32)
    } else if shape_matches(s, start, pins_start, end, PhysicalPackageShape::VQ44) {
        Some(PhysicalPackageShape::VQ44)
    } else if shape_matches(s, start, pins_start, end, PhysicalPackageShape::QF48) {
        Some(PhysicalPackageShape::QF48)
    } else if shape_matches(s, start, pins_start, end, PhysicalPackageShape::CP56) {
        Some(PhysicalPackageShape::CP56)
    } else if shape_matches(s, start, pins_start, end, PhysicalPackageShape::VQ100) {
        Some(PhysicalPackageShape::VQ100)
    } else if shape_matches(s, start, pins_start, end, PhysicalPackageShape::CP132) {
        Some(PhysicalPackageShape::CP132)
    } else if shape_matches(s, start, pins_start, end, PhysicalPackageShape::TQ144) {
        Some(PhysicalPackageShape::TQ144)
    } else if shape_matches(s, start, pins_start, end, PhysicalPackageShape::PQ208) {
        Some(PhysicalPackageShape::PQ208)
    } else if shape_matches(s, start, pins_start, end, PhysicalPackageShape::FT256) {
        Some(PhysicalPackageShape::FT256)
    } else if shape_matches(s, start, pins_start, end, PhysicalPackageShape::FG324) {
        Some(PhysicalPackageShape::FG324)
    } else {
        None
    };
    match shape {
        Some(shape) => Some(PhysicalPackage { shape, pbfree }),
        None => None,
    }
}

/// Index of the first dash at or after `from`, or the length if none.
fn find_dash(s: &[u8], from: usize) -> (r: usize)
    requires
        from <= s@.len(),
    ensures
        r == spec_find_dash(s@, from as int),
        from <= r <= s@.len(),
        r < s@.len() ==> s@[r as int] == 45,
    decreases s@.len() - from,
{
    let mut i: usize = from;
    while i < s.len()
        invariant
            from <= i <= s@.len(),
            spec_find_dash(s@, from as int) == spec_find_dash(s@, i as int),
        decreases s@.len() - i,
    {
        if s[i] == 45 {
            return i;
        }
        i += 1;
    }
    i
}

/// Parse a full part name.
pub fn parse_part_bytes(s: &[u8]) -> (r: Option<XC2Part>)
    ensures
        r == spec_parse_part(s@),
{
    let len = s.len();
    let d1 = find_dash(s, 0);
    if d1 == len {
        return None;
    }
    let d2 = find_dash(s, d1 + 1);
    if d2 == len {
        return None;
    }
    let d3 = find_dash(s, d2 + 1);
    if d3 != len {
        return None;
    }
    let device = match device_from_name(s, 0, d1) {
        Some(d) => d,
        None => {
            return None;
        },
    };
    let unk = unknown_bytes();
    let speed = if eq_lower_range(s, d1 + 1, d2, unk.as_slice()) {
        None
    } else {
        match speed_from_name(s, d1 + 1, d2) {
            Some(sp) => Some(sp),
            None => {
                return None;
            },
        }
    };
    let package = if eq_lower_range(s, d2 + 1, len, unk.as_slice()) {
        None
    } else {
        match package_from_name(s, d2 + 1, len) {
            Some(p) => Some(p),
            None => {
                return None;
            },
        }
    };
    XC2Part::new(device, speed, package)
}

impl XC2Part {
    /// Parse a part name, accepting only legal combinations.
    pub fn try_from(value: &str) -> (r: Result<XC2Part, ()>)
        ensures
            ({
                match spec_parse_part(value.spec_bytes()) {
                    Some(p) => r == Ok::<XC2Part, ()>(p),
                    None => r == Err::<XC2Part, ()>(()),
                }
            }),
    {
        let bytes = value.as_bytes();
        match parse_part_bytes(bytes) {
            Some(p) => Ok(p),
            None => Err(()),
        }
    }
}

impl XC2Device {
    /// Parse a device name, ignoring case.
    pub fn try_from(value: &str) -> (r: Result<XC2Device, ()>)
        ensures
            ({
                match spec_device_from_name(value.spec_bytes()) {
                    Some(d) => r == Ok::<XC2Device, ()>(d),
                    None => r == Err::<XC2Device, ()>(()),
                }
            }),
    {
        let bytes = value.as_bytes();
        proof {
            assert(bytes@.subrange(0, bytes@.len() as int) =~= bytes@);
        }
        match device_from_name(bytes, 0, bytes.len()) {
            Some(d) => Ok(d),
            None => Err(()),
        }
    }
}

/// The canonical byte form of a part name.
pub fn part_name_bytes(part: &XC2Part) -> (r: Vec<u8>)
    ensures
        r@ == spec_part_name(*part),
{
    let mut v = device_name_bytes(part.device);
    v.push(45);
    match part.speed {
        Some(sp) => {
            let mut b: Vec<u8> = Vec::new();
            match sp {
                SpeedGrade::_4 => b.push(52),
                SpeedGrade::_5 => b.push(53),
                SpeedGrade::_6 => b.push(54),
                SpeedGrade::_7 => b.push(55),
                SpeedGrade::_10 => {
                    b.push(49);
                    b.push(48);
                },
            }
            proof {
                assert(b@ =~= spec_speed_name(sp));
            }
            v.append(&mut b);
        },
        None => {
            let mut b = unknown_bytes();
            v.append(&mut b);
        },
    }
    v.push(45);
    match part.package {
        Some(p) => {
            let mut b = shape_code_bytes(p.shape);
            v.append(&mut b);
            if p.pbfree {
                v.push(71);
            }
            let mut b2 = shape_pins_bytes(p.shape);
            v.append(&mut b2);
        },
        None => {
            let mut b = unknown_bytes();
            v.append(&mut b);
        },
    }
    proof {
        assert(v@ =~= spec_part_name(*part));
    }
    v
}

/// Canonical display name of a device.
pub open spec fn spec_device_str(device: XC2Device) -> Seq<char> {
    match device {
        XC2Device::XC2C32 => "XC2C32"@,
        XC2Device::XC2C32A => "XC2C32A"@,
        XC2Device::XC2C64 => "XC2C64"@,
        XC2Device::XC2C64A => "XC2C64A"@,
        XC2Device::XC2C128 => "XC2C128"@,
        XC2Device::XC2C256 => "XC2C256"@,
        XC2Device::XC2C384 => "XC2C384"@,
        XC2Device::XC2C512 => "XC2C512"@,
    }
}

/// Canonical display name of a speed grade.
pub open spec fn spec_speed_str(speed: SpeedGrade) -> Seq<char> {
    match speed {
        SpeedGrade::_4 => "4"@,
        SpeedGrade::_5 => "5"@,
        SpeedGrade::_6 => "6"@,
        SpeedGrade::_7 => "7"@,
        SpeedGrade::_10 => "10"@,
    }
}

/// Canonical display name of a package.
pub open spec fn spec_package_str(package: PhysicalPackage) -> Seq<char> {
    (match package.shape {
        PhysicalPackageShape::QF32 | PhysicalPackageShape::QF48 => "QF"@,
        PhysicalPackageShape::PC44 => "PC"@,
        PhysicalPackageShape::VQ44 | PhysicalPackageShape::VQ100 => "VQ"@,
        PhysicalPackageShape::CP56 | PhysicalPackageShape::CP132 => "CP"@,
        PhysicalPackageShape::TQ144 => "TQ"@,
        PhysicalPackageShape::PQ208 => "PQ"@,
        PhysicalPackageShape::FT256 => "FT"@,
        PhysicalPackageShape::FG324 => "FG"@,
    }) + (if package.pbfree {
        "G"@
    } else {
        Seq::<char>::empty()
    }) + (match package.shape {
        PhysicalPackageShape::QF32 => "32"@,
        PhysicalPackageShape::PC44 | PhysicalPackageShape::VQ44 => "44"@,
        PhysicalPackageShape::QF48 => "48"@,
        PhysicalPackageShape::CP56 => "56"@,
        PhysicalPackageShape::VQ100 => "100"@,
        PhysicalPackageShape::CP132 => "132"@,
        PhysicalPackageShape::TQ144 => "144"@,
        PhysicalPackageShape::PQ208 => "208"@,
        PhysicalPackageShape::FT256 => "256"@,
        PhysicalPackageShape::FG324 => "324"@,
    })
}

/// Canonical display form of a part: `DEVICE-SPEED-PACKAGE` with
/// `UNKNOWN` for an absent speed or package.
pub open spec fn spec_part_string(part: XC2Part) -> Seq<char> {
    spec_device_str(part.device) + "-"@ + (match part.speed {
        Some(sp) => spec_speed_str(sp),
        None => "UNKNOWN"@,
    }) + "-"@ + (match part.package {
        Some(p) => spec_package_str(p),
        None => "UNKNOWN"@,
    })
}

fn append_device_str(r: &mut String, device: XC2Device)
    ensures
        final(r)@ == old(r)@ + spec_device_str(device),
{
    match device {
        XC2Device::XC2C32 => r.append("XC2C32"),
        XC2Device::XC2C32A => r.append("XC2C32A"),
        XC2Device::XC2C64 => r.append("XC2C64"),
        XC2Device::XC2C64A => r.append("XC2C64A"),
        XC2Device::XC2C128 => r.append("XC2C128"),
        XC2Device::XC2C256 => r.append("XC2C256"),
        XC2Device::XC2C384 => r.append("XC2C384"),
        XC2Device::XC2C512 => r.append("XC2C512"),
    }
}

fn append_speed_str(r: &mut String, speed: Option<SpeedGrade>)
    ensures
        final(r)@ == old(r)@ + (match speed {
            Some(sp) => spec_speed_str(sp),
            None => "UNKNOWN"@,
        }),
{
    match speed {
        Some(SpeedGrade::_4) => r.append("4"),
        Some(SpeedGrade::_5) => r.append("5"),
        Some(SpeedGrade::_6) => r.append("6"),
        Some(SpeedGrade::_7) => r.append("7"),
        Some(SpeedGrade::_10) => r.append("10"),
        None => r.append("UNKNOWN"),
    }
}

#[verifier::rlimit(100)]
fn append_package_str(r: &mut String, package: Option<PhysicalPackage>)
    ensures
        final(r)@ == old(r)@ + (match package {
            Some(p) => spec_package_str(p),
            None => "UNKNOWN"@,
        }),
{
    match package {
        Some(p) => {
            match p.shape {
                PhysicalPackageShape::QF32 | PhysicalPackageShape::QF48 => r.append("QF"),
                PhysicalPackageShape::PC44 => r.append("PC"),
                PhysicalPackageShape::VQ44 | PhysicalPackageShape::VQ100 => r.append("VQ"),
                PhysicalPackageShape::CP56 | PhysicalPackageShape::CP132 => r.append("CP"),
                PhysicalPackageShape::TQ144 => r.append("TQ"),
                PhysicalPackageShape::PQ208 => r.append("PQ"),
                PhysicalPackageShape::FT256 => r.append("FT"),
                PhysicalPackageShape::FG324 => r.append("FG"),
            }
            if p.pbfree {
                r.append("G");
            }
            match p.shape {
                PhysicalPackageShape::QF32 => r.append("32"),
                PhysicalPackageShape::PC44 | PhysicalPackageShape::VQ44 => r.append("44"),
                PhysicalPackageShape::QF48 => r.append("48"),
                PhysicalPackageShape::CP56 => r.append("56"),
                PhysicalPackageShape::VQ100 => r.append("100"),
                PhysicalPackageShape::CP132 => r.append("132"),
                PhysicalPackageShape::TQ144 => r.append("144"),
                PhysicalPackageShape::PQ208 => r.append("208"),
                PhysicalPackageShape::FT256 => r.append("256"),
                PhysicalPackageShape::FG324 => r.append("324"),
            }
            proof {
                assert(r@ =~= old(r)@ + spec_package_str(p));
            }
        },
        None => r.append("UNKNOWN"),
    }
}

impl XC2Part {
    /// The canonical display form of this part.
    pub fn to_string(&self) -> (r: String)
        ensures
            r@ == spec_part_string(*self),
    {
        let mut r = String::new();
        append_device_str(&mut r, self.device);
        r.append("-");
        append_speed_str(&mut r, self.speed);
        r.append("-");
        append_package_str(&mut r, self.package);
        proof {
            assert(r@ =~= spec_part_string(*self));
        }
        r
    }
}

/// The first dash at or after `from` is exactly at `k` when nothing
/// before `k` is a dash and `k` is a dash or the end.
proof fn lemma_find_dash_at(s: Seq<u8>, from: int, k: int)
    requires
        0 <= from <= k <= s.len(),
        forall|j: int| from <= j < k ==> s[j] != 45,
        k == s.len() || s[k] == 45,
    ensures
        spec_find_dash(s, from) == k,
    decreases k - from,
{
    if from < k {
        lemma_find_dash_at(s, from + 1, k);
    }
}

/// No canonical name fragment contains a dash.
proof fn lemma_names_dashless(device: XC2Device)
    ensures
        forall|i: int|
            0 <= i < spec_device_name(device).len() ==> #[trigger] spec_device_name(device)[i]
                != 45,
        forall|i: int|
            0 <= i < spec_unknown_name().len() ==> #[trigger] spec_unknown_name()[i] != 45,
{
}

proof fn lemma_speed_name_dashless(speed: SpeedGrade)
    ensures
        forall|i: int|
            0 <= i < spec_speed_name(speed).len() ==> #[trigger] spec_speed_name(speed)[i] != 45,
{
}

proof fn lemma_package_name_dashless(package: PhysicalPackage)
    ensures
        forall|i: int|
            0 <= i < spec_package_name(package).len() ==> #[trigger] spec_package_name(package)[i]
                != 45,
{
    assert forall|i: int|
        0 <= i < spec_package_name(package).len() implies #[trigger] spec_package_name(package)[i]
        != 45 by {
        let code = spec_shape_code(package.shape);
        let g = if package.pbfree {
            seq![71u8]
        } else {
            Seq::<u8>::empty()
        };
        let pins = spec_shape_pins(package.shape);
        if i < code.len() {
            assert(spec_package_name(package)[i] == code[i]);
        } else if i < code.len() + g.len() {
            assert(spec_package_name(package)[i] == 71);
        } else {
            assert(spec_package_name(package)[i] == pins[i - code.len() - g.len()]);
        }
    }
}

/// A device's own canonical name parses back to it.
proof fn lemma_device_from_own_name(device: XC2Device)
    ensures
        spec_device_from_name(spec_device_name(device)) == Some(device),
{
    assert(spec_lower_seq(spec_device_name(XC2Device::XC2C32A)).len() != spec_lower_seq(spec_device_name(XC2Device::XC2C32)).len());
    assert(spec_lower_seq(spec_device_name(XC2Device::XC2C64))[4] != spec_lower_seq(spec_device_name(XC2Device::XC2C32))[4]);
    assert(spec_lower_seq(spec_device_name(XC2Device::XC2C64)).len() != spec_lower_seq(spec_device_name(XC2Device::XC2C32A)).len());
    assert(spec_lower_seq(spec_device_name(XC2Device::XC2C64A)).len() != spec_lower_seq(spec_device_name(XC2Device::XC2C32)).len());
    assert(spec_lower_seq(spec_device_name(XC2Device::XC2C64A))[4] != spec_lower_seq(spec_device_name(XC2Device::XC2C32A))[4]);
    assert(spec_lower_seq(spec_device_name(XC2Device::XC2C64A)).len() != spec_lower_seq(spec_device_name(XC2Device::XC2C64)).len());
    assert(spec_lower_seq(spec_device_name(XC2Device::XC2C128)).len() != spec_lower_seq(spec_device_name(XC2Device::XC2C32)).len());
    assert(spec_lower_seq(spec_device_name(XC2Device::XC2C128))[4] != spec_lower_seq(spec_device_name(XC2Device::XC2C32A))[4]);
    assert(spec_lower_seq(spec_device_name(XC2Device::XC2C128)).len() != spec_lower_seq(spec_device_name(XC2Device::XC2C64)).len());
    assert(spec_lower_seq(spec_device_name(XC2Device::XC2C128))[4] != spec_lower_seq(spec_device_name(XC2Device::XC2C64A))[4]);
    assert(spec_lower_seq(spec_device_name(XC2Device::XC2C256)).len() != spec_lower_seq(spec_device_name(XC2Device::XC2C32)).len());
    assert(spec_lower_seq(spec_device_name(XC2Device::XC2C256))[4] != spec_lower_seq(spec_device_name(XC2Device::XC2C32A))[4]);
    assert(spec_lower_seq(spec_device_name(XC2Device::XC2C256)).len() != spec_lower_seq(spec_device_name(XC2Device::XC2C64)).len());
    assert(spec_lower_seq(spec_device_name(XC2Device::XC2C256))[4] != spec_lower_seq(spec_device_name(XC2Device::XC2C64A))[4]);
    assert(spec_lower_seq(spec_device_name(XC2Device::XC2C256))[4] != spec_lower_seq(spec_device_name(XC2Device::XC2C128))[4]);
    assert(spec_lower_seq(spec_device_name(XC2Device::XC2C384)).len() != spec_lower_seq(spec_device_name(XC2Device::XC2C32)).len());
    assert(spec_lower_seq(spec_device_name(XC2Device::XC2C384))[5] != spec_lower_seq(spec_device_name(XC2Device::XC2C32A))[5]);
    assert(spec_lower_seq(spec_device_name(XC2Device::XC2C384)).len() != spec_lower_seq(spec_device_name(XC2Device::XC2C64)).len());
    assert(spec_lower_seq(spec_device_name(XC2Device::XC2C384))[4] != spec_lower_seq(spec_device_name(XC2Device::XC2C64A))[4]);
    assert(spec_lower_seq(spec_device_name(XC2Device::XC2C384))[4] != spec_lower_seq(spec_device_name(XC2Device::XC2C128))[4]);
    assert(spec_lower_seq(spec_device_name(XC2Device::XC2C384))[4] != spec_lower_seq(spec_device_name(XC2Device::XC2C256))[4]);
    assert(spec_lower_seq(spec_device_name(XC2Device::XC2C512)).len() != spec_lower_seq(spec_device_name(XC2Device::XC2C32)).len());
    assert(spec_lower_seq(spec_device_name(XC2Device::XC2C512))[4] != spec_lower_seq(spec_device_name(XC2Device::XC2C32A))[4]);
    assert(spec_lower_seq(spec_device_name(XC2Device::XC2C512)).len() != spec_lower_seq(spec_device_name(XC2Device::XC2C64)).len());
    assert(spec_lower_seq(spec_device_name(XC2Device::XC2C512))[4] != spec_lower_seq(spec_device_name(XC2Device::XC2C64A))[4]);
    assert(spec_lower_seq(spec_device_name(XC2Device::XC2C512))[4] != spec_lower_seq(spec_device_name(XC2Device::XC2C128))[4]);
    assert(spec_lower_seq(spec_device_name(XC2Device::XC2C512))[4] != spec_lower_seq(spec_device_name(XC2Device::XC2C256))[4]);
    assert(spec_lower_seq(spec_device_name(XC2Device::XC2C512))[4] != spec_lower_seq(spec_device_name(XC2Device::XC2C384))[4]);
}

/// A speed grade's own name parses back to it, and is not `UNKNOWN`.
proof fn lemma_speed_from_own_name(speed: SpeedGrade)
    ensures
        spec_speed_from_name(spec_speed_name(speed)) == Some(speed),
        spec_lower_seq(spec_speed_name(speed)) != spec_lower_seq(spec_unknown_name()),
{
    assert(spec_lower_seq(spec_speed_name(speed)).len() != spec_lower_seq(
        spec_unknown_name(),
    ).len());
    assert(spec_speed_name(SpeedGrade::_5)[0] != spec_speed_name(SpeedGrade::_4)[0]);
    assert(spec_speed_name(SpeedGrade::_6)[0] != spec_speed_name(SpeedGrade::_4)[0]);
    assert(spec_speed_name(SpeedGrade::_6)[0] != spec_speed_name(SpeedGrade::_5)[0]);
    assert(spec_speed_name(SpeedGrade::_7)[0] != spec_speed_name(SpeedGrade::_4)[0]);
    assert(spec_speed_name(SpeedGrade::_7)[0] != spec_speed_name(SpeedGrade::_5)[0]);
    assert(spec_speed_name(SpeedGrade::_7)[0] != spec_speed_name(SpeedGrade::_6)[0]);
    assert(spec_speed_name(SpeedGrade::_10).len() != spec_speed_name(SpeedGrade::_4).len());
}

/// A package's own canonical name parses back to it, and is not
/// `UNKNOWN`.
proof fn lemma_package_from_own_name(package: PhysicalPackage)
    ensures
        spec_package_from_name(spec_package_name(package)) == Some(package),
        spec_lower_seq(spec_package_name(package)) != spec_lower_seq(spec_unknown_name()),
{
    let s = spec_package_name(package);
    let code = spec_shape_code(package.shape);
    let g = if package.pbfree {
        seq![71u8]
    } else {
        Seq::<u8>::empty()
    };
    let pins = spec_shape_pins(package.shape);
    assert(s.len() == 2 + g.len() + pins.len());
    assert(spec_lower_seq(s).len() != spec_lower_seq(spec_unknown_name()).len());
    assert(s.subrange(0, 2) =~= code);
    assert(s[2] == if package.pbfree {
        71int
    } else {
        pins[0] as int
    });
    if package.pbfree {
        assert(s.subrange(3, s.len() as int) =~= pins);
    } else {
        assert(spec_lower(s[2]) != 103);
        assert(s.subrange(2, s.len() as int) =~= pins);
    }
    assert(spec_lower_seq(spec_shape_code(PhysicalPackageShape::QF32))[0] != spec_lower_seq(spec_shape_code(PhysicalPackageShape::PC44))[0]);
    assert(spec_lower_seq(spec_shape_code(PhysicalPackageShape::VQ44))[0] != spec_lower_seq(spec_shape_code(PhysicalPackageShape::PC44))[0]);
    assert(spec_lower_seq(spec_shape_code(PhysicalPackageShape::VQ44))[0] != spec_lower_seq(spec_shape_code(PhysicalPackageShape::QF32))[0]);
    assert(spec_lower_seq(spec_shape_code(PhysicalPackageShape::QF48))[0] != spec_lower_seq(spec_shape_code(PhysicalPackageShape::PC44))[0]);
    assert(spec_shape_pins(PhysicalPackageShape::QF48)[0] != spec_shape_pins(PhysicalPackageShape::QF32)[0]);
    assert(spec_lower_seq(spec_shape_code(PhysicalPackageShape::QF48))[0] != spec_lower_seq(spec_shape_code(PhysicalPackageShape::VQ44))[0]);
    assert(spec_lower_seq(spec_shape_code(PhysicalPackageShape::CP56))[0] != spec_lower_seq(spec_shape_code(PhysicalPackageShape::PC44))[0]);
    assert(spec_lower_seq(spec_shape_code(PhysicalPackageShape::CP56))[0] != spec_lower_seq(spec_shape_code(PhysicalPackageShape::QF32))[0]);
    assert(spec_lower_seq(spec_shape_code(PhysicalPackageShape::CP56))[0] != spec_lower_seq(spec_shape_code(PhysicalPackageShape::VQ44))[0]);
    assert(spec_lower_seq(spec_shape_code(PhysicalPackageShape::CP56))[0] != spec_lower_seq(spec_shape_code(PhysicalPackageShape::QF48))[0]);
    assert(spec_lower_seq(spec_shape_code(PhysicalPackageShape::VQ100))[0] != spec_lower_seq(spec_shape_code(PhysicalPackageShape::PC44))[0]);
    assert(spec_lower_seq(spec_shape_code(PhysicalPackageShape::VQ100))[0] != spec_lower_seq(spec_shape_code(PhysicalPackageShape::QF32))[0]);
    assert(spec_shape_pins(PhysicalPackageShape::VQ100).len() != spec_shape_pins(PhysicalPackageShape::VQ44).len());
    assert(spec_lower_seq(spec_shape_code(PhysicalPackageShape::VQ100))[0] != spec_lower_seq(spec_shape_code(PhysicalPackageShape::QF48))[0]);
    assert(spec_lower_seq(spec_shape_code(PhysicalPackageShape::VQ100))[0] != spec_lower_seq(spec_shape_code(PhysicalPackageShape::CP56))[0]);
    assert(spec_lower_seq(spec_shape_code(PhysicalPackageShape::CP132))[0] != spec_lower_seq(spec_shape_code(PhysicalPackageShape::PC44))[0]);
    assert(spec_lower_seq(spec_shape_code(PhysicalPackageShape::CP132))[0] != spec_lower_seq(spec_shape_code(PhysicalPackageShape::QF32))[0]);
    assert(spec_lower_seq(spec_shape_code(PhysicalPackageShape::CP132))[0] != spec_lower_seq(spec_shape_code(PhysicalPackageShape::VQ44))[0]);
    assert(spec_lower_seq(spec_shape_code(PhysicalPackageShape::CP132))[0] != spec_lower_seq(spec_shape_code(PhysicalPackageShape::QF48))[0]);
    assert(spec_shape_pins(PhysicalPackageShape::CP132).len() != spec_shape_pins(PhysicalPackageShape::CP56).len());
    assert(spec_lower_seq(spec_shape_code(PhysicalPackageShape::CP132))[0] != spec_lower_seq(spec_shape_code(PhysicalPackageShape::VQ100))[0]);
    assert(spec_lower_seq(spec_shape_code(PhysicalPackageShape::TQ144))[0] != spec_lower_seq(spec_shape_code(PhysicalPackageShape::PC44))[0]);
    assert(spec_lower_seq(spec_shape_code(PhysicalPackageShape::TQ144))[0] != spec_lower_seq(spec_shape_code(PhysicalPackageShape::QF32))[0]);
    assert(spec_lower_seq(spec_shape_code(PhysicalPackageShape::TQ144))[0] != spec_lower_seq(spec_shape_code(PhysicalPackageShape::VQ44))[0]);
    assert(spec_lower_seq(spec_shape_code(PhysicalPackageShape::TQ144))[0] != spec_lower_seq(spec_shape_code(PhysicalPackageShape::QF48))[0]);
    assert(spec_lower_seq(spec_shape_code(PhysicalPackageShape::TQ144))[0] != spec_lower_seq(spec_shape_code(PhysicalPackageShape::CP56))[0]);
    assert(spec_lower_seq(spec_shape_code(PhysicalPackageShape::TQ144))[0] != spec_lower_seq(spec_shape_code(PhysicalPackageShape::VQ100))[0]);
    assert(spec_lower_seq(spec_shape_code(PhysicalPackageShape::TQ144))[0] != spec_lower_seq(spec_shape_code(PhysicalPackageShape::CP132))[0]);
    assert(spec_lower_seq(spec_shape_code(PhysicalPackageShape::PQ208))[1] != spec_lower_seq(spec_shape_code(PhysicalPackageShape::PC44))[1]);
    assert(spec_lower_seq(spec_shape_code(PhysicalPackageShape::PQ208))[0] != spec_lower_seq(spec_shape_code(PhysicalPackageShape::QF32))[0]);
    assert(spec_lower_seq(spec_shape_code(PhysicalPackageShape::PQ208))[0] != spec_lower_seq(spec_shape_code(PhysicalPackageShape::VQ44))[0]);
    assert(spec_lower_seq(spec_shape_code(PhysicalPackageShape::PQ208))[0] != spec_lower_seq(spec_shape_code(PhysicalPackageShape::QF48))[0]);
    assert(spec_lower_seq(spec_shape_code(PhysicalPackageShape::PQ208))[0] != spec_lower_seq(spec_shape_code(PhysicalPackageShape::CP56))[0]);
    assert(spec_lower_seq(spec_shape_code(PhysicalPackageShape::PQ208))[0] != spec_lower_seq(spec_shape_code(PhysicalPackageShape::VQ100))[0]);
    assert(spec_lower_seq(spec_shape_code(PhysicalPackageShape::PQ208))[0] != spec_lower_seq(spec_shape_code(PhysicalPackageShape::CP132))[0]);
    assert(spec_lower_seq(spec_shape_code(PhysicalPackageShape::PQ208))[0] != spec_lower_seq(spec_shape_code(PhysicalPackageShape::TQ144))[0]);
    assert(spec_lower_seq(spec_shape_code(PhysicalPackageShape::FT256))[0] != spec_lower_seq(spec_shape_code(PhysicalPackageShape::PC44))[0]);
    assert(spec_lower_seq(spec_shape_code(PhysicalPackageShape::FT256))[0] != spec_lower_seq(spec_shape_code(PhysicalPackageShape::QF32))[0]);
    assert(spec_lower_seq(spec_shape_code(PhysicalPackageShape::FT256))[0] != spec_lower_seq(spec_shape_code(PhysicalPackageShape::VQ44))[0]);
    assert(spec_lower_seq(spec_shape_code(PhysicalPackageShape::FT256))[0] != spec_lower_seq(spec_shape_code(PhysicalPackageShape::QF48))[0]);
    assert(spec_lower_seq(spec_shape_code(PhysicalPackageShape::FT256))[0] != spec_lower_seq(spec_shape_code(PhysicalPackageShape::CP56))[0]);
    assert(spec_lower_seq(spec_shape_code(PhysicalPackageShape::FT256))[0] != spec_lower_seq(spec_shape_code(PhysicalPackageShape::VQ100))[0]);
    assert(spec_lower_seq(spec_shape_code(PhysicalPackageShape::FT256))[0] != spec_lower_seq(spec_shape_code(PhysicalPackageShape::CP132))[0]);
    assert(spec_lower_seq(spec_shape_code(PhysicalPackageShape::FT256))[0] != spec_lower_seq(spec_shape_code(PhysicalPackageShape::TQ144))[0]);
    assert(spec_lower_seq(spec_shape_code(PhysicalPackageShape::FT256))[0] != spec_lower_seq(spec_shape_code(PhysicalPackageShape::PQ208))[0]);
    assert(spec_lower_seq(spec_shape_code(PhysicalPackageShape::FG324))[0] != spec_lower_seq(spec_shape_code(PhysicalPackageShape::PC44))[0]);
    assert(spec_lower_seq(spec_shape_code(PhysicalPackageShape::FG324))[0] != spec_lower_seq(spec_shape_code(PhysicalPackageShape::QF32))[0]);
    assert(spec_lower_seq(spec_shape_code(PhysicalPackageShape::FG324))[0] != spec_lower_seq(spec_shape_code(PhysicalPackageShape::VQ44))[0]);
    assert(spec_lower_seq(spec_shape_code(PhysicalPackageShape::FG324))[0] != spec_lower_seq(spec_shape_code(PhysicalPackageShape::QF48))[0]);
    assert(spec_lower_seq(spec_shape_code(PhysicalPackageShape::FG324))[0] != spec_lower_seq(spec_shape_code(PhysicalPackageShape::CP56))[0]);
    assert(spec_lower_seq(spec_shape_code(PhysicalPackageShape::FG324))[0] != spec_lower_seq(spec_shape_code(PhysicalPackageShape::VQ100))[0]);
    assert(spec_lower_seq(spec_shape_code(PhysicalPackageShape::FG324))[0] != spec_lower_seq(spec_shape_code(PhysicalPackageShape::CP132))[0]);
    assert(spec_lower_seq(spec_shape_code(PhysicalPackageShape::FG324))[0] != spec_lower_seq(spec_shape_code(PhysicalPackageShape::TQ144))[0]);
    assert(spec_lower_seq(spec_shape_code(PhysicalPackageShape::FG324))[0] != spec_lower_seq(spec_shape_code(PhysicalPackageShape::PQ208))[0]);
    assert(spec_lower_seq(spec_shape_code(PhysicalPackageShape::FG324))[1] != spec_lower_seq(spec_shape_code(PhysicalPackageShape::FT256))[1]);
    assert(spec_shape_from_name(code, pins) == Some(package.shape));
}

/// Part identifier round trip: formatting a valid part and parsing the
/// result yields the part back.
#[verifier::rlimit(100)]
pub proof fn lemma_part_name_round_trip(part: XC2Part)
    requires
        crate::partdb::spec_valid_speed(part.device, part.speed),
        crate::partdb::spec_valid_package(part.device, part.package),
    ensures
        spec_parse_part(spec_part_name(part)) == Some(part),
{
    let s = spec_part_name(part);
    let dev = spec_device_name(part.device);
    let spd = match part.speed {
        Some(sp) => spec_speed_name(sp),
        None => spec_unknown_name(),
    };
    let pkg = match part.package {
        Some(p) => spec_package_name(p),
        None => spec_unknown_name(),
    };
    let dl = dev.len() as int;
    let ml = spd.len() as int;
    let pl = pkg.len() as int;
    assert(s.len() == dl + 1 + ml + 1 + pl);
    lemma_names_dashless(part.device);
    match part.speed {
        Some(sp) => lemma_speed_name_dashless(sp),
        None => (),
    }
    match part.package {
        Some(p) => lemma_package_name_dashless(p),
        None => (),
    }
    assert forall|j: int| 0 <= j < dl implies s[j] != 45 by {
        assert(s[j] == dev[j]);
    }
    assert(s[dl] == 45);
    assert forall|j: int| dl + 1 <= j < dl + 1 + ml implies s[j] != 45 by {
        assert(s[j] == spd[j - dl - 1]);
    }
    assert(s[dl + 1 + ml] == 45);
    assert forall|j: int| dl + 2 + ml <= j < s.len() implies s[j] != 45 by {
        assert(s[j] == pkg[j - dl - 2 - ml]);
    }
    lemma_find_dash_at(s, 0, dl);
    lemma_find_dash_at(s, dl + 1, dl + 1 + ml);
    lemma_find_dash_at(s, dl + 2 + ml, s.len() as int);
    assert(s.subrange(0, dl) =~= dev);
    assert(s.subrange(dl + 1, dl + 1 + ml) =~= spd);
    assert(s.subrange(dl + 2 + ml, s.len() as int) =~= pkg);
    lemma_device_from_own_name(part.device);
    match part.speed {
        Some(sp) => {
            lemma_speed_from_own_name(sp);
        },
        None => (),
    }
    match part.package {
        Some(p) => {
            lemma_package_from_own_name(p);
        },
        None => (),
    }
}

impl SpeedGrade {
    /// Parse a speed grade name.
    pub fn try_from(value: &str) -> (r: Result<SpeedGrade, ()>)
        ensures
            ({
                match spec_speed_from_name(value.spec_bytes()) {
                    Some(sp) => r == Ok::<SpeedGrade, ()>(sp),
                    None => r == Err::<SpeedGrade, ()>(()),
                }
            }),
    {
        let bytes = value.as_bytes();
        proof {
            assert(bytes@.subrange(0, bytes@.len() as int) =~= bytes@);
        }
        match speed_from_name(bytes, 0, bytes.len()) {
            Some(sp) => Ok(sp),
            None => Err(()),
        }
    }
}

impl PhysicalPackage {
    /// Parse a package name, ignoring case of the shape code and the
    /// Pb-free flag.
    pub fn try_from(value: &str) -> (r: Result<PhysicalPackage, ()>)
        ensures
            ({
                match spec_package_from_name(value.spec_bytes()) {
                    Some(p) => r == Ok::<PhysicalPackage, ()>(p),
                    None => r == Err::<PhysicalPackage, ()>(()),
                }
            }),
    {
        let bytes = value.as_bytes();
        proof {
            assert(bytes@.subrange(0, bytes@.len() as int) =~= bytes@);
        }
        match package_from_name(bytes, 0, bytes.len()) {
            Some(p) => Ok(p),
            None => Err(()),
        }
    }
}

/// No canonical part name byte is whitespace or a newline.
#[verifier::rlimit(100)]
pub proof fn lemma_part_name_printable(part: XC2Part)
    ensures
        forall|i: int|
            0 <= i < spec_part_name(part).len() ==> #[trigger] spec_part_name(part)[i] != 10
                && spec_part_name(part)[i] != 13 && spec_part_name(part)[i] != 32,
        spec_part_name(part).len() >= 1,
{
    let s = spec_part_name(part);
    let dev = spec_device_name(part.device);
    let spd = match part.speed {
        Some(sp) => spec_speed_name(sp),
        None => spec_unknown_name(),
    };
    let pkg = match part.package {
        Some(p) => spec_package_name(p),
        None => spec_unknown_name(),
    };
    let dl = dev.len() as int;
    let ml = spd.len() as int;
    assert forall|i: int|
        0 <= i < s.len() implies #[trigger] s[i] != 10 && s[i] != 13 && s[i] != 32 by {
        if i < dl {
            assert(s[i] == dev[i]);
        } else if i == dl {
            assert(s[i] == 45);
        } else if i < dl + 1 + ml {
            assert(s[i] == spd[i - dl - 1]);
        } else if i == dl + 1 + ml {
            assert(s[i] == 45);
        } else {
            assert(s[i] == pkg[i - dl - 2 - ml]);
            match part.package {
                Some(p) => {
                    let code = spec_shape_code(p.shape);
                    let g = if p.pbfree {
                        seq![71u8]
                    } else {
                        Seq::<u8>::empty()
                    };
                    let pins = spec_shape_pins(p.shape);
                    let j = i - dl - 2 - ml;
                    if j < code.len() {
                        assert(pkg[j] == code[j]);
                    } else if j < code.len() + g.len() {
                        assert(pkg[j] == 71);
                    } else {
                        assert(pkg[j] == pins[j - code.len() - g.len()]);
                    }
                },
                None => (),
            }
        }
    }
}

} // verus!
