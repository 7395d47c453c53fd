//! Database of devices and of valid part/package/speed combinations.

use vstd::prelude::*;

use crate::coordinate::Coordinate;

verus! {

/// CoolRunner-II devices.
#[derive(Clone, Copy, PartialEq, Eq, Structural, Debug, Hash)]
pub enum XC2Device {
    XC2C32,
    XC2C32A,
    XC2C64,
    XC2C64A,
    XC2C128,
    XC2C256,
    XC2C384,
    XC2C512,
}

impl XC2Device {
    /// Dimensions (W, H) of the physical fuse array.
    pub open spec fn spec_fuse_array_dims(self) -> (usize, usize) {
        match self {
            XC2Device::XC2C32 | XC2Device::XC2C32A => (260usize, 50usize),
            XC2Device::XC2C64 | XC2Device::XC2C64A => (274usize, 98usize),
            XC2Device::XC2C128 => (752usize, 82usize),
            XC2Device::XC2C256 => (1364usize, 98usize),
            XC2Device::XC2C384 => (1868usize, 122usize),
            XC2Device::XC2C512 => (1980usize, 162usize),
        }
    }

    /// Dimensions (W, H) of the physical fuse array.
    pub fn fuse_array_dims(self) -> (r: (usize, usize))
        ensures
            r == self.spec_fuse_array_dims(),
    {
        match self {
            XC2Device::XC2C32 | XC2Device::XC2C32A => (260, 50),
            XC2Device::XC2C64 | XC2Device::XC2C64A => (274, 98),
            XC2Device::XC2C128 => (752, 82),
            XC2Device::XC2C256 => (1364, 98),
            XC2Device::XC2C384 => (1868, 122),
            XC2Device::XC2C512 => (1980, 162),
        }
    }

    /// Number of function blocks.
    pub open spec fn spec_num_fbs(self) -> usize {
        match self {
            XC2Device::XC2C32 | XC2Device::XC2C32A => 2usize,
            XC2Device::XC2C64 | XC2Device::XC2C64A => 4usize,
            XC2Device::XC2C128 => 8usize,
            XC2Device::XC2C256 => 16usize,
            XC2Device::XC2C384 => 24usize,
            XC2Device::XC2C512 => 32usize,
        }
    }

    /// Number of function blocks.
    pub fn num_fbs(self) -> (r: usize)
        ensures
            r == self.spec_num_fbs(),
    {
        match self {
            XC2Device::XC2C32 | XC2Device::XC2C32A => 2,
            XC2Device::XC2C64 | XC2Device::XC2C64A => 4,
            XC2Device::XC2C128 => 8,
            XC2Device::XC2C256 => 16,
            XC2Device::XC2C384 => 24,
            XC2Device::XC2C512 => 32,
        }
    }

    /// Width in bits of one ZIA interconnect row.
    pub open spec fn spec_zia_width(self) -> usize {
        match self {
            XC2Device::XC2C32 | XC2Device::XC2C32A => 8usize,
            XC2Device::XC2C64 | XC2Device::XC2C64A => 16usize,
            XC2Device::XC2C128 => 28usize,
            XC2Device::XC2C256 => 48usize,
            XC2Device::XC2C384 => 74usize,
            XC2Device::XC2C512 => 88usize,
        }
    }

    /// Width in bits of one ZIA interconnect row.
    pub fn zia_width(self) -> (r: usize)
        ensures
            r == self.spec_zia_width(),
    {
        match self {
            XC2Device::XC2C32 | XC2Device::XC2C32A => 8,
            XC2Device::XC2C64 | XC2Device::XC2C64A => 16,
            XC2Device::XC2C128 => 28,
            XC2Device::XC2C256 => 48,
            XC2Device::XC2C384 => 74,
            XC2Device::XC2C512 => 88,
        }
    }

    /// Number of choices selectable by one ZIA row mux.
    pub open spec fn spec_num_zia_choices(self) -> usize {
        match self {
            XC2Device::XC2C32 | XC2Device::XC2C32A => 6usize,
            XC2Device::XC2C64 | XC2Device::XC2C64A => 12usize,
            XC2Device::XC2C128 => 22usize,
            XC2Device::XC2C256 => 40usize,
            XC2Device::XC2C384 => 62usize,
            XC2Device::XC2C512 => 78usize,
        }
    }

    /// Number of choices selectable by one ZIA row mux.
    pub fn num_zia_choices(self) -> (r: usize)
        ensures
            r == self.spec_num_zia_choices(),
    {
        match self {
            XC2Device::XC2C32 | XC2Device::XC2C32A => 6,
            XC2Device::XC2C64 | XC2Device::XC2C64A => 12,
            XC2Device::XC2C128 => 22,
            XC2Device::XC2C256 => 40,
            XC2Device::XC2C384 => 62,
            XC2Device::XC2C512 => 78,
        }
    }

    /// Whether this device uses the large-macrocell layout family
    /// (variable 16/29-bit macrocell encodings) rather than the uniform
    /// 27-bit small-macrocell layout.
    pub open spec fn spec_has_large_macrocells(self) -> bool {
        match self {
            XC2Device::XC2C128 | XC2Device::XC2C256 | XC2Device::XC2C384 | XC2Device::XC2C512
                => true,
            _ => false,
        }
    }

    /// Whether this device uses the large-macrocell layout family.
    pub fn has_large_macrocells(self) -> (r: bool)
        ensures
            r == self.spec_has_large_macrocells(),
    {
        match self {
            XC2Device::XC2C128 | XC2Device::XC2C256 | XC2Device::XC2C384 | XC2Device::XC2C512
                => true,
            _ => false,
        }
    }

    /// Whether the given macrocell owns a physical I/O pad.  Many
    /// macrocells in the larger devices are buried (no pad), which both
    /// removes the pad-only properties and narrows that macrocell's JEDEC
    /// encoding.
    pub open spec fn spec_has_io_at(self, fb: u8, mc: u8) -> bool {
        match self {
            XC2Device::XC2C32 | XC2Device::XC2C32A => true,
            XC2Device::XC2C64 | XC2Device::XC2C64A => true,
            XC2Device::XC2C128 => {
                if fb == 0 || fb == 1 || fb == 5 || fb == 7 {
                    !(6 <= mc < 10)
                } else {
                    !(7 <= mc < 10)
                }
            },
            XC2Device::XC2C256 => {
                if fb == 0 || fb == 1 || fb == 2 || fb == 3 || fb == 4 || fb == 5 || fb == 12
                    || fb == 13 {
                    !(6 <= mc < 11)
                } else {
                    !(6 <= mc < 10)
                }
            },
            XC2Device::XC2C384 => !(5 <= mc < 11),
            XC2Device::XC2C512 => {
                if fb == 2 || fb == 4 || fb == 6 || fb == 11 || fb == 13 || fb == 15 || fb == 16
                    || fb == 18 || fb == 20 || fb == 22 || fb == 25 || fb == 27 || fb == 29
                    || fb == 31 {
                    !(5 <= mc < 12)
                } else {
                    !(4 <= mc < 12)
                }
            },
        }
    }

    /// Whether the given macrocell owns a physical I/O pad.
    pub fn has_io_at(&self, fb: u8, mc: u8) -> (r: bool)
        requires
            fb < self.spec_num_fbs(),
        ensures
            r == self.spec_has_io_at(fb, mc),
    {
        match self {
            XC2Device::XC2C32 | XC2Device::XC2C32A => true,
            XC2Device::XC2C64 | XC2Device::XC2C64A => true,
            XC2Device::XC2C128 => {
                if fb == 0 || fb == 1 || fb == 5 || fb == 7 {
                    !(6 <= mc && mc < 10)
                } else {
                    !(7 <= mc && mc < 10)
                }
            },
            XC2Device::XC2C256 => {
                if fb <= 5 || fb == 12 || fb == 13 {
                    !(6 <= mc && mc < 11)
                } else {
                    !(6 <= mc && mc < 10)
                }
            },
            XC2Device::XC2C384 => !(5 <= mc && mc < 11),
            XC2Device::XC2C512 => {
                if fb == 2 || fb == 4 || fb == 6 || fb == 11 || fb == 13 || fb == 15 || fb == 16
                    || fb == 18 || fb == 20 || fb == 22 || fb == 25 || fb == 27 || fb == 29
                    || fb == 31 {
                    !(5 <= mc && mc < 12)
                } else {
                    !(4 <= mc && mc < 12)
                }
            },
        }
    }

    /// Number of I/O banks with independently configurable voltages.
    pub open spec fn spec_num_io_banks(self) -> usize {
        match self {
            XC2Device::XC2C32 | XC2Device::XC2C64 => 1usize,
            XC2Device::XC2C32A | XC2Device::XC2C64A | XC2Device::XC2C128 | XC2Device::XC2C256
                => 2usize,
            XC2Device::XC2C384 | XC2Device::XC2C512 => 4usize,
        }
    }

    /// Number of I/O banks with independently configurable voltages.
    pub fn num_io_banks(self) -> (r: usize)
        ensures
            r == self.spec_num_io_banks(),
    {
        match self {
            XC2Device::XC2C32 | XC2Device::XC2C64 => 1,
            XC2Device::XC2C32A | XC2Device::XC2C64A | XC2Device::XC2C128 | XC2Device::XC2C256
                => 2,
            XC2Device::XC2C384 | XC2Device::XC2C512 => 4,
        }
    }

    /// Whether a coordinate lies inside this device's fuse array.
    pub open spec fn spec_in_bounds(self, c: Coordinate) -> bool {
        c.x < self.spec_fuse_array_dims().0 && c.y < self.spec_fuse_array_dims().1
    }

    /// Anchor coordinate of a function block's physical region.  The
    /// columns follow the chip's floorplan, which is not an arithmetic
    /// progression; function blocks come in mirrored left/right pairs.
    pub open spec fn spec_fb_corner(self, fb: u8) -> Coordinate {
        match self {
            XC2Device::XC2C32 | XC2Device::XC2C32A => {
                if fb == 0 {
                    Coordinate { x: 1, y: 0 }
                } else {
                    Coordinate { x: 258, y: 0 }
                }
            },
            XC2Device::XC2C64 | XC2Device::XC2C64A => {
                let x: usize = if fb % 2 == 0 { 0 } else { 273 };
                let y: usize = if fb < 2 { 0 } else { 48 };
                Coordinate { x, y }
            },
            XC2Device::XC2C128 => {
                let x: usize = if fb == 0 || fb == 2 {
                    1
                } else if fb == 1 || fb == 3 {
                    374
                } else if fb == 4 || fb == 6 {
                    377
                } else {
                    750
                };
                let y: usize = if fb % 4 < 2 { 0 } else { 40 };
                Coordinate { x, y }
            },
            XC2Device::XC2C256 => {
                let x: usize = if fb == 0 || fb == 2 {
                    1
                } else if fb == 1 || fb == 3 {
                    340
                } else if fb == 4 || fb == 6 {
                    341
                } else if fb == 5 || fb == 7 {
                    680
                } else if fb == 8 || fb == 10 {
                    683
                } else if fb == 9 || fb == 11 {
                    1022
                } else if fb == 12 || fb == 14 {
                    1023
                } else {
                    1362
                };
                let y: usize = if fb % 4 < 2 { 0 } else { 48 };
                Coordinate { x, y }
            },
            XC2Device::XC2C384 => {
                let x: usize = if fb < 6 {
                    if fb % 2 == 0 { 1 } else { 466 }
                } else if fb < 12 {
                    if fb % 2 == 0 { 467 } else { 932 }
                } else if fb < 18 {
                    if fb % 2 == 0 { 935 } else { 1400 }
                } else {
                    if fb % 2 == 0 { 1401 } else { 1866 }
                };
                let y: usize = (((((fb as int) % 6) / 2) * 40)) as usize;
                Coordinate { x, y }
            },
            XC2Device::XC2C512 => {
                let x: usize = if fb < 8 {
                    if fb % 2 == 0 { 1 } else { 494 }
                } else if fb < 16 {
                    if fb % 2 == 0 { 495 } else { 988 }
                } else if fb < 24 {
                    if fb % 2 == 0 { 991 } else { 1484 }
                } else {
                    if fb % 2 == 0 { 1485 } else { 1978 }
                };
                let y: usize = (((((fb as int) % 8) / 2) * 40)) as usize;
                Coordinate { x, y }
            },
        }
    }

    /// Anchor coordinate of a function block's physical region.
    pub fn fb_corner(self, fb: u8) -> (r: Coordinate)
        requires
            fb < self.spec_num_fbs(),
        ensures
            r == self.spec_fb_corner(fb),
    {
        match self {
            XC2Device::XC2C32 | XC2Device::XC2C32A => {
                if fb == 0 {
                    Coordinate::new(1, 0)
                } else {
                    Coordinate::new(258, 0)
                }
            },
            XC2Device::XC2C64 | XC2Device::XC2C64A => {
                let x: usize = if fb % 2 == 0 { 0 } else { 273 };
                let y: usize = if fb < 2 { 0 } else { 48 };
                Coordinate::new(x, y)
            },
            XC2Device::XC2C128 => {
                let x: usize = if fb == 0 || fb == 2 {
                    1
                } else if fb == 1 || fb == 3 {
                    374
                } else if fb == 4 || fb == 6 {
                    377
                } else {
                    750
                };
                let y: usize = if fb % 4 < 2 { 0 } else { 40 };
                Coordinate::new(x, y)
            },
            XC2Device::XC2C256 => {
                let x: usize = if fb == 0 || fb == 2 {
                    1
                } else if fb == 1 || fb == 3 {
                    340
                } else if fb == 4 || fb == 6 {
                    341
                } else if fb == 5 || fb == 7 {
                    680
                } else if fb == 8 || fb == 10 {
                    683
                } else if fb == 9 || fb == 11 {
                    1022
                } else if fb == 12 || fb == 14 {
                    1023
                } else {
                    1362
                };
                let y: usize = if fb % 4 < 2 { 0 } else { 48 };
                Coordinate::new(x, y)
            },
            XC2Device::XC2C384 => {
                let x: usize = if fb < 6 {
                    if fb % 2 == 0 { 1 } else { 466 }
                } else if fb < 12 {
                    if fb % 2 == 0 { 467 } else { 932 }
                } else if fb < 18 {
                    if fb % 2 == 0 { 935 } else { 1400 }
                } else {
                    if fb % 2 == 0 { 1401 } else { 1866 }
                };
                let y: usize = (((fb as usize) % 6) / 2) * 40usize;
                Coordinate::new(x, y)
            },
            XC2Device::XC2C512 => {
                let x: usize = if fb < 8 {
                    if fb % 2 == 0 { 1 } else { 494 }
                } else if fb < 16 {
                    if fb % 2 == 0 { 495 } else { 988 }
                } else if fb < 24 {
                    if fb % 2 == 0 { 991 } else { 1484 }
                } else {
                    if fb % 2 == 0 { 1485 } else { 1978 }
                };
                let y: usize = (((fb as usize) % 8) / 2) * 40usize;
                Coordinate::new(x, y)
            },
        }
    }
}

/// All possible speed grades.
#[derive(Clone, Copy, PartialEq, Eq, Structural, Debug, Hash)]
pub enum SpeedGrade {
    _4,
    _5,
    _6,
    _7,
    _10,
}

/// All possible physical package shapes, not including Pb-free-ness.
#[derive(Clone, Copy, PartialEq, Eq, Structural, Debug, Hash)]
pub enum PhysicalPackageShape {
    QF32,
    PC44,
    VQ44,
    QF48,
    CP56,
    VQ100,
    CP132,
    TQ144,
    PQ208,
    FT256,
    FG324,
}

/// A physical package: shape code plus Pb-free flag.
#[derive(Clone, Copy, PartialEq, Eq, Structural, Debug, Hash)]
pub struct PhysicalPackage {
    pub shape: PhysicalPackageShape,
    pub pbfree: bool,
}

/// One specific part: device, speed grade, and package.
#[derive(Clone, Copy, PartialEq, Eq, Debug, Hash)]
pub struct XC2Part {
    pub device: XC2Device,
    pub speed: Option<SpeedGrade>,
    pub package: Option<PhysicalPackage>,
}

/// Whether this device is sold in the given speed grade.  `None` (unknown)
/// is always accepted.
pub open spec fn spec_valid_speed(device: XC2Device, speed: Option<SpeedGrade>) -> bool {
    match speed {
        None => true,
        Some(s) => match device {
            XC2Device::XC2C32 | XC2Device::XC2C32A => s == SpeedGrade::_4 || s == SpeedGrade::_6,
            XC2Device::XC2C64 | XC2Device::XC2C64A => s == SpeedGrade::_5 || s == SpeedGrade::_7,
            XC2Device::XC2C128 | XC2Device::XC2C256 => s == SpeedGrade::_6 || s == SpeedGrade::_7,
            XC2Device::XC2C384 | XC2Device::XC2C512 => s == SpeedGrade::_7 || s == SpeedGrade::_10,
        },
    }
}

/// Whether this device is sold in the given package shape.  `None`
/// (unknown) is always accepted; Pb-free-ness is never checked.
pub open spec fn spec_valid_package(device: XC2Device, package: Option<PhysicalPackage>) -> bool {
    match package {
        None => true,
        Some(p) => match device {
            XC2Device::XC2C32 => p.shape == PhysicalPackageShape::PC44 || p.shape
                == PhysicalPackageShape::VQ44 || p.shape == PhysicalPackageShape::CP56,
            XC2Device::XC2C32A => p.shape == PhysicalPackageShape::PC44 || p.shape
                == PhysicalPackageShape::VQ44 || p.shape == PhysicalPackageShape::CP56 || p.shape
                == PhysicalPackageShape::QF32,
            XC2Device::XC2C64 => p.shape == PhysicalPackageShape::PC44 || p.shape
                == PhysicalPackageShape::VQ44 || p.shape == PhysicalPackageShape::CP56 || p.shape
                == PhysicalPackageShape::VQ100,
            XC2Device::XC2C64A => p.shape == PhysicalPackageShape::PC44 || p.shape
                == PhysicalPackageShape::VQ44 || p.shape == PhysicalPackageShape::CP56 || p.shape
                == PhysicalPackageShape::VQ100 || p.shape == PhysicalPackageShape::QF48,
            XC2Device::XC2C128 => p.shape == PhysicalPackageShape::VQ100 || p.shape
                == PhysicalPackageShape::CP132 || p.shape == PhysicalPackageShape::TQ144,
            XC2Device::XC2C256 => p.shape == PhysicalPackageShape::VQ100 || p.shape
                == PhysicalPackageShape::CP132 || p.shape == PhysicalPackageShape::TQ144 || p.shape
                == PhysicalPackageShape::PQ208 || p.shape == PhysicalPackageShape::FT256,
            XC2Device::XC2C384 => p.shape == PhysicalPackageShape::TQ144 || p.shape
                == PhysicalPackageShape::PQ208 || p.shape == PhysicalPackageShape::FT256 || p.shape
                == PhysicalPackageShape::FG324,
            XC2Device::XC2C512 => p.shape == PhysicalPackageShape::PQ208 || p.shape
                == PhysicalPackageShape::FT256 || p.shape == PhysicalPackageShape::FG324,
        },
    }
}

impl XC2Part {
    /// Determine if the given combination of device, speed, and package is
    /// legal, and construct the part if so.
    ///
    /// Pb-free-ness isn't checked; validation is done on a best-effort
    /// basis, erring on the side of being more permissive.
    pub fn new(device: XC2Device, speed: Option<SpeedGrade>, package: Option<PhysicalPackage>)
        -> (r: Option<Self>)
        ensures
            spec_valid_speed(device, speed) && spec_valid_package(device, package) ==> r
                == Some(XC2Part { device, speed, package }),
            !(spec_valid_speed(device, speed) && spec_valid_package(device, package)) ==> r
                is None,
    {
        let valid_speed = match speed {
            None => true,
            Some(s) => match device {
                XC2Device::XC2C32 | XC2Device::XC2C32A => s == SpeedGrade::_4 || s
                    == SpeedGrade::_6,
                XC2Device::XC2C64 | XC2Device::XC2C64A => s == SpeedGrade::_5 || s
                    == SpeedGrade::_7,
                XC2Device::XC2C128 | XC2Device::XC2C256 => s == SpeedGrade::_6 || s
                    == SpeedGrade::_7,
                XC2Device::XC2C384 | XC2Device::XC2C512 => s == SpeedGrade::_7 || s
                    == SpeedGrade::_10,
            },
        };
        let valid_package = match package {
            None => true,
            Some(p) => match device {
                XC2Device::XC2C32 => p.shape == PhysicalPackageShape::PC44 || p.shape
                    == PhysicalPackageShape::VQ44 || p.shape == PhysicalPackageShape::CP56,
                XC2Device::XC2C32A => p.shape == PhysicalPackageShape::PC44 || p.shape
                    == PhysicalPackageShape::VQ44 || p.shape == PhysicalPackageShape::CP56
                    || p.shape == PhysicalPackageShape::QF32,
                XC2Device::XC2C64 => p.shape == PhysicalPackageShape::PC44 || p.shape
                    == PhysicalPackageShape::VQ44 || p.shape == PhysicalPackageShape::CP56
                    || p.shape == PhysicalPackageShape::VQ100,
                XC2Device::XC2C64A => p.shape == PhysicalPackageShape::PC44 || p.shape
                    == PhysicalPackageShape::VQ44 || p.shape == PhysicalPackageShape::CP56
                    || p.shape == PhysicalPackageShape::VQ100 || p.shape
                    == PhysicalPackageShape::QF48,
                XC2Device::XC2C128 => p.shape == PhysicalPackageShape::VQ100 || p.shape
                    == PhysicalPackageShape::CP132 || p.shape == PhysicalPackageShape::TQ144,
                XC2Device::XC2C256 => p.shape == PhysicalPackageShape::VQ100 || p.shape
                    == PhysicalPackageShape::CP132 || p.shape == PhysicalPackageShape::TQ144
                    || p.shape == PhysicalPackageShape::PQ208 || p.shape
                    == PhysicalPackageShape::FT256,
                XC2Device::XC2C384 => p.shape == PhysicalPackageShape::TQ144 || p.shape
                    == PhysicalPackageShape::PQ208 || p.shape == PhysicalPackageShape::FT256
                    || p.shape == PhysicalPackageShape::FG324,
                XC2Device::XC2C512 => p.shape == PhysicalPackageShape::PQ208 || p.shape
                    == PhysicalPackageShape::FT256 || p.shape == PhysicalPackageShape::FG324,
            },
        };

        if valid_speed && valid_package {
            Some(XC2Part { device, speed, package })
        } else {
            None
        }
    }
}

} // verus!
