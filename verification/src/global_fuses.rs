//! Locations of the chip-wide control fuses.

use vstd::prelude::*;

use crate::coordinate::Coordinate;
use crate::partdb::XC2Device;

verus! {

pub open spec fn spec_xc2c32_ovoltage() -> Coordinate {
    Coordinate { x: 130, y: 24 }
}

pub open spec fn spec_xc2c32_ivoltage() -> Coordinate {
    Coordinate { x: 130, y: 25 }
}

pub open spec fn spec_xc2c32_extra_ibuf_schmitt_trigger() -> Coordinate {
    Coordinate { x: 131, y: 24 }
}

pub open spec fn spec_xc2c32_extra_ibuf_termination() -> Coordinate {
    Coordinate { x: 132, y: 24 }
}

pub open spec fn spec_xc2c64_ovoltage() -> Coordinate {
    Coordinate { x: 138, y: 23 }
}

pub open spec fn spec_xc2c64_ivoltage() -> Coordinate {
    Coordinate { x: 137, y: 23 }
}

pub fn xc2c32_ovoltage() -> (r: Coordinate)
    ensures
        r == spec_xc2c32_ovoltage(),
{
    Coordinate::new(130, 24)
}

pub fn xc2c32_ivoltage() -> (r: Coordinate)
    ensures
        r == spec_xc2c32_ivoltage(),
{
    Coordinate::new(130, 25)
}

pub fn xc2c32_extra_ibuf_schmitt_trigger() -> (r: Coordinate)
    ensures
        r == spec_xc2c32_extra_ibuf_schmitt_trigger(),
{
    Coordinate::new(131, 24)
}

pub fn xc2c32_extra_ibuf_termination() -> (r: Coordinate)
    ensures
        r == spec_xc2c32_extra_ibuf_termination(),
{
    Coordinate::new(132, 24)
}

pub fn xc2c64_ovoltage() -> (r: Coordinate)
    ensures
        r == spec_xc2c64_ovoltage(),
{
    Coordinate::new(138, 23)
}

pub fn xc2c64_ivoltage() -> (r: Coordinate)
    ensures
        r == spec_xc2c64_ivoltage(),
{
    Coordinate::new(137, 23)
}

impl XC2Device {
    /// The lone `done` bit that stays 0 on a blank device.
    pub open spec fn spec_done1(self) -> Coordinate {
        match self {
            XC2Device::XC2C32 | XC2Device::XC2C32A => Coordinate { x: 9, y: 48 },
            XC2Device::XC2C64 | XC2Device::XC2C64A => Coordinate { x: 8, y: 96 },
            XC2Device::XC2C128 => Coordinate { x: 9, y: 80 },
            XC2Device::XC2C256 => Coordinate { x: 9, y: 96 },
            XC2Device::XC2C384 => Coordinate { x: 9, y: 120 },
            XC2Device::XC2C512 => Coordinate { x: 9, y: 160 },
        }
    }

    pub fn done1(&self) -> (r: Coordinate)
        ensures
            r == self.spec_done1(),
    {
        match self {
            XC2Device::XC2C32 | XC2Device::XC2C32A => Coordinate::new(9, 48),
            XC2Device::XC2C64 | XC2Device::XC2C64A => Coordinate::new(8, 96),
            XC2Device::XC2C128 => Coordinate::new(9, 80),
            XC2Device::XC2C256 => Coordinate::new(9, 96),
            XC2Device::XC2C384 => Coordinate::new(9, 120),
            XC2Device::XC2C512 => Coordinate::new(9, 160),
        }
    }

    /// Global clock enable fuse locations, one per GCK site.
    pub open spec fn spec_gck(self, i: int) -> Coordinate {
        match self {
            XC2Device::XC2C32 | XC2Device::XC2C32A => Coordinate { x: (126 + i) as usize, y: 23 },
            XC2Device::XC2C64 | XC2Device::XC2C64A => Coordinate { x: (133 + i) as usize, y: 23 },
            XC2Device::XC2C128 => Coordinate { x: (365 + i) as usize, y: 67 },
            XC2Device::XC2C256 => Coordinate { x: (519 + i) as usize, y: 23 },
            XC2Device::XC2C384 => Coordinate { x: (467 + i) as usize, y: 102 },
            XC2Device::XC2C512 => Coordinate { x: (979 + i) as usize, y: 147 },
        }
    }

    pub fn gck(&self, i: usize) -> (r: Coordinate)
        requires
            i < 3,
        ensures
            r == self.spec_gck(i as int),
    {
        match self {
            XC2Device::XC2C32 | XC2Device::XC2C32A => Coordinate::new(126 + i, 23),
            XC2Device::XC2C64 | XC2Device::XC2C64A => Coordinate::new(133 + i, 23),
            XC2Device::XC2C128 => Coordinate::new(365 + i, 67),
            XC2Device::XC2C256 => Coordinate::new(519 + i, 23),
            XC2Device::XC2C384 => Coordinate::new(467 + i, 102),
            XC2Device::XC2C512 => Coordinate::new(979 + i, 147),
        }
    }

    /// Global tristate enable fuse locations, one per GTS site.
    pub open spec fn spec_gts_enable(self, i: int) -> Coordinate {
        match self {
            XC2Device::XC2C32 | XC2Device::XC2C32A => {
                if i == 0 { Coordinate { x: 127, y: 24 } }
                else if i == 1 { Coordinate { x: 129, y: 24 } }
                else if i == 2 { Coordinate { x: 127, y: 25 } }
                else { Coordinate { x: 129, y: 25 } }
            },
            XC2Device::XC2C64 | XC2Device::XC2C64A => {
                if i == 0 { Coordinate { x: 134, y: 24 } }
                else if i == 1 { Coordinate { x: 136, y: 24 } }
                else if i == 2 { Coordinate { x: 138, y: 73 } }
                else { Coordinate { x: 138, y: 24 } }
            },
            XC2Device::XC2C128 => {
                if i == 0 { Coordinate { x: 5, y: 27 } }
                else if i == 1 { Coordinate { x: 7, y: 27 } }
                else if i == 2 { Coordinate { x: 5, y: 67 } }
                else { Coordinate { x: 7, y: 67 } }
            },
            XC2Device::XC2C256 => {
                if i == 0 { Coordinate { x: 182, y: 23 } }
                else if i == 1 { Coordinate { x: 177, y: 24 } }
                else if i == 2 { Coordinate { x: 179, y: 24 } }
                else { Coordinate { x: 182, y: 24 } }
            },
            XC2Device::XC2C384 => Coordinate { x: (463 + i) as usize, y: 107 },
            XC2Device::XC2C512 => {
                if i == 0 { Coordinate { x: 4, y: 27 } }
                else if i == 1 { Coordinate { x: 481, y: 27 } }
                else if i == 2 { Coordinate { x: 6, y: 27 } }
                else { Coordinate { x: 8, y: 27 } }
            },
        }
    }

    pub fn gts_enable(&self, i: usize) -> (r: Coordinate)
        requires
            i < 4,
        ensures
            r == self.spec_gts_enable(i as int),
    {
        match self {
            XC2Device::XC2C32 | XC2Device::XC2C32A => {
                if i == 0 { Coordinate::new(127, 24) }
                else if i == 1 { Coordinate::new(129, 24) }
                else if i == 2 { Coordinate::new(127, 25) }
                else { Coordinate::new(129, 25) }
            },
            XC2Device::XC2C64 | XC2Device::XC2C64A => {
                if i == 0 { Coordinate::new(134, 24) }
                else if i == 1 { Coordinate::new(136, 24) }
                else if i == 2 { Coordinate::new(138, 73) }
                else { Coordinate::new(138, 24) }
            },
            XC2Device::XC2C128 => {
                if i == 0 { Coordinate::new(5, 27) }
                else if i == 1 { Coordinate::new(7, 27) }
                else if i == 2 { Coordinate::new(5, 67) }
                else { Coordinate::new(7, 67) }
            },
            XC2Device::XC2C256 => {
                if i == 0 { Coordinate::new(182, 23) }
                else if i == 1 { Coordinate::new(177, 24) }
                else if i == 2 { Coordinate::new(179, 24) }
                else { Coordinate::new(182, 24) }
            },
            XC2Device::XC2C384 => Coordinate::new(463 + i, 107),
            XC2Device::XC2C512 => {
                if i == 0 { Coordinate::new(4, 27) }
                else if i == 1 { Coordinate::new(481, 27) }
                else if i == 2 { Coordinate::new(6, 27) }
                else { Coordinate::new(8, 27) }
            },
        }
    }

    /// Global tristate invert fuse locations, one per GTS site.
    pub open spec fn spec_gts_invert(self, i: int) -> Coordinate {
        match self {
            XC2Device::XC2C32 | XC2Device::XC2C32A => {
                if i == 0 { Coordinate { x: 126, y: 24 } }
                else if i == 1 { Coordinate { x: 128, y: 24 } }
                else if i == 2 { Coordinate { x: 126, y: 25 } }
                else { Coordinate { x: 128, y: 25 } }
            },
            XC2Device::XC2C64 | XC2Device::XC2C64A => {
                if i == 0 { Coordinate { x: 133, y: 24 } }
                else if i == 1 { Coordinate { x: 135, y: 24 } }
                else if i == 2 { Coordinate { x: 137, y: 73 } }
                else { Coordinate { x: 137, y: 24 } }
            },
            XC2Device::XC2C128 => {
                if i == 0 { Coordinate { x: 4, y: 27 } }
                else if i == 1 { Coordinate { x: 6, y: 27 } }
                else if i == 2 { Coordinate { x: 4, y: 67 } }
                else { Coordinate { x: 6, y: 67 } }
            },
            XC2Device::XC2C256 => {
                if i == 0 { Coordinate { x: 181, y: 23 } }
                else if i == 1 { Coordinate { x: 176, y: 24 } }
                else if i == 2 { Coordinate { x: 178, y: 24 } }
                else { Coordinate { x: 181, y: 24 } }
            },
            XC2Device::XC2C384 => Coordinate { x: (463 + i) as usize, y: 102 },
            XC2Device::XC2C512 => {
                if i == 0 { Coordinate { x: 3, y: 27 } }
                else if i == 1 { Coordinate { x: 480, y: 27 } }
                else if i == 2 { Coordinate { x: 5, y: 27 } }
                else { Coordinate { x: 7, y: 27 } }
            },
        }
    }

    pub fn gts_invert(&self, i: usize) -> (r: Coordinate)
        requires
            i < 4,
        ensures
            r == self.spec_gts_invert(i as int),
    {
        match self {
            XC2Device::XC2C32 | XC2Device::XC2C32A => {
                if i == 0 { Coordinate::new(126, 24) }
                else if i == 1 { Coordinate::new(128, 24) }
                else if i == 2 { Coordinate::new(126, 25) }
                else { Coordinate::new(128, 25) }
            },
            XC2Device::XC2C64 | XC2Device::XC2C64A => {
                if i == 0 { Coordinate::new(133, 24) }
                else if i == 1 { Coordinate::new(135, 24) }
                else if i == 2 { Coordinate::new(137, 73) }
                else { Coordinate::new(137, 24) }
            },
            XC2Device::XC2C128 => {
                if i == 0 { Coordinate::new(4, 27) }
                else if i == 1 { Coordinate::new(6, 27) }
                else if i == 2 { Coordinate::new(4, 67) }
                else { Coordinate::new(6, 67) }
            },
            XC2Device::XC2C256 => {
                if i == 0 { Coordinate::new(181, 23) }
                else if i == 1 { Coordinate::new(176, 24) }
                else if i == 2 { Coordinate::new(178, 24) }
                else { Coordinate::new(181, 24) }
            },
            XC2Device::XC2C384 => Coordinate::new(463 + i, 102),
            XC2Device::XC2C512 => {
                if i == 0 { Coordinate::new(3, 27) }
                else if i == 1 { Coordinate::new(480, 27) }
                else if i == 2 { Coordinate::new(5, 27) }
                else { Coordinate::new(7, 27) }
            },
        }
    }

    pub open spec fn spec_gsr_enable(self) -> Coordinate {
        match self {
            XC2Device::XC2C32 | XC2Device::XC2C32A => Coordinate { x: 130, y: 23 },
            XC2Device::XC2C64 | XC2Device::XC2C64A => Coordinate { x: 136, y: 73 },
            XC2Device::XC2C128 => Coordinate { x: 2, y: 67 },
            XC2Device::XC2C256 => Coordinate { x: 179, y: 23 },
            XC2Device::XC2C384 => Coordinate { x: 2, y: 97 },
            XC2Device::XC2C512 => Coordinate { x: 2, y: 27 },
        }
    }

    pub fn gsr_enable(&self) -> (r: Coordinate)
        ensures
            r == self.spec_gsr_enable(),
    {
        match self {
            XC2Device::XC2C32 | XC2Device::XC2C32A => Coordinate::new(130, 23),
            XC2Device::XC2C64 | XC2Device::XC2C64A => Coordinate::new(136, 73),
            XC2Device::XC2C128 => Coordinate::new(2, 67),
            XC2Device::XC2C256 => Coordinate::new(179, 23),
            XC2Device::XC2C384 => Coordinate::new(2, 97),
            XC2Device::XC2C512 => Coordinate::new(2, 27),
        }
    }

    pub open spec fn spec_gsr_invert(self) -> Coordinate {
        match self {
            XC2Device::XC2C32 | XC2Device::XC2C32A => Coordinate { x: 129, y: 23 },
            XC2Device::XC2C64 | XC2Device::XC2C64A => Coordinate { x: 135, y: 73 },
            XC2Device::XC2C128 => Coordinate { x: 1, y: 67 },
            XC2Device::XC2C256 => Coordinate { x: 178, y: 23 },
            XC2Device::XC2C384 => Coordinate { x: 1, y: 97 },
            XC2Device::XC2C512 => Coordinate { x: 1, y: 27 },
        }
    }

    pub fn gsr_invert(&self) -> (r: Coordinate)
        ensures
            r == self.spec_gsr_invert(),
    {
        match self {
            XC2Device::XC2C32 | XC2Device::XC2C32A => Coordinate::new(129, 23),
            XC2Device::XC2C64 | XC2Device::XC2C64A => Coordinate::new(135, 73),
            XC2Device::XC2C128 => Coordinate::new(1, 67),
            XC2Device::XC2C256 => Coordinate::new(178, 23),
            XC2Device::XC2C384 => Coordinate::new(1, 97),
            XC2Device::XC2C512 => Coordinate::new(1, 27),
        }
    }

    pub open spec fn spec_global_term(self) -> Coordinate {
        match self {
            XC2Device::XC2C32 | XC2Device::XC2C32A => Coordinate { x: 131, y: 23 },
            XC2Device::XC2C64 | XC2Device::XC2C64A => Coordinate { x: 136, y: 23 },
            XC2Device::XC2C128 => Coordinate { x: 370, y: 67 },
            XC2Device::XC2C256 => Coordinate { x: 517, y: 23 },
            XC2Device::XC2C384 => Coordinate { x: 931, y: 17 },
            XC2Device::XC2C512 => Coordinate { x: 983, y: 147 },
        }
    }

    pub fn global_term(&self) -> (r: Coordinate)
        ensures
            r == self.spec_global_term(),
    {
        match self {
            XC2Device::XC2C32 | XC2Device::XC2C32A => Coordinate::new(131, 23),
            XC2Device::XC2C64 | XC2Device::XC2C64A => Coordinate::new(136, 23),
            XC2Device::XC2C128 => Coordinate::new(370, 67),
            XC2Device::XC2C256 => Coordinate::new(517, 23),
            XC2Device::XC2C384 => Coordinate::new(931, 17),
            XC2Device::XC2C512 => Coordinate::new(983, 147),
        }
    }

    /// Input voltage range fuse of each I/O bank.
    pub open spec fn spec_io_input_voltage(self, i: int) -> Coordinate {
        match self {
            XC2Device::XC2C32 => spec_xc2c32_ivoltage(),
            XC2Device::XC2C32A => {
                if i == 0 { Coordinate { x: 131, y: 25 } } else { Coordinate { x: 133, y: 25 } }
            },
            XC2Device::XC2C64 => spec_xc2c64_ivoltage(),
            XC2Device::XC2C64A => {
                if i == 0 { Coordinate { x: 139, y: 23 } } else { Coordinate { x: 141, y: 23 } }
            },
            XC2Device::XC2C128 => {
                if i == 0 { Coordinate { x: 8, y: 67 } } else { Coordinate { x: 368, y: 67 } }
            },
            XC2Device::XC2C256 => {
                if i == 0 { Coordinate { x: 516, y: 25 } } else { Coordinate { x: 517, y: 25 } }
            },
            XC2Device::XC2C384 => {
                if i == 0 { Coordinate { x: 936, y: 17 } }
                else if i == 1 { Coordinate { x: 1864, y: 17 } }
                else if i == 2 { Coordinate { x: 1, y: 17 } }
                else { Coordinate { x: 929, y: 17 } }
            },
            XC2Device::XC2C512 => Coordinate { x: (984 + i) as usize, y: 147 },
        }
    }

    pub fn io_input_voltage(&self, i: usize) -> (r: Coordinate)
        requires
            i < self.spec_num_io_banks(),
        ensures
            r == self.spec_io_input_voltage(i as int),
    {
        match self {
            XC2Device::XC2C32 => xc2c32_ivoltage(),
            XC2Device::XC2C32A => {
                if i == 0 { Coordinate::new(131, 25) } else { Coordinate::new(133, 25) }
            },
            XC2Device::XC2C64 => xc2c64_ivoltage(),
            XC2Device::XC2C64A => {
                if i == 0 { Coordinate::new(139, 23) } else { Coordinate::new(141, 23) }
            },
            XC2Device::XC2C128 => {
                if i == 0 { Coordinate::new(8, 67) } else { Coordinate::new(368, 67) }
            },
            XC2Device::XC2C256 => {
                if i == 0 { Coordinate::new(516, 25) } else { Coordinate::new(517, 25) }
            },
            XC2Device::XC2C384 => {
                if i == 0 { Coordinate::new(936, 17) }
                else if i == 1 { Coordinate::new(1864, 17) }
                else if i == 2 { Coordinate::new(1, 17) }
                else { Coordinate::new(929, 17) }
            },
            XC2Device::XC2C512 => Coordinate::new(984 + i, 147),
        }
    }

    /// Output voltage range fuse of each I/O bank.
    pub open spec fn spec_io_output_voltage(self, i: int) -> Coordinate {
        match self {
            XC2Device::XC2C32 => spec_xc2c32_ovoltage(),
            XC2Device::XC2C32A => {
                if i == 0 { Coordinate { x: 132, y: 25 } } else { Coordinate { x: 134, y: 25 } }
            },
            XC2Device::XC2C64 => spec_xc2c64_ovoltage(),
            XC2Device::XC2C64A => {
                if i == 0 { Coordinate { x: 140, y: 23 } } else { Coordinate { x: 142, y: 23 } }
            },
            XC2Device::XC2C128 => {
                if i == 0 { Coordinate { x: 9, y: 67 } } else { Coordinate { x: 369, y: 67 } }
            },
            XC2Device::XC2C256 => {
                if i == 0 { Coordinate { x: 518, y: 25 } } else { Coordinate { x: 519, y: 25 } }
            },
            XC2Device::XC2C384 => {
                if i == 0 { Coordinate { x: 937, y: 17 } }
                else if i == 1 { Coordinate { x: 1865, y: 17 } }
                else if i == 2 { Coordinate { x: 2, y: 17 } }
                else { Coordinate { x: 930, y: 17 } }
            },
            XC2Device::XC2C512 => Coordinate { x: (495 + i) as usize, y: 147 },
        }
    }

    pub fn io_output_voltage(&self, i: usize) -> (r: Coordinate)
        requires
            i < self.spec_num_io_banks(),
        ensures
            r == self.spec_io_output_voltage(i as int),
    {
        match self {
            XC2Device::XC2C32 => xc2c32_ovoltage(),
            XC2Device::XC2C32A => {
                if i == 0 { Coordinate::new(132, 25) } else { Coordinate::new(134, 25) }
            },
            XC2Device::XC2C64 => xc2c64_ovoltage(),
            XC2Device::XC2C64A => {
                if i == 0 { Coordinate::new(140, 23) } else { Coordinate::new(142, 23) }
            },
            XC2Device::XC2C128 => {
                if i == 0 { Coordinate::new(9, 67) } else { Coordinate::new(369, 67) }
            },
            XC2Device::XC2C256 => {
                if i == 0 { Coordinate::new(518, 25) } else { Coordinate::new(519, 25) }
            },
            XC2Device::XC2C384 => {
                if i == 0 { Coordinate::new(937, 17) }
                else if i == 1 { Coordinate::new(1865, 17) }
                else if i == 2 { Coordinate::new(2, 17) }
                else { Coordinate::new(930, 17) }
            },
            XC2Device::XC2C512 => Coordinate::new(495 + i, 147),
        }
    }

    pub open spec fn spec_vref_enable(self) -> Coordinate {
        match self {
            XC2Device::XC2C128 => Coordinate { x: 10, y: 67 },
            XC2Device::XC2C256 => Coordinate { x: 177, y: 23 },
            XC2Device::XC2C384 => Coordinate { x: 3, y: 17 },
            _ => Coordinate { x: 1, y: 147 },
        }
    }

    pub fn vref_enable(&self) -> (r: Coordinate)
        requires
            self.spec_has_large_macrocells(),
        ensures
            r == self.spec_vref_enable(),
    {
        match self {
            XC2Device::XC2C128 => Coordinate::new(10, 67),
            XC2Device::XC2C256 => Coordinate::new(177, 23),
            XC2Device::XC2C384 => Coordinate::new(3, 17),
            _ => Coordinate::new(1, 147),
        }
    }

    pub open spec fn spec_clk_div_enable(self) -> Coordinate {
        match self {
            XC2Device::XC2C128 => Coordinate { x: 364, y: 67 },
            XC2Device::XC2C256 => Coordinate { x: 519, y: 24 },
            XC2Device::XC2C384 => Coordinate { x: 471, y: 107 },
            _ => Coordinate { x: 978, y: 147 },
        }
    }

    pub fn clk_div_enable(&self) -> (r: Coordinate)
        requires
            self.spec_has_large_macrocells(),
        ensures
            r == self.spec_clk_div_enable(),
    {
        match self {
            XC2Device::XC2C128 => Coordinate::new(364, 67),
            XC2Device::XC2C256 => Coordinate::new(519, 24),
            XC2Device::XC2C384 => Coordinate::new(471, 107),
            _ => Coordinate::new(978, 147),
        }
    }

    pub open spec fn spec_clk_div_ratio(self, i: int) -> Coordinate {
        match self {
            XC2Device::XC2C128 => Coordinate { x: (363 - i) as usize, y: 67 },
            XC2Device::XC2C256 => Coordinate { x: (518 - i) as usize, y: 24 },
            XC2Device::XC2C384 => Coordinate { x: (470 - i) as usize, y: 107 },
            _ => Coordinate { x: (977 - i) as usize, y: 147 },
        }
    }

    pub fn clk_div_ratio(&self, i: usize) -> (r: Coordinate)
        requires
            self.spec_has_large_macrocells(),
            i < 3,
        ensures
            r == self.spec_clk_div_ratio(i as int),
    {
        match self {
            XC2Device::XC2C128 => Coordinate::new(363 - i, 67),
            XC2Device::XC2C256 => Coordinate::new(518 - i, 24),
            XC2Device::XC2C384 => Coordinate::new(470 - i, 107),
            _ => Coordinate::new(977 - i, 147),
        }
    }

    pub open spec fn spec_clk_div_delay(self) -> Coordinate {
        match self {
            XC2Device::XC2C128 => Coordinate { x: 360, y: 67 },
            XC2Device::XC2C256 => Coordinate { x: 515, y: 24 },
            XC2Device::XC2C384 => Coordinate { x: 467, y: 107 },
            _ => Coordinate { x: 974, y: 147 },
        }
    }

    pub fn clk_div_delay(&self) -> (r: Coordinate)
        requires
            self.spec_has_large_macrocells(),
        ensures
            r == self.spec_clk_div_delay(),
    {
        match self {
            XC2Device::XC2C128 => Coordinate::new(360, 67),
            XC2Device::XC2C256 => Coordinate::new(515, 24),
            XC2Device::XC2C384 => Coordinate::new(467, 107),
            _ => Coordinate::new(974, 147),
        }
    }

    pub open spec fn spec_data_gate(self) -> Coordinate {
        match self {
            XC2Device::XC2C128 => Coordinate { x: 371, y: 67 },
            XC2Device::XC2C256 => Coordinate { x: 518, y: 23 },
            XC2Device::XC2C384 => Coordinate { x: 932, y: 17 },
            _ => Coordinate { x: 982, y: 147 },
        }
    }

    pub fn data_gate(&self) -> (r: Coordinate)
        requires
            self.spec_has_large_macrocells(),
        ensures
            r == self.spec_data_gate(),
    {
        match self {
            XC2Device::XC2C128 => Coordinate::new(371, 67),
            XC2Device::XC2C256 => Coordinate::new(518, 23),
            XC2Device::XC2C384 => Coordinate::new(932, 17),
            _ => Coordinate::new(982, 147),
        }
    }
}

} // verus!
