//! ZIA global interconnect row selector bits.

use vstd::prelude::*;

use crate::coordinate::Coordinate;
use crate::fb::FunctionBlock;
use crate::partdb::XC2Device;
use crate::{ANDTERMS_PER_FB, ZIA_ROWS};

verus! {

/// Column offset of the ZIA selector area within a pair of function
/// blocks: the macrocell tile area plus the AND array precede it.
pub open spec fn spec_zia_area_offset(device: XC2Device) -> usize {
    match device {
        XC2Device::XC2C32 | XC2Device::XC2C32A | XC2Device::XC2C64 | XC2Device::XC2C64A
            => (9 + 2 * ANDTERMS_PER_FB) as usize,
        XC2Device::XC2C256 => (10 + 2 * ANDTERMS_PER_FB) as usize,
        XC2Device::XC2C128 | XC2Device::XC2C384 | XC2Device::XC2C512
            => (15 + 2 * crate::MCS_PER_FB + 2 * ANDTERMS_PER_FB) as usize,
    }
}

pub fn zia_area_offset(device: XC2Device) -> (r: usize)
    ensures
        r == spec_zia_area_offset(device),
{
    match device {
        XC2Device::XC2C32 | XC2Device::XC2C32A | XC2Device::XC2C64 | XC2Device::XC2C64A
            => 9 + 2 * ANDTERMS_PER_FB,
        XC2Device::XC2C256 => 10 + 2 * ANDTERMS_PER_FB,
        XC2Device::XC2C128 | XC2Device::XC2C384 | XC2Device::XC2C512
            => 15 + 2 * crate::MCS_PER_FB + 2 * ANDTERMS_PER_FB,
    }
}

/// Physical location of one ZIA row selector bit.  Unlike the AND/OR and
/// macrocell bits, ZIA bits of both halves of a mirrored pair share one
/// column band in the middle of the pair, interleaved by the function
/// block's parity; nothing is mirrored here.
pub open spec fn spec_zia_bit_pos(device: XC2Device, fb: u8, zia_row: u8, biti: int)
    -> Coordinate {
    let x_base = (device.spec_zia_width() - 1 - biti) * 2 + (fb as int) % 2;
    let y_base = if device.spec_has_large_macrocells() && device != XC2Device::XC2C256 {
        zia_row as int
    } else {
        zia_row + (if zia_row >= 20 { 8int } else { 0int })
    };
    let corner = device.spec_fb_corner((fb - (fb as int % 2)) as u8);
    Coordinate {
        x: (corner.x + spec_zia_area_offset(device) + x_base) as usize,
        y: (corner.y + y_base) as usize,
    }
}

/// Physical location of one ZIA row selector bit.
pub fn zia_get_bit_pos(device: XC2Device, fb: u8, zia_row: u8, biti: usize) -> (r: Coordinate)
    requires
        fb < device.spec_num_fbs(),
        zia_row < ZIA_ROWS,
        biti < device.spec_zia_width(),
    ensures
        r == spec_zia_bit_pos(device, fb, zia_row, biti as int),
        device.spec_in_bounds(r),
{
    let x_base = (device.zia_width() - 1 - biti) * 2 + (fb as usize) % 2;
    let y_base: usize = match device {
        XC2Device::XC2C32 | XC2Device::XC2C32A | XC2Device::XC2C64 | XC2Device::XC2C64A
        | XC2Device::XC2C256 => (zia_row as usize) + (if zia_row >= 20 { 8 } else { 0 }),
        XC2Device::XC2C128 | XC2Device::XC2C384 | XC2Device::XC2C512 => zia_row as usize,
    };
    let corner = device.fb_corner(fb - (fb % 2));
    proof {
        crate::fb::lemma_corner_bounds(device, (fb - (fb as int % 2)) as u8);
    }
    Coordinate::new(corner.x + zia_area_offset(device) + x_base, corner.y + y_base)
}


pub proof fn lemma_zia_bit_pos_in_bounds(device: XC2Device, fb: u8, zia_row: u8, biti: int)
    requires
        fb < device.spec_num_fbs(),
        zia_row < ZIA_ROWS,
        0 <= biti < device.spec_zia_width(),
    ensures
        device.spec_in_bounds(spec_zia_bit_pos(device, fb, zia_row, biti)),
{
    crate::fb::lemma_corner_bounds(device, (fb - (fb as int % 2)) as u8);
}

/// Descriptor of the selector bits of one ZIA interconnect row.
#[derive(Clone, Copy, PartialEq, Eq, Structural, Debug, Hash)]
pub struct ZIARowAccessor {
    pub x: FunctionBlock,
    pub zia_row: u8,
}

impl ZIARowAccessor {
    pub open spec fn wf(self) -> bool {
        self.x.wf() && self.zia_row < ZIA_ROWS
    }

    pub open spec fn spec_bit_pos(self, biti: int) -> (Coordinate, bool) {
        (spec_zia_bit_pos(self.x.device, self.x.fb, self.zia_row, biti), false)
    }
}
impl crate::props::PropertyAccessor for ZIARowAccessor {
    proof fn lemma_bit_pos_in_bounds(&self, biti: int) {
        lemma_zia_bit_pos_in_bounds(self.x.device, self.x.fb, self.zia_row, biti);
    }

    open spec fn prop_device(&self) -> XC2Device {
        self.x.device
    }

    open spec fn prop_wf(&self) -> bool {
        self.wf()
    }

    open spec fn prop_width(&self) -> int {
        self.x.device.spec_zia_width() as int
    }

    open spec fn prop_bit_pos(&self, biti: int) -> (Coordinate, bool) {
        self.spec_bit_pos(biti)
    }

    fn width(&self) -> usize {
        self.x.device.zia_width()
    }

    fn bit_pos(&self, biti: usize) -> (r: (Coordinate, bool)) {

        (zia_get_bit_pos(self.x.device, self.x.fb, self.zia_row, biti), false)
    }
}


} // verus!
