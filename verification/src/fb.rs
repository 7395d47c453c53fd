//! Function block descriptors and the PLA (AND/OR array) bit addressing.

use vstd::prelude::*;

use crate::coordinate::Coordinate;
use crate::partdb::XC2Device;
use crate::zia::ZIARowAccessor;
use crate::io::IoPad;
use crate::mc::Macrocell;
use crate::{ANDTERMS_PER_FB, MCS_PER_FB, ZIA_ROWS};

verus! {

/// Column permutation of the AND array in the large-macrocell devices,
/// correcting for a physical gap every few columns.  The table is
/// palindromic around its midpoint; it is a permutation of `0..56`.
pub const NOGAP_AND_TERM_PERMUTE: [usize; 56] = [
    0, 1, 2, 3, 4, 5, 6, 7, 8, 9, 10,
    14, 15, 16,
    20, 21, 22,
    26, 27, 28,
    32, 33, 34,
    38, 39, 40,
    44, 45, 46,
    50, 51, 52,
    55, 54, 53,
    49, 48, 47,
    43, 42, 41,
    37, 36, 35,
    31, 30, 29,
    25, 24, 23,
    19, 18, 17,
    13, 12, 11,
];

/// Row permutation of the OR array in the large-macrocell devices: the row
/// holding the OR bits of product-term pair `pterm / 2`.
pub const SIDE_OR_ROW_PERMUTE: [usize; 28] = [
    17, 19, 22, 20, 0, 1, 3, 4, 5, 7, 8, 11, 12, 13, 15, 16, 23, 24, 26, 27, 28, 31, 32, 34, 35,
    36, 38, 39,
];

/// Place a block-relative bit offset into the physical array: even function
/// blocks grow rightward from their corner, odd ones mirror leftward about
/// theirs (columns reflected, rows kept).
pub open spec fn spec_mirror_fb(device: XC2Device, fb: u8, off: Coordinate) -> Coordinate {
    if fb % 2 == 0 {
        device.spec_fb_corner(fb).spec_plus(off)
    } else {
        device.spec_fb_corner(fb).spec_sub_x_add_y(off)
    }
}

/// Every odd-numbered function block's corner column is at least 258, and
/// corners stay well inside the array, so offsets up to (250, 100) place
/// safely.
pub proof fn lemma_corner_bounds(device: XC2Device, fb: u8)
    requires
        fb < device.spec_num_fbs(),
    ensures
        fb % 2 == 1 ==> device.spec_fb_corner(fb).x >= 258,
        device.spec_fb_corner(fb).x <= 1978,
        device.spec_fb_corner(fb).y <= 120,
{
}

pub fn mirror_fb(device: XC2Device, fb: u8, off: Coordinate) -> (r: Coordinate)
    requires
        fb < device.spec_num_fbs(),
        off.x <= 250,
        off.y <= 47,
        device.spec_has_large_macrocells() && device != XC2Device::XC2C256 ==> off.y <= 41,
    ensures
        r == spec_mirror_fb(device, fb, off),
        device.spec_in_bounds(r),
{
    proof {
        lemma_corner_bounds(device, fb);
    }
    let corner = device.fb_corner(fb);
    if fb % 2 == 0 {
        corner.plus(off)
    } else {
        corner.sub_x_add_y(off)
    }
}

/// Column offset of the AND/OR area within a function block: the width of
/// the macrocell property tile area that precedes it.
pub open spec fn spec_mc_area_width(device: XC2Device) -> usize {
    match device {
        XC2Device::XC2C32 | XC2Device::XC2C32A | XC2Device::XC2C64 | XC2Device::XC2C64A => 9usize,
        XC2Device::XC2C256 => 10usize,
        XC2Device::XC2C128 | XC2Device::XC2C384 | XC2Device::XC2C512 => 15usize,
    }
}

pub fn mc_area_width(device: XC2Device) -> (r: usize)
    ensures
        r == spec_mc_area_width(device),
{
    match device {
        XC2Device::XC2C32 | XC2Device::XC2C32A | XC2Device::XC2C64 | XC2Device::XC2C64A => 9,
        XC2Device::XC2C256 => 10,
        XC2Device::XC2C128 | XC2Device::XC2C384 | XC2Device::XC2C512 => 15,
    }
}

/// Block-relative offset of an AND-array bit.
pub open spec fn spec_and_bit_offset(device: XC2Device, pterm_i: u8, inp_i: u8, comp: bool)
    -> Coordinate {
    if device.spec_has_large_macrocells() && device != XC2Device::XC2C256 {
        let x = 15 + 2 * MCS_PER_FB + 2 * NOGAP_AND_TERM_PERMUTE[pterm_i as int] + (
        if comp { 0int } else { 1int });
        Coordinate { x: x as usize, y: inp_i as usize }
    } else {
        let x = spec_mc_area_width(device) + 2 * (pterm_i as int) + (if comp { 0int } else { 1int });
        let y = inp_i + (if inp_i >= 20 { 8int } else { 0int });
        Coordinate { x: x as usize, y: y as usize }
    }
}

/// Physical location of one AND-array (product term input) bit.
pub open spec fn spec_and_bit_pos(device: XC2Device, fb: u8, pterm_i: u8, inp_i: u8, comp: bool)
    -> Coordinate {
    spec_mirror_fb(device, fb, spec_and_bit_offset(device, pterm_i, inp_i, comp))
}

/// Physical location of one AND-array (product term input) bit.
///
/// In the small-macrocell family the column comes straight from the
/// product term index and the row gets the physical gap at row 20; the
/// large family instead permutes columns through
/// [`NOGAP_AND_TERM_PERMUTE`] with no row gap.
pub fn and_get_bit_pos(device: XC2Device, fb: u8, pterm_i: u8, inp_i: u8, comp: bool)
    -> (r: Coordinate)
    requires
        fb < device.spec_num_fbs(),
        pterm_i < ANDTERMS_PER_FB,
        inp_i < ZIA_ROWS,
    ensures
        r == spec_and_bit_pos(device, fb, pterm_i, inp_i, comp),
        device.spec_in_bounds(r),
{
    let off = if device.has_large_macrocells() && device != XC2Device::XC2C256 {
        let x = 15 + 2 * MCS_PER_FB + 2 * NOGAP_AND_TERM_PERMUTE[pterm_i as usize] + (
        if comp { 0usize } else { 1usize });
        assert(NOGAP_AND_TERM_PERMUTE[pterm_i as int] <= 55);
        Coordinate::new(x, inp_i as usize)
    } else {
        let x = mc_area_width(device) + 2 * (pterm_i as usize) + (if comp { 0usize } else { 1usize });
        let y = (inp_i as usize) + (if inp_i >= 20 { 8usize } else { 0usize });
        Coordinate::new(x, y)
    };
    mirror_fb(device, fb, off)
}

/// Block-relative offset of an OR-array bit.
pub open spec fn spec_or_bit_offset(device: XC2Device, mc: u8, pterm_i: u8) -> Coordinate {
    if device.spec_has_large_macrocells() && device != XC2Device::XC2C256 {
        let y = SIDE_OR_ROW_PERMUTE[pterm_i as int / 2];
        let x = 15 + 2 * (mc as int) + (if y >= 23 {
            1 - (pterm_i as int) % 2
        } else {
            (pterm_i as int) % 2
        });
        Coordinate { x: x as usize, y }
    } else {
        let x = spec_mc_area_width(device) + (mc as int) % 2 + 2 * (pterm_i as int);
        let y = 20 + (mc as int) / 2;
        Coordinate { x: x as usize, y: y as usize }
    }
}

/// Physical location of one OR-array (sum term) bit.
pub open spec fn spec_or_bit_pos(device: XC2Device, fb: u8, mc: u8, pterm_i: u8) -> Coordinate {
    spec_mirror_fb(device, fb, spec_or_bit_offset(device, mc, pterm_i))
}

/// Physical location of one OR-array (sum term) bit.
///
/// The small-macrocell family packs OR bits in rows 20..28; the large
/// family spreads them through the AND rows via [`SIDE_OR_ROW_PERMUTE`],
/// flipping column parity in the upper half of the block because the
/// physical OR array is laid out as two mirrored halves.
pub fn or_get_bit_pos(device: XC2Device, fb: u8, mc: u8, pterm_i: u8) -> (r: Coordinate)
    requires
        fb < device.spec_num_fbs(),
        mc < MCS_PER_FB,
        pterm_i < ANDTERMS_PER_FB,
    ensures
        r == spec_or_bit_pos(device, fb, mc, pterm_i),
        device.spec_in_bounds(r),
{
    let off = if device.has_large_macrocells() && device != XC2Device::XC2C256 {
        let y = SIDE_OR_ROW_PERMUTE[(pterm_i as usize) / 2];
        assert(SIDE_OR_ROW_PERMUTE[pterm_i as int / 2] <= 39);
        let x = 15 + 2 * (mc as usize) + (if y >= 23 {
            1 - (pterm_i as usize) % 2
        } else {
            (pterm_i as usize) % 2
        });
        Coordinate::new(x, y)
    } else {
        let x = mc_area_width(device) + (mc as usize) % 2 + 2 * (pterm_i as usize);
        let y = 20 + (mc as usize) / 2;
        Coordinate::new(x, y)
    };
    mirror_fb(device, fb, off)
}


pub proof fn lemma_mirror_fb_in_bounds(device: XC2Device, fb: u8, off: Coordinate)
    requires
        fb < device.spec_num_fbs(),
        off.x <= 250,
        off.y <= 47,
        device.spec_has_large_macrocells() && device != XC2Device::XC2C256 ==> off.y <= 41,
    ensures
        device.spec_in_bounds(spec_mirror_fb(device, fb, off)),
{
    lemma_corner_bounds(device, fb);
}

pub proof fn lemma_and_bit_pos_in_bounds(device: XC2Device, fb: u8, pterm_i: u8, inp_i: u8, comp: bool)
    requires
        fb < device.spec_num_fbs(),
        pterm_i < ANDTERMS_PER_FB,
        inp_i < ZIA_ROWS,
    ensures
        device.spec_in_bounds(spec_and_bit_pos(device, fb, pterm_i, inp_i, comp)),
{
    assert(NOGAP_AND_TERM_PERMUTE[pterm_i as int] <= 55);
    lemma_mirror_fb_in_bounds(device, fb, spec_and_bit_offset(device, pterm_i, inp_i, comp));
}

pub proof fn lemma_or_bit_pos_in_bounds(device: XC2Device, fb: u8, mc: u8, pterm_i: u8)
    requires
        fb < device.spec_num_fbs(),
        mc < MCS_PER_FB,
        pterm_i < ANDTERMS_PER_FB,
    ensures
        device.spec_in_bounds(spec_or_bit_pos(device, fb, mc, pterm_i)),
{
    assert(SIDE_OR_ROW_PERMUTE[pterm_i as int / 2] <= 39);
    lemma_mirror_fb_in_bounds(device, fb, spec_or_bit_offset(device, mc, pterm_i));
}

/// Descriptor of one function block.
#[derive(Clone, Copy, PartialEq, Eq, Structural, Debug, Hash)]
pub struct FunctionBlock {
    pub device: XC2Device,
    pub fb: u8,
}

impl FunctionBlock {
    /// The descriptor addresses a function block that exists on its device.
    pub open spec fn wf(self) -> bool {
        self.fb < self.device.spec_num_fbs()
    }

    pub fn and_term(&self, pterm_i: u8) -> (r: AndTerm)
        requires
            pterm_i < ANDTERMS_PER_FB,
        ensures
            r == (AndTerm { x: *self, pterm_i }),
    {
        AndTerm { x: *self, pterm_i }
    }

    pub fn or_term(&self, mc: u8) -> (r: OrTerm)
        requires
            mc < MCS_PER_FB,
        ensures
            r == (OrTerm { x: *self, mc }),
    {
        OrTerm { x: *self, mc }
    }

    pub fn mc(&self, mc: u8) -> (r: Macrocell)
        requires
            mc < MCS_PER_FB,
        ensures
            r == (Macrocell { x: *self, mc }),
    {
        Macrocell { x: *self, mc }
    }

    pub fn io(&self, mc: u8) -> (r: IoPad)
        requires
            mc < MCS_PER_FB,
        ensures
            r == (IoPad { x: *self, mc }),
    {
        IoPad { x: *self, mc }
    }

    pub fn zia_row(&self, zia_row: u8) -> (r: ZIARowAccessor)
        requires
            zia_row < ZIA_ROWS,
        ensures
            r == (ZIARowAccessor { x: *self, zia_row }),
    {
        ZIARowAccessor { x: *self, zia_row }
    }
}

/// Descriptor of one product term of a function block.
#[derive(Clone, Copy, PartialEq, Eq, Structural, Debug, Hash)]
pub struct AndTerm {
    pub x: FunctionBlock,
    pub pterm_i: u8,
}

impl AndTerm {
    pub open spec fn wf(self) -> bool {
        self.x.wf() && self.pterm_i < ANDTERMS_PER_FB
    }

    /// The true (non-complemented) input of this product term from a ZIA row.
    pub fn inp(&self, zia_row: u8) -> (r: TrueInput)
        requires
            zia_row < ZIA_ROWS,
        ensures
            r == (TrueInput { x: *self, zia_row }),
    {
        TrueInput { x: *self, zia_row }
    }

    /// The complemented input of this product term from a ZIA row.
    pub fn inp_n(&self, zia_row: u8) -> (r: CompInput)
        requires
            zia_row < ZIA_ROWS,
        ensures
            r == (CompInput { x: *self, zia_row }),
    {
        CompInput { x: *self, zia_row }
    }
}

/// Single-bit property: a product term's true input.
#[derive(Clone, Copy, PartialEq, Eq, Structural, Debug, Hash)]
pub struct TrueInput {
    pub x: AndTerm,
    pub zia_row: u8,
}

impl TrueInput {
    pub open spec fn wf(self) -> bool {
        self.x.wf() && self.zia_row < ZIA_ROWS
    }

    pub open spec fn spec_bit_pos(self) -> (Coordinate, bool) {
        (spec_and_bit_pos(self.x.x.device, self.x.x.fb, self.x.pterm_i, self.zia_row, false), true)
    }
}
impl crate::props::PropertyAccessor for TrueInput {
    proof fn lemma_bit_pos_in_bounds(&self, biti: int) {
        crate::fb::lemma_and_bit_pos_in_bounds(self.x.x.device, self.x.x.fb, self.x.pterm_i, self.zia_row, false);
    }

    open spec fn prop_device(&self) -> XC2Device {
        self.x.x.device
    }

    open spec fn prop_wf(&self) -> bool {
        self.wf()
    }

    open spec fn prop_width(&self) -> int {
        1
    }

    open spec fn prop_bit_pos(&self, biti: int) -> (Coordinate, bool) {
        self.spec_bit_pos()
    }

    fn width(&self) -> usize {
        1
    }

    fn bit_pos(&self, _biti: usize) -> (r: (Coordinate, bool)) {

        (
            and_get_bit_pos(self.x.x.device, self.x.x.fb, self.x.pterm_i, self.zia_row, false),
            true,
        )
    }
}


/// Single-bit property: a product term's complemented input.
#[derive(Clone, Copy, PartialEq, Eq, Structural, Debug, Hash)]
pub struct CompInput {
    pub x: AndTerm,
    pub zia_row: u8,
}

impl CompInput {
    pub open spec fn wf(self) -> bool {
        self.x.wf() && self.zia_row < ZIA_ROWS
    }

    pub open spec fn spec_bit_pos(self) -> (Coordinate, bool) {
        (spec_and_bit_pos(self.x.x.device, self.x.x.fb, self.x.pterm_i, self.zia_row, true), true)
    }
}
impl crate::props::PropertyAccessor for CompInput {
    proof fn lemma_bit_pos_in_bounds(&self, biti: int) {
        crate::fb::lemma_and_bit_pos_in_bounds(self.x.x.device, self.x.x.fb, self.x.pterm_i, self.zia_row, true);
    }

    open spec fn prop_device(&self) -> XC2Device {
        self.x.x.device
    }

    open spec fn prop_wf(&self) -> bool {
        self.wf()
    }

    open spec fn prop_width(&self) -> int {
        1
    }

    open spec fn prop_bit_pos(&self, biti: int) -> (Coordinate, bool) {
        self.spec_bit_pos()
    }

    fn width(&self) -> usize {
        1
    }

    fn bit_pos(&self, _biti: usize) -> (r: (Coordinate, bool)) {

        (
            and_get_bit_pos(self.x.x.device, self.x.x.fb, self.x.pterm_i, self.zia_row, true),
            true,
        )
    }
}


/// Descriptor of one OR (sum) term of a function block.
#[derive(Clone, Copy, PartialEq, Eq, Structural, Debug, Hash)]
pub struct OrTerm {
    pub x: FunctionBlock,
    pub mc: u8,
}

impl OrTerm {
    pub open spec fn wf(self) -> bool {
        self.x.wf() && self.mc < MCS_PER_FB
    }

    /// The input of this OR term from a product term.
    pub fn inp(&self, pterm_i: u8) -> (r: OrInput)
        requires
            pterm_i < ANDTERMS_PER_FB,
        ensures
            r == (OrInput { x: *self, pterm_i }),
    {
        OrInput { x: *self, pterm_i }
    }
}

/// Single-bit property: one OR-term input.
#[derive(Clone, Copy, PartialEq, Eq, Structural, Debug, Hash)]
pub struct OrInput {
    pub x: OrTerm,
    pub pterm_i: u8,
}

impl OrInput {
    pub open spec fn wf(self) -> bool {
        self.x.wf() && self.pterm_i < ANDTERMS_PER_FB
    }

    pub open spec fn spec_bit_pos(self) -> (Coordinate, bool) {
        (spec_or_bit_pos(self.x.x.device, self.x.x.fb, self.x.mc, self.pterm_i), true)
    }
}
impl crate::props::PropertyAccessor for OrInput {
    proof fn lemma_bit_pos_in_bounds(&self, biti: int) {
        crate::fb::lemma_or_bit_pos_in_bounds(self.x.x.device, self.x.x.fb, self.x.mc, self.pterm_i);
    }

    open spec fn prop_device(&self) -> XC2Device {
        self.x.x.device
    }

    open spec fn prop_wf(&self) -> bool {
        self.wf()
    }

    open spec fn prop_width(&self) -> int {
        1
    }

    open spec fn prop_bit_pos(&self, biti: int) -> (Coordinate, bool) {
        self.spec_bit_pos()
    }

    fn width(&self) -> usize {
        1
    }

    fn bit_pos(&self, _biti: usize) -> (r: (Coordinate, bool)) {

        (or_get_bit_pos(self.x.x.device, self.x.x.fb, self.x.mc, self.pterm_i), true)
    }
}


} // verus!
