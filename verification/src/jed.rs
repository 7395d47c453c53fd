//! The linear fuse ordering of JEDEC programming files.
//!
//! For each function block the file holds, in order: the ZIA selector
//! bits, the AND array, the OR array, and the macrocell property bits
//! (27 per macrocell on the small devices; 29 or 16 on the large ones,
//! depending on whether the macrocell owns a pad).  A small global tail
//! follows the last function block.  `jed_index_to_crbit` translates
//! every position of that ordering to its physical coordinate.

use vstd::prelude::*;

use crate::bitstream::{spec_blank_cleared, Coolrunner2};
use crate::coordinate::Coordinate;
use crate::crbit::{spec_trim_hi, spec_trim_lo};
use crate::partname::{parse_part_bytes, part_name_bytes, spec_parse_part, spec_part_name};
use crate::fb::{spec_and_bit_pos, spec_or_bit_pos, and_get_bit_pos, or_get_bit_pos};
use crate::mc::{spec_mc_prop_coord, mc_prop_coord};
use crate::partdb::{XC2Device, XC2Part};
use crate::zia::{spec_zia_bit_pos, zia_get_bit_pos};
use crate::{ANDTERMS_PER_FB, MCS_PER_FB, ZIA_ROWS};

verus! {

/// Order in which the 16 JEDEC bits of a buried (pad-less) macrocell of
/// the large devices map to the tile bit positions of the full 29-bit
/// ordering: the pad-related bits are skipped.
pub const FAT_BURIED_BIT_ORDER: [usize; 16] = [
    0, 1, 2, 3, 4, 6, 7, 17, 18, 19, 21, 22, 23, 24, 27, 28,
];

/// Width of one macrocell's block in the JEDEC ordering.
pub open spec fn spec_jed_mc_width(device: XC2Device, fb: u8, mc: u8) -> int {
    if device.spec_has_large_macrocells() {
        if device.spec_has_io_at(fb, mc) {
            29
        } else {
            16
        }
    } else {
        27
    }
}

/// Total width of the first `n` macrocell blocks of one function block.
pub open spec fn spec_jed_mc_block(device: XC2Device, fb: u8, n: int) -> int
    decreases n,
{
    if n <= 0 {
        0
    } else {
        spec_jed_mc_block(device, fb, n - 1) + spec_jed_mc_width(device, fb, (n - 1) as u8)
    }
}

/// Number of JEDEC bits of one function block.
pub open spec fn spec_jed_fb_size(device: XC2Device, fb: u8) -> int {
    device.spec_zia_width() * ZIA_ROWS + 2 * ZIA_ROWS * ANDTERMS_PER_FB + MCS_PER_FB
        * ANDTERMS_PER_FB + spec_jed_mc_block(device, fb, MCS_PER_FB as int)
}

/// First JEDEC index of function block `n`.
pub open spec fn spec_jed_fb_base(device: XC2Device, n: int) -> int
    decreases n,
{
    if n <= 0 {
        0
    } else {
        spec_jed_fb_base(device, n - 1) + spec_jed_fb_size(device, (n - 1) as u8)
    }
}

/// Number of JEDEC bits in the global tail after the function blocks.
pub open spec fn spec_jed_tail_len(device: XC2Device) -> int {
    match device {
        XC2Device::XC2C32 => 18,
        XC2Device::XC2C32A => 22,
        XC2Device::XC2C64 => 16,
        XC2Device::XC2C64A => 20,
        XC2Device::XC2C128 => 25,
        XC2Device::XC2C256 => 25,
        XC2Device::XC2C384 => 29,
        XC2Device::XC2C512 => 29,
    }
}

/// Total number of fuses in the JEDEC ordering.
pub open spec fn spec_num_jed_fuses(device: XC2Device) -> int {
    match device {
        XC2Device::XC2C32 => 12274,
        XC2Device::XC2C32A => 12278,
        XC2Device::XC2C64 => 25808,
        XC2Device::XC2C64A => 25812,
        XC2Device::XC2C128 => 55341,
        XC2Device::XC2C256 => 123249,
        XC2Device::XC2C384 => 209357,
        XC2Device::XC2C512 => 296403,
    }
}

/// The fuse count splits into the function blocks plus the global tail.
#[verifier::rlimit(100)]
pub proof fn lemma_jed_structure(device: XC2Device)
    ensures
        spec_jed_fb_base(device, device.spec_num_fbs() as int) + spec_jed_tail_len(device)
            == spec_num_jed_fuses(device),
{
    reveal_with_fuel(spec_jed_fb_base, 33);
    reveal_with_fuel(spec_jed_mc_block, 17);
    match device {
        XC2Device::XC2C32 => {
            assert(spec_jed_fb_base(XC2Device::XC2C32, 2) == 12256);
        },
        XC2Device::XC2C32A => {
            assert(spec_jed_fb_base(XC2Device::XC2C32A, 2) == 12256);
        },
        XC2Device::XC2C64 => {
            assert(spec_jed_fb_base(XC2Device::XC2C64, 4) == 25792);
        },
        XC2Device::XC2C64A => {
            assert(spec_jed_fb_base(XC2Device::XC2C64A, 4) == 25792);
        },
        XC2Device::XC2C128 => {
            assert(spec_jed_fb_base(XC2Device::XC2C128, 8) == 55316);
        },
        XC2Device::XC2C256 => {
            assert(spec_jed_fb_base(XC2Device::XC2C256, 16) == 123224);
        },
        XC2Device::XC2C384 => {
            assert(spec_jed_fb_base(XC2Device::XC2C384, 24) == 209328);
        },
        XC2Device::XC2C512 => {
            assert(spec_jed_fb_base(XC2Device::XC2C512, 32) == 296374);
        },
    }
}

/// Function block sizes are positive and bounded.
pub proof fn lemma_jed_mc_block_bounds(device: XC2Device, fb: u8, n: int)
    requires
        0 <= n <= 16,
    ensures
        0 <= spec_jed_mc_block(device, fb, n) <= 29 * n,
    decreases n,
{
    if n > 0 {
        lemma_jed_mc_block_bounds(device, fb, n - 1);
    }
}

/// The macrocell block widths accumulate monotonically.
pub proof fn lemma_jed_mc_block_mono(device: XC2Device, fb: u8, m: int, n: int)
    requires
        0 <= m <= n <= 16,
    ensures
        spec_jed_mc_block(device, fb, m) <= spec_jed_mc_block(device, fb, n),
    decreases n - m,
{
    if m < n {
        lemma_jed_mc_block_mono(device, fb, m, n - 1);
    }
}

pub proof fn lemma_jed_fb_size_bounds(device: XC2Device, fb: u8)
    ensures
        5376 < spec_jed_fb_size(device, fb) <= 9984,
{
    lemma_jed_mc_block_bounds(device, fb, 16);
}

pub proof fn lemma_jed_fb_base_bounds(device: XC2Device, n: int)
    requires
        0 <= n <= device.spec_num_fbs(),
    ensures
        0 <= spec_jed_fb_base(device, n) <= 9984 * n,
    decreases n,
{
    if n > 0 {
        lemma_jed_fb_base_bounds(device, n - 1);
        lemma_jed_fb_size_bounds(device, (n - 1) as u8);
    }
}

impl XC2Device {
    /// Total number of fuses in this device's JEDEC ordering.
    pub fn num_jed_fuses(&self) -> (r: usize)
        ensures
            r == spec_num_jed_fuses(*self),
    {
        match self {
            XC2Device::XC2C32 => 12274,
            XC2Device::XC2C32A => 12278,
            XC2Device::XC2C64 => 25808,
            XC2Device::XC2C64A => 25812,
            XC2Device::XC2C128 => 55341,
            XC2Device::XC2C256 => 123249,
            XC2Device::XC2C384 => 209357,
            XC2Device::XC2C512 => 296403,
        }
    }

    /// Infer the device variant from a fuse count, exactly.
    pub fn guess_device_from_fuses(fuse_count: usize) -> (r: Option<XC2Device>)
        ensures
            r == spec_guess_device_from_fuses(fuse_count as int),
    {
        match fuse_count {
            12274 => Some(XC2Device::XC2C32),
            12278 => Some(XC2Device::XC2C32A),
            25808 => Some(XC2Device::XC2C64),
            25812 => Some(XC2Device::XC2C64A),
            55341 => Some(XC2Device::XC2C128),
            123249 => Some(XC2Device::XC2C256),
            209357 => Some(XC2Device::XC2C384),
            296403 => Some(XC2Device::XC2C512),
            _ => None,
        }
    }

    /// Number of JEDEC bits of one function block.
    pub fn jed_fb_size(&self, fb: u8) -> (r: usize)
        requires
            fb < self.spec_num_fbs(),
        ensures
            r == spec_jed_fb_size(*self, fb),
    {
        let mut mc_block: usize = 0;
        let mut mc: usize = 0;
        while mc < MCS_PER_FB
            invariant
                fb < self.spec_num_fbs(),
                mc <= MCS_PER_FB,
                mc_block == spec_jed_mc_block(*self, fb, mc as int),
                mc_block <= 29 * mc,
            decreases MCS_PER_FB - mc,
        {
            let w: usize = if self.has_large_macrocells() {
                if self.has_io_at(fb, mc as u8) {
                    29
                } else {
                    16
                }
            } else {
                27
            };
            mc_block += w;
            mc += 1;
        }
        self.zia_width() * ZIA_ROWS + 2 * ZIA_ROWS * ANDTERMS_PER_FB + MCS_PER_FB * ANDTERMS_PER_FB
            + mc_block
    }
}

/// Infer the device variant from a fuse count, exactly.
pub open spec fn spec_guess_device_from_fuses(fuse_count: int) -> Option<XC2Device> {
    if fuse_count == 12274 {
        Some(XC2Device::XC2C32)
    } else if fuse_count == 12278 {
        Some(XC2Device::XC2C32A)
    } else if fuse_count == 25808 {
        Some(XC2Device::XC2C64)
    } else if fuse_count == 25812 {
        Some(XC2Device::XC2C64A)
    } else if fuse_count == 55341 {
        Some(XC2Device::XC2C128)
    } else if fuse_count == 123249 {
        Some(XC2Device::XC2C256)
    } else if fuse_count == 209357 {
        Some(XC2Device::XC2C384)
    } else if fuse_count == 296403 {
        Some(XC2Device::XC2C512)
    } else {
        None
    }
}

/// Which function block a JEDEC index falls into, and the offset within
/// that block, scanning from block `fb` whose first index has offset 0.
pub open spec fn spec_locate_fb(device: XC2Device, fb: int, off: int) -> Option<(int, int)>
    decreases device.spec_num_fbs() - fb,
{
    if fb >= device.spec_num_fbs() {
        None
    } else if off < spec_jed_fb_size(device, fb as u8) {
        Some((fb, off))
    } else {
        spec_locate_fb(device, fb + 1, off - spec_jed_fb_size(device, fb as u8))
    }
}

/// Which function block a JEDEC index falls into, with the offset inside
/// that block; `None` for the global tail.
pub open spec fn spec_is_fb(device: XC2Device, jed_idx: int) -> Option<(int, int)> {
    spec_locate_fb(device, 0, jed_idx)
}

/// Located offsets decompose the index against the block bases.
pub proof fn lemma_locate_fb_some(device: XC2Device, fb: int, off: int)
    requires
        0 <= fb <= device.spec_num_fbs(),
        0 <= off,
        off + spec_jed_fb_base(device, fb) < spec_jed_fb_base(device, device.spec_num_fbs() as int),
    ensures
        spec_locate_fb(device, fb, off) is Some,
        ({
            let (f, o) = spec_locate_fb(device, fb, off)->Some_0;
            &&& fb <= f < device.spec_num_fbs()
            &&& 0 <= o < spec_jed_fb_size(device, f as u8)
            &&& off + spec_jed_fb_base(device, fb) == spec_jed_fb_base(device, f) + o
        }),
    decreases device.spec_num_fbs() - fb,
{
    if fb == device.spec_num_fbs() {
    } else if off < spec_jed_fb_size(device, fb as u8) {
    } else {
        lemma_locate_fb_some(device, fb + 1, off - spec_jed_fb_size(device, fb as u8));
    }
}

/// Block bases grow with the block index.
pub proof fn lemma_jed_fb_base_mono(device: XC2Device, a: int, b: int)
    requires
        0 <= a <= b,
    ensures
        spec_jed_fb_base(device, a) <= spec_jed_fb_base(device, b),
    decreases b - a,
{
    if a < b {
        lemma_jed_fb_base_mono(device, a, b - 1);
        lemma_jed_fb_size_bounds(device, (b - 1) as u8);
    }
}

pub proof fn lemma_locate_fb_none(device: XC2Device, fb: int, off: int)
    requires
        0 <= fb <= device.spec_num_fbs(),
        off + spec_jed_fb_base(device, fb) >= spec_jed_fb_base(
            device,
            device.spec_num_fbs() as int,
        ),
    ensures
        spec_locate_fb(device, fb, off) is None,
    decreases device.spec_num_fbs() - fb,
{
    if fb < device.spec_num_fbs() {
        lemma_jed_fb_size_bounds(device, fb as u8);
        lemma_jed_fb_base_mono(device, fb + 1, device.spec_num_fbs() as int);
        lemma_locate_fb_none(device, fb + 1, off - spec_jed_fb_size(device, fb as u8));
    }
}

impl XC2Device {
    /// Which function block a JEDEC index falls into, with the offset
    /// inside that block; `None` for the global tail.
    pub fn jed_idx_to_fb(&self, jed_idx: usize) -> (r: Option<(usize, usize)>)
        requires
            jed_idx < spec_num_jed_fuses(*self),
        ensures
            ({
                match spec_is_fb(*self, jed_idx as int) {
                    Some((f, o)) => r == Some((f as usize, o as usize)),
                    None => r is None,
                }
            }),
    {
        let nfb = self.num_fbs();
        let mut fb: usize = 0;
        let mut off: usize = jed_idx;
        proof {
            lemma_jed_fb_base_bounds(*self, self.spec_num_fbs() as int);
        }
        while fb < nfb
            invariant
                nfb == self.spec_num_fbs(),
                fb <= nfb,
                off <= jed_idx,
                jed_idx < spec_num_jed_fuses(*self),
                off == jed_idx - spec_jed_fb_base(*self, fb as int),
                spec_is_fb(*self, jed_idx as int) == spec_locate_fb(*self, fb as int, off as int),
            decreases nfb - fb,
        {
            let size = self.jed_fb_size(fb as u8);
            if off < size {
                return Some((fb, off));
            }
            off -= size;
            fb += 1;
        }
        proof {
            lemma_locate_fb_none(*self, nfb as int, off as int);
        }
        None
    }
}

/// Which macrocell an offset into the macrocell region of a function
/// block falls into, and the offset within that macrocell's block,
/// scanning from macrocell `mc`.
pub open spec fn spec_locate_mc(device: XC2Device, fb: u8, mc: int, off: int) -> (int, int)
    decreases MCS_PER_FB - mc,
{
    if mc >= 15 {
        (15, off)
    } else if off < spec_jed_mc_width(device, fb, mc as u8) {
        (mc, off)
    } else {
        spec_locate_mc(device, fb, mc + 1, off - spec_jed_mc_width(device, fb, mc as u8))
    }
}

pub proof fn lemma_locate_mc_props(device: XC2Device, fb: u8, mc: int, off: int)
    requires
        0 <= mc < MCS_PER_FB,
        0 <= off,
        off + spec_jed_mc_block(device, fb, mc) < spec_jed_mc_block(device, fb, MCS_PER_FB as int),
    ensures
        ({
            let (m, o) = spec_locate_mc(device, fb, mc, off);
            &&& mc <= m < MCS_PER_FB
            &&& 0 <= o < spec_jed_mc_width(device, fb, m as u8)
            &&& off + spec_jed_mc_block(device, fb, mc) == spec_jed_mc_block(device, fb, m) + o
        }),
    decreases MCS_PER_FB - mc,
{
    if mc == 15 {
        assert(spec_jed_mc_block(device, fb, 16) == spec_jed_mc_block(device, fb, 15)
            + spec_jed_mc_width(device, fb, 15));
    } else if off < spec_jed_mc_width(device, fb, mc as u8) {
    } else {
        lemma_locate_mc_props(device, fb, mc + 1, off - spec_jed_mc_width(device, fb, mc as u8));
    }
}

/// Which macrocell an offset into the macrocell region falls into,
/// together with the offset inside that macrocell's block.
pub fn get_fat_mc_idx(device: XC2Device, fb: u8, offs: usize) -> (r: (usize, usize))
    requires
        fb < device.spec_num_fbs(),
        offs < spec_jed_mc_block(device, fb, MCS_PER_FB as int),
    ensures
        ({
            let (m, o) = spec_locate_mc(device, fb, 0, offs as int);
            r == (m as usize, o as usize)
        }),
{
    let mut mc: usize = 0;
    let mut off: usize = offs;
    while mc < MCS_PER_FB - 1
        invariant
            fb < device.spec_num_fbs(),
            mc < MCS_PER_FB,
            off <= offs,
            offs < spec_jed_mc_block(device, fb, MCS_PER_FB as int),
            off == offs - spec_jed_mc_block(device, fb, mc as int),
            spec_locate_mc(device, fb, 0, offs as int) == spec_locate_mc(
                device,
                fb,
                mc as int,
                off as int,
            ),
        decreases MCS_PER_FB - mc,
    {
        let w: usize = if device.has_large_macrocells() {
            if device.has_io_at(fb, mc as u8) {
                29
            } else {
                16
            }
        } else {
            27
        };
        if off < w {
            return (mc, off);
        }
        off -= w;
        mc += 1;
    }
    proof {
        lemma_locate_mc_props(device, fb, 0, offs as int);
    }
    (mc, off)
}

/// The small-macrocell devices' macrocell region is 16 uniform 27-bit
/// blocks.
pub proof fn lemma_small_mc_block(device: XC2Device, fb: u8, n: int)
    requires
        0 <= n <= 16,
        !device.spec_has_large_macrocells(),
    ensures
        spec_jed_mc_block(device, fb, n) == 27 * n,
    decreases n,
{
    if n > 0 {
        lemma_small_mc_block(device, fb, n - 1);
    }
}

/// Coordinate of a JEDEC bit inside one function block's span.
pub open spec fn spec_jed_region_coord(device: XC2Device, fb: u8, off: int) -> Coordinate {
    let zia_end = device.spec_zia_width() * ZIA_ROWS;
    let and_end = zia_end + 2 * ZIA_ROWS * ANDTERMS_PER_FB;
    let or_end = and_end + MCS_PER_FB * ANDTERMS_PER_FB;
    if off < zia_end {
        spec_zia_bit_pos(device, fb, (off / device.spec_zia_width() as int) as u8, off % (
        device.spec_zia_width() as int))
    } else if off < and_end {
        let o = off - zia_end;
        spec_and_bit_pos(device, fb, (o / 80) as u8, ((o % 80) / 2) as u8, (o % 80) % 2 == 1)
    } else if off < or_end {
        let o = off - and_end;
        spec_or_bit_pos(device, fb, (o % 16) as u8, (o / 16) as u8)
    } else {
        let o = off - or_end;
        if device.spec_has_large_macrocells() {
            let (m, mo) = spec_locate_mc(device, fb, 0, o);
            let k = if device.spec_has_io_at(fb, m as u8) {
                mo
            } else {
                FAT_BURIED_BIT_ORDER[mo] as int
            };
            spec_mc_prop_coord(device, fb, m as u8, k)
        } else {
            spec_mc_prop_coord(device, fb, (o / 27) as u8, o % 27)
        }
    }
}

/// Coordinate of a JEDEC bit in the global tail, by its offset from the
/// end of the last function block.
pub open spec fn spec_jed_tail_coord(device: XC2Device, t: int) -> Coordinate {
    if !device.spec_has_large_macrocells() {
        if t < 3 {
            device.spec_gck(t)
        } else if t == 3 {
            device.spec_gsr_invert()
        } else if t == 4 {
            device.spec_gsr_enable()
        } else if t < 13 {
            let o = t - 5;
            if o % 2 == 0 {
                device.spec_gts_invert(o / 2)
            } else {
                device.spec_gts_enable(o / 2)
            }
        } else if t == 13 {
            device.spec_global_term()
        } else if device == XC2Device::XC2C32 || device == XC2Device::XC2C32A {
            if t == 14 {
                crate::global_fuses::spec_xc2c32_ovoltage()
            } else if t == 15 {
                crate::global_fuses::spec_xc2c32_ivoltage()
            } else if t == 16 {
                crate::global_fuses::spec_xc2c32_extra_ibuf_schmitt_trigger()
            } else if t == 17 {
                crate::global_fuses::spec_xc2c32_extra_ibuf_termination()
            } else {
                let o = t - 18;
                if o % 2 == 0 {
                    device.spec_io_input_voltage(o / 2)
                } else {
                    device.spec_io_output_voltage(o / 2)
                }
            }
        } else {
            if t == 14 {
                crate::global_fuses::spec_xc2c64_ivoltage()
            } else if t == 15 {
                crate::global_fuses::spec_xc2c64_ovoltage()
            } else {
                let o = t - 16;
                if o % 2 == 0 {
                    device.spec_io_input_voltage(o / 2)
                } else {
                    device.spec_io_output_voltage(o / 2)
                }
            }
        }
    } else {
        let banks = device.spec_num_io_banks() as int;
        if t < 3 {
            device.spec_gck(t)
        } else if t == 3 {
            device.spec_clk_div_enable()
        } else if t < 7 {
            device.spec_clk_div_ratio(t - 4)
        } else if t == 7 {
            device.spec_clk_div_delay()
        } else if t == 8 {
            device.spec_gsr_invert()
        } else if t == 9 {
            device.spec_gsr_enable()
        } else if t < 18 {
            let o = t - 10;
            if o % 2 == 0 {
                device.spec_gts_invert(o / 2)
            } else {
                device.spec_gts_enable(o / 2)
            }
        } else if t == 18 {
            device.spec_global_term()
        } else if t == 19 {
            device.spec_data_gate()
        } else if t < 20 + banks {
            device.spec_io_input_voltage(t - 20)
        } else if t < 20 + 2 * banks {
            device.spec_io_output_voltage(t - 20 - banks)
        } else {
            device.spec_vref_enable()
        }
    }
}

/// Physical coordinate of every position of the JEDEC ordering.
pub open spec fn spec_jed_index_to_crbit(device: XC2Device, jed_idx: int) -> Coordinate {
    match spec_is_fb(device, jed_idx) {
        Some((fb, off)) => spec_jed_region_coord(device, fb as u8, off),
        None => spec_jed_tail_coord(
            device,
            jed_idx - spec_jed_fb_base(device, device.spec_num_fbs() as int),
        ),
    }
}

impl XC2Device {
    /// Translate a JEDEC bit position to its physical coordinate.  Total
    /// over the device's whole fuse range, and always in bounds.
    #[verifier::rlimit(100)]
    pub fn jed_index_to_crbit(&self, jed_idx: usize) -> (r: Coordinate)
        requires
            jed_idx < spec_num_jed_fuses(*self),
        ensures
            r == spec_jed_index_to_crbit(*self, jed_idx as int),
            self.spec_in_bounds(r),
    {
        let nfb = self.num_fbs();
        let mut fbu: usize = 0;
        let mut off: usize = jed_idx;
        proof {
            lemma_jed_fb_base_bounds(*self, self.spec_num_fbs() as int);
        }
        while fbu < nfb
            invariant
                nfb == self.spec_num_fbs(),
                fbu <= nfb,
                off <= jed_idx,
                jed_idx < spec_num_jed_fuses(*self),
                off == jed_idx - spec_jed_fb_base(*self, fbu as int),
                spec_is_fb(*self, jed_idx as int) == spec_locate_fb(
                    *self,
                    fbu as int,
                    off as int,
                ),
            decreases nfb - fbu,
        {
            let size = self.jed_fb_size(fbu as u8);
            if off < size {
                let fb = fbu as u8;
                proof {
                    lemma_jed_mc_block_bounds(*self, fb, 16);
                }
                let zw = self.zia_width();
                let zia_end = zw * ZIA_ROWS;
                let and_end = zia_end + 2 * ZIA_ROWS * ANDTERMS_PER_FB;
                let or_end = and_end + MCS_PER_FB * ANDTERMS_PER_FB;
                if off < zia_end {
                    proof {
                        assert(off / zw < 40 && off % zw < zw) by (nonlinear_arith)
                            requires
                                off < zw * 40,
                                zw >= 1,
                        {
                        }
                    }
                    return zia_get_bit_pos(*self, fb, (off / zw) as u8, off % zw);
                } else if off < and_end {
                    let o = off - zia_end;
                    return and_get_bit_pos(
                        *self,
                        fb,
                        (o / 80) as u8,
                        ((o % 80) / 2) as u8,
                        (o % 80) % 2 == 1,
                    );
                } else if off < or_end {
                    let o = off - and_end;
                    return or_get_bit_pos(*self, fb, (o % 16) as u8, (o / 16) as u8);
                } else {
                    let o = off - or_end;
                    if self.has_large_macrocells() {
                        proof {
                            lemma_locate_mc_props(*self, fb, 0, o as int);
                        }
                        let (m, mo) = get_fat_mc_idx(*self, fb, o);
                        let k: usize = if self.has_io_at(fb, m as u8) {
                            mo
                        } else {
                            assert(FAT_BURIED_BIT_ORDER[mo as int] <= 28);
                            FAT_BURIED_BIT_ORDER[mo]
                        };
                        return mc_prop_coord(*self, fb, m as u8, k);
                    } else {
                        proof {
                            lemma_small_mc_block(*self, fb, 16);
                        }
                        return mc_prop_coord(*self, fb, (o / 27) as u8, o % 27);
                    }
                }
            }
            off -= size;
            fbu += 1;
        }
        proof {
            lemma_locate_fb_none(*self, nfb as int, off as int);
            lemma_jed_structure(*self);
        }
        let t = off;
        if !self.has_large_macrocells() {
            if t < 3 {
                self.gck(t)
            } else if t == 3 {
                self.gsr_invert()
            } else if t == 4 {
                self.gsr_enable()
            } else if t < 13 {
                let o = t - 5;
                if o % 2 == 0 {
                    self.gts_invert(o / 2)
                } else {
                    self.gts_enable(o / 2)
                }
            } else if t == 13 {
                self.global_term()
            } else if *self == XC2Device::XC2C32 || *self == XC2Device::XC2C32A {
                if t == 14 {
                    crate::global_fuses::xc2c32_ovoltage()
                } else if t == 15 {
                    crate::global_fuses::xc2c32_ivoltage()
                } else if t == 16 {
                    crate::global_fuses::xc2c32_extra_ibuf_schmitt_trigger()
                } else if t == 17 {
                    crate::global_fuses::xc2c32_extra_ibuf_termination()
                } else {
                    let o = t - 18;
                    if o % 2 == 0 {
                        self.io_input_voltage(o / 2)
                    } else {
                        self.io_output_voltage(o / 2)
                    }
                }
            } else {
                if t == 14 {
                    crate::global_fuses::xc2c64_ivoltage()
                } else if t == 15 {
                    crate::global_fuses::xc2c64_ovoltage()
                } else {
                    let o = t - 16;
                    if o % 2 == 0 {
                        self.io_input_voltage(o / 2)
                    } else {
                        self.io_output_voltage(o / 2)
                    }
                }
            }
        } else {
            let banks = self.num_io_banks();
            if t < 3 {
                self.gck(t)
            } else if t == 3 {
                self.clk_div_enable()
            } else if t < 7 {
                self.clk_div_ratio(t - 4)
            } else if t == 7 {
                self.clk_div_delay()
            } else if t == 8 {
                self.gsr_invert()
            } else if t == 9 {
                self.gsr_enable()
            } else if t < 18 {
                let o = t - 10;
                if o % 2 == 0 {
                    self.gts_invert(o / 2)
                } else {
                    self.gts_enable(o / 2)
                }
            } else if t == 18 {
                self.global_term()
            } else if t == 19 {
                self.data_gate()
            } else if t < 20 + banks {
                self.io_input_voltage(t - 20)
            } else if t < 20 + 2 * banks {
                self.io_output_voltage(t - 20 - banks)
            } else {
                self.vref_enable()
            }
        }
    }
}


/// First position of `b` in `[from, end)`, or `end` if absent.
pub open spec fn spec_find_byte_before(s: Seq<u8>, b: u8, from: int, end: int) -> int
    decreases end - from,
{
    if from >= end {
        end
    } else if 0 <= from < s.len() && s[from] == b {
        from
    } else {
        spec_find_byte_before(s, b, from + 1, end)
    }
}

pub open spec fn spec_is_digit(b: u8) -> bool {
    48 <= b <= 57
}

/// First position in `[i, b)` holding something besides an ASCII zero.
pub open spec fn spec_skip_zeros(s: Seq<u8>, i: int, b: int) -> int
    decreases b - i,
{
    if i < b && 0 <= i < s.len() && s[i] == 48 {
        spec_skip_zeros(s, i + 1, b)
    } else {
        i
    }
}

/// Whether a `QF` field's payload `s[a..b]` is harmless to the codec:
/// either it fails to parse as a number (the codec then reports an
/// error), or its value is small enough that the fuse allocation it
/// drives stays modest.  Payloads of more than eight significant digits
/// are rejected.
pub open spec fn spec_qf_payload_ok(s: Seq<u8>, a: int, b: int) -> bool {
    let lo = spec_trim_lo(s, a, b);
    let hi = spec_trim_hi(s, lo, b);
    let d0 = if lo < hi && s[lo] == 43 {
        lo + 1
    } else {
        lo
    };
    if d0 >= hi {
        true
    } else if exists|k: int| d0 <= k < hi && !spec_is_digit(s[k]) {
        true
    } else {
        hi - spec_skip_zeros(s, d0, hi) <= 8
    }
}

/// Whether one `*`-separated field `s[a..b]`, as the codec sees it after
/// leading trim, avoids the codec's panic paths: no field of the single
/// byte `Q`, and any `QF` payload within bounds.
pub open spec fn spec_jed_field_ok(s: Seq<u8>, a: int, b: int) -> bool {
    let lo = spec_trim_lo(s, a, b);
    if lo >= b {
        true
    } else if s[lo] == 81 {
        if b - lo == 1 {
            false
        } else if s[lo + 1] == 70 {
            spec_qf_payload_ok(s, lo + 2, b)
        } else {
            true
        }
    } else {
        true
    }
}

/// Whether a field is a fuse-list (`L`) field.
pub open spec fn spec_jed_field_is_l(s: Seq<u8>, a: int, b: int) -> bool {
    let lo = spec_trim_lo(s, a, b);
    lo < b && s[lo] == 76
}

/// Whether a field is a fuse-count (`QF`) field.
pub open spec fn spec_jed_field_is_qf(s: Seq<u8>, a: int, b: int) -> bool {
    let lo = spec_trim_lo(s, a, b);
    lo + 1 < b && s[lo] == 81 && s[lo + 1] == 70
}

/// Walk the `*`-separated fields of `s[pos..end]`: every field must be
/// individually harmless, and no `QF` field may follow an `L` field
/// (the codec sizes its fuse store at the first `L` and would index past
/// it if the count grew afterwards).
pub open spec fn spec_jed_fields_ok(s: Seq<u8>, pos: int, end: int, seen_l: bool) -> bool
    decreases end - pos,
{
    if pos >= end {
        true
    } else {
        let e = spec_find_byte_before(s, 42, pos, end);
        let field_ok = spec_jed_field_ok(s, pos, e) && !(seen_l && spec_jed_field_is_qf(
            s,
            pos,
            e,
        ));
        let seen2 = seen_l || spec_jed_field_is_l(s, pos, e);
        field_ok && if pos <= e < end {
            spec_jed_fields_ok(s, e + 1, end, seen2)
        } else {
            true
        }
    }
}

/// Whether a byte stream is safe to hand to the codec's parser: inputs
/// the parser would reject with an error pass, but the shapes on which
/// it would panic - a body slice between a start marker that follows the
/// end marker, a bare `Q` field, an oversized fuse count, or a fuse
/// count appearing after fuse data - are screened out.
pub open spec fn spec_jed_prescan_ok(s: Seq<u8>) -> bool {
    let stx = crate::crbit::spec_find_byte(s, 2, 0);
    let etx = crate::crbit::spec_find_byte(s, 3, 0);
    if stx >= s.len() || etx >= s.len() {
        true
    } else if etx < stx {
        false
    } else {
        spec_jed_fields_ok(s, stx + 1, etx, false)
    }
}


fn find_byte_before(s: &[u8], b: u8, from: usize, end: usize) -> (r: usize)
    requires
        from <= end <= s@.len(),
    ensures
        r == spec_find_byte_before(s@, b, from as int, end as int),
        from <= r <= end,
        r < end ==> s@[r as int] == b,
{
    let mut i: usize = from;
    while i < end
        invariant
            from <= i <= end <= s@.len(),
            spec_find_byte_before(s@, b, from as int, end as int) == spec_find_byte_before(
                s@,
                b,
                i as int,
                end as int,
            ),
        decreases end - i,
    {
        if s[i] == b {
            return i;
        }
        i += 1;
    }
    i
}

fn all_digits(s: &[u8], a: usize, b: usize) -> (r: bool)
    requires
        a <= b <= s@.len(),
    ensures
        r == (forall|k: int| a <= k < b ==> spec_is_digit(s@[k])),
{
    let mut i: usize = a;
    while i < b
        invariant
            a <= i <= b <= s@.len(),
            forall|k: int| a <= k < i ==> spec_is_digit(s@[k]),
        decreases b - i,
    {
        if s[i] < 48 || s[i] > 57 {
            return false;
        }
        i += 1;
    }
    true
}

fn skip_zeros(s: &[u8], a: usize, b: usize) -> (r: usize)
    requires
        a <= b <= s@.len(),
    ensures
        r == spec_skip_zeros(s@, a as int, b as int),
        a <= r <= b,
{
    let mut i: usize = a;
    while i < b && s[i] == 48
        invariant
            a <= i <= b <= s@.len(),
            spec_skip_zeros(s@, a as int, b as int) == spec_skip_zeros(s@, i as int, b as int),
        decreases b - i,
    {
        i += 1;
    }
    i
}

/// Screen a byte stream for the codec's panic shapes.
#[verifier::rlimit(100)]
pub fn jed_prescan(data: &[u8]) -> (r: bool)
    ensures
        r == spec_jed_prescan_ok(data@),
{
    let stx = crate::crbit::find_byte(data, 2, 0);
    if stx == data.len() {
        return true;
    }
    let etx = crate::crbit::find_byte(data, 3, 0);
    if etx == data.len() {
        return true;
    }
    if etx < stx {
        return false;
    }
    let end = etx;
    let mut pos: usize = stx + 1;
    let mut seen_l = false;
    while pos < end
        invariant
            pos <= end <= data@.len(),
            spec_jed_prescan_ok(data@) == spec_jed_fields_ok(
                data@,
                pos as int,
                end as int,
                seen_l,
            ),
        decreases end - pos,
    {
        let e = find_byte_before(data, 42, pos, end);
        let lo = crate::crbit::trim_lo(data, pos, e);
        if lo < e && data[lo] == 81 {
            if e - lo == 1 {
                return false;
            }
            if data[lo + 1] == 70 {
                if seen_l {
                    return false;
                }
                let plo = crate::crbit::trim_lo(data, lo + 2, e);
                let phi = crate::crbit::trim_hi(data, plo, e);
                let d0: usize = if plo < phi && data[plo] == 43 {
                    plo + 1
                } else {
                    plo
                };
                if d0 < phi && all_digits(data, d0, phi) {
                    let z = skip_zeros(data, d0, phi);
                    if phi - z > 8 {
                        return false;
                    }
                }
            }
        }
        if lo < e && data[lo] == 76 {
            seen_l = true;
        }
        if e == end {
            return true;
        }
        pos = e + 1;
    }
    true
}

/// Errors when reading a JEDEC programming file.
#[derive(Debug)]
pub enum JedReadError {
    /// The byte-level fuse file grammar did not parse.
    ParseError(jedec::JedParserError),
    /// The byte stream has a shape the underlying codec does not handle
    /// gracefully; rejected before parsing.
    Malformed,
    /// No or an unusable device note, and the fuse count matches no
    /// known device.
    UnknownPart,
}

#[verifier::external_type_specification]
#[verifier::external_body]
pub struct ExJedParserError(jedec::JedParserError);

/// What jedec's parser extracts from a fuse file: the fuse values and
/// the note payloads, a function of the input bytes alone; `None` when
/// the file does not parse.
pub uninterp spec fn spec_jed_file_parse(data: Seq<u8>) -> Option<(Seq<bool>, Seq<Seq<u8>>)>;

/// Relies on jedec's `JEDECFile::from_bytes` (with the no-design-spec
/// quirk): parses the byte-level fuse file grammar; the result depends
/// on the input bytes alone.  The parser panics on a few malformed
/// shapes - a body slice whose end marker precedes its start marker, a
/// bare `Q` field, a huge fuse count, or a fuse count that grows after
/// fuse data has been stored - so callers must screen the input with
/// [`jed_prescan`] first.
#[verifier::external_body]
fn jed_file_parse(data: &[u8]) -> (r: Result<(Vec<bool>, Vec<Vec<u8>>), jedec::JedParserError>)
    requires
        spec_jed_prescan_ok(data@),
    ensures
        ({
            match r {
                Ok(p) => spec_jed_file_parse(data@) == Some((p.0@, p.1.deep_view())),
                Err(_) => spec_jed_file_parse(data@) is None,
            }
        }),
{
    let quirks = jedec::Quirks::new().no_design_spec(true);
    let jf = jedec::JEDECFile::from_bytes(data, &quirks)?;
    let fuses = jf.f.iter().map(|b| *b).collect();
    let notes = jf.notes.iter().map(|n| n.to_vec()).collect();
    Ok((fuses, notes))
}

/// The serialized fuse file jedec writes for the given fuses, header,
/// notes, and cosmetic line break positions.
pub uninterp spec fn spec_jed_file_emit(
    fuses: Seq<bool>,
    header: Seq<u8>,
    notes: Seq<Seq<u8>>,
    linebreaks: Seq<usize>,
) -> Seq<u8>;

/// Relies on jedec's `write_io_custom_linebreaks` (with the
/// no-design-spec quirk): serializes a fuse file; the output depends on
/// the arguments alone.  The serializer indexes the fuse vector up to
/// each line break, so every break must lie within the fuse range;
/// writing into a `Vec` itself never fails.
#[verifier::external_body]
fn jed_file_emit(fuses: &Vec<bool>, header: &[u8], notes: &Vec<Vec<u8>>, linebreaks: &Vec<usize>)
    -> (r: Vec<u8>)
    requires
        forall|i: int| 0 <= i < linebreaks@.len() ==> linebreaks@[i] <= fuses@.len(),
    ensures
        r@ == spec_jed_file_emit(fuses@, header@, notes.deep_view(), linebreaks@),
{
    let f: bitvec::vec::BitVec = fuses.iter().copied().collect();
    let notes: Vec<std::borrow::Cow<[u8]>> =
        notes.iter().map(|n| std::borrow::Cow::from(n.as_slice())).collect();
    let jf = jedec::JEDECFile {
        f,
        header: std::borrow::Cow::from(header),
        footer: std::borrow::Cow::from(&b""[..]),
        design_spec: std::borrow::Cow::from(&b""[..]),
        notes,
        secure_fuse: None,
    };
    let quirks = jedec::Quirks::new().no_design_spec(true);
    let mut out: Vec<u8> = Vec::new();
    jf.write_io_custom_linebreaks(&mut out, &quirks, linebreaks.iter().copied()).unwrap();
    out
}

/// The bytes of the `DEVICE ` note prefix.
pub open spec fn spec_device_note_prefix() -> Seq<u8> {
    seq![68u8, 69, 86, 73, 67, 69, 32]
}

/// The part named by the last `DEVICE` note, if any: later notes
/// override earlier ones, and an unparseable or illegal name counts as
/// no name at all.
pub open spec fn spec_part_from_notes(notes: Seq<Seq<u8>>) -> Option<XC2Part>
    decreases notes.len(),
{
    if notes.len() == 0 {
        None
    } else {
        let l = notes.last();
        let lo = spec_trim_lo(l, 0, l.len() as int);
        let hi = spec_trim_hi(l, lo, l.len() as int);
        if hi - lo >= 7 && l.subrange(lo, lo + 7) == spec_device_note_prefix() {
            spec_parse_part(l.subrange(lo + 7, hi))
        } else {
            spec_part_from_notes(notes.drop_last())
        }
    }
}

/// The part a parsed fuse file describes: the last `DEVICE` note wins;
/// without one the device is guessed from the exact fuse count.  `None`
/// when the note names a device whose fuse count does not match, or
/// when there is no note and the count matches no device.
pub open spec fn spec_read_jed_part(fuses: Seq<bool>, notes: Seq<Seq<u8>>) -> Option<XC2Part> {
    match spec_part_from_notes(notes) {
        Some(part) => if fuses.len() == spec_num_jed_fuses(part.device) {
            Some(part)
        } else {
            None
        },
        None => match spec_guess_device_from_fuses(fuses.len() as int) {
            Some(device) => Some(XC2Part { device, speed: None, package: None }),
            None => None,
        },
    }
}

/// The blank grid of a device as a row-major sequence.
pub open spec fn spec_blank_grid(device: XC2Device) -> Seq<bool> {
    Seq::new(
        (device.spec_fuse_array_dims().0 * device.spec_fuse_array_dims().1) as nat,
        |i: int|
            !spec_blank_cleared(
                device,
                Coordinate {
                    x: (i % (device.spec_fuse_array_dims().0 as int)) as usize,
                    y: (i / (device.spec_fuse_array_dims().0 as int)) as usize,
                },
            ),
    )
}

/// The grid after scattering the first `n` fuses of the linear ordering
/// into `g` at their physical coordinates.
pub open spec fn spec_jed_scatter(device: XC2Device, g: Seq<bool>, fuses: Seq<bool>, n: int)
    -> Seq<bool>
    decreases n,
{
    if n <= 0 {
        g
    } else {
        let c = spec_jed_index_to_crbit(device, n - 1);
        spec_jed_scatter(device, g, fuses, n - 1).update(
            c.y * device.spec_fuse_array_dims().0 + c.x,
            fuses[n - 1],
        )
    }
}

/// The linear fuse vector gathered from a grid.
pub open spec fn spec_jed_gather(device: XC2Device, g: Seq<bool>) -> Seq<bool> {
    Seq::new(
        spec_num_jed_fuses(device) as nat,
        |i: int|
            {
                let c = spec_jed_index_to_crbit(device, i);
                g[c.y * device.spec_fuse_array_dims().0 + c.x]
            },
    )
}

fn part_from_notes(notes: &Vec<Vec<u8>>) -> (r: Option<XC2Part>)
    ensures
        r == spec_part_from_notes(notes.deep_view()),
{
    let mut i: usize = notes.len();
    proof {
        assert(notes.deep_view() =~= notes.deep_view().subrange(0, i as int));
    }
    while i > 0
        invariant
            i <= notes@.len(),
            notes.deep_view().len() == notes@.len(),
            spec_part_from_notes(notes.deep_view()) == spec_part_from_notes(
                notes.deep_view().subrange(0, i as int),
            ),
        decreases i,
    {
        i -= 1;
        let note = &notes[i];
        proof {
            assert(notes.deep_view()[i as int] == notes@[i as int].deep_view());
            assert(notes@[i as int].deep_view() =~= notes@[i as int]@);
        }
        let lo = crate::crbit::trim_lo(note.as_slice(), 0, note.len());
        let hi = crate::crbit::trim_hi(note.as_slice(), lo, note.len());
        let ghost nseq = notes.deep_view()[i as int];
        proof {
            assert(notes.deep_view().subrange(0, i + 1).last() == nseq);
            assert(notes.deep_view().subrange(0, i + 1).drop_last() =~= notes.deep_view().subrange(
                0,
                i as int,
            ));
        }
        if hi - lo >= 7 && device_note_prefix_at(note.as_slice(), lo) {
            let part = match parse_part_bytes_range(note.as_slice(), lo + 7, hi) {
                Some(p) => Some(p),
                None => None,
            };
            return part;
        }
    }
    proof {
        assert(notes.deep_view().subrange(0, 0) =~= Seq::<Seq<u8>>::empty());
    }
    None
}

/// Whether `s[lo..lo + 7]` is the `DEVICE ` note prefix.
fn device_note_prefix_at(s: &[u8], lo: usize) -> (r: bool)
    requires
        lo + 7 <= s@.len(),
    ensures
        r == (s@.subrange(lo as int, lo + 7) == spec_device_note_prefix()),
{
    let n = s.len();
    let pfx: [u8; 7] = [68, 69, 86, 73, 67, 69, 32];
    proof {
        assert(pfx@ =~= spec_device_note_prefix());
    }
    let mut k: usize = 0;
    while k < 7
        invariant
            lo + 7 <= s@.len(),
            s@.len() <= usize::MAX,
            k <= 7,
            pfx@ =~= spec_device_note_prefix(),
            forall|j: int| 0 <= j < k ==> s@[lo + j] == spec_device_note_prefix()[j],
        decreases 7 - k,
    {
        if s[lo + k] != pfx[k] {
            proof {
                assert(s@.subrange(lo as int, lo + 7)[k as int] != spec_device_note_prefix()[
                    k as int
                ]);
            }
            return false;
        }
        k += 1;
    }
    proof {
        assert(s@.subrange(lo as int, lo + 7) =~= spec_device_note_prefix());
    }
    true
}

/// Parse the part named by `s[start..end]`.
fn parse_part_bytes_range(s: &[u8], start: usize, end: usize) -> (r: Option<XC2Part>)
    requires
        start <= end <= s@.len(),
    ensures
        r == spec_parse_part(s@.subrange(start as int, end as int)),
{
    let sub = crate::crbit::copy_range(s, start, end);
    parse_part_bytes(sub.as_slice())
}

impl Coolrunner2 {
    /// Read a JEDEC programming file into a device model: the part comes
    /// from the `DEVICE` note or the fuse count, a blank model is made,
    /// and every fuse of the linear ordering is scattered to its
    /// physical coordinate.  Byte streams shaped so that the codec could
    /// not parse them gracefully are rejected as [`JedReadError::Malformed`]
    /// before the codec sees them.
    pub fn read_jed(data: &[u8]) -> (r: Result<Coolrunner2, JedReadError>)
        ensures
            !spec_jed_prescan_ok(data@) ==> r == Err::<Coolrunner2, JedReadError>(
                JedReadError::Malformed,
            ),
            spec_jed_prescan_ok(data@) && spec_jed_file_parse(data@) is None ==> r is Err && (
            r matches Err(e) ==> e is ParseError),
            spec_jed_prescan_ok(data@) ==> ({
                match spec_jed_file_parse(data@) {
                    None => true,
                    Some((fuses, notes)) => {
                        match spec_read_jed_part(fuses, notes) {
                            Some(part) => {
                                &&& r is Ok
                                &&& (r matches Ok(bs) ==> {
                                    &&& bs.part == part
                                    &&& bs.wf()
                                    &&& bs.grid() == spec_jed_scatter(
                                        part.device,
                                        spec_blank_grid(part.device),
                                        fuses,
                                        spec_num_jed_fuses(part.device),
                                    )
                                })
                            },
                            None => r matches Err(e) && e is UnknownPart,
                        }
                    },
                }
            }),
    {
        if !jed_prescan(data) {
            return Err(JedReadError::Malformed);
        }
        let (fuses, notes) = match jed_file_parse(data) {
            Ok(p) => p,
            Err(e) => {
                return Err(JedReadError::ParseError(e));
            },
        };
        let part = match part_from_notes(&notes) {
            Some(part) => {
                if fuses.len() != part.device.num_jed_fuses() {
                    return Err(JedReadError::UnknownPart);
                }
                part
            },
            None => {
                match XC2Device::guess_device_from_fuses(fuses.len()) {
                    Some(device) => XC2Part { device, speed: None, package: None },
                    None => {
                        return Err(JedReadError::UnknownPart);
                    },
                }
            },
        };
        let device = part.device;
        let mut bs = Coolrunner2::new(part);
        proof {
            assert forall|i: int|
                0 <= i < spec_blank_grid(device).len() implies bs.grid()[i] == spec_blank_grid(
                device,
            )[i] by {
                let w = device.spec_fuse_array_dims().0 as int;
                let c = Coordinate { x: (i % w) as usize, y: (i / w) as usize };
                assert(device.spec_in_bounds(c)) by (nonlinear_arith)
                    requires
                        0 <= i < device.spec_fuse_array_dims().0
                            * device.spec_fuse_array_dims().1,
                        w == device.spec_fuse_array_dims().0,
                        c.x == i % w,
                        c.y == i / w,
                        w > 0,
                {
                }
                assert(c.y * w + c.x == i) by (nonlinear_arith)
                    requires
                        w > 0,
                        0 <= i,
                        c.x == i % w,
                        c.y == i / w,
                {
                }
                assert(bs.spec_get(c) == !spec_blank_cleared(device, c));
            }
            assert(bs.grid() =~= spec_blank_grid(device));
        }
        let n = device.num_jed_fuses();
        let mut i: usize = 0;
        while i < n
            invariant
                bs.wf(),
                bs.part == part,
                device == part.device,
                n == spec_num_jed_fuses(device),
                fuses@.len() == n,
                i <= n,
                bs.grid() == spec_jed_scatter(device, spec_blank_grid(device), fuses@, i as int),
            decreases n - i,
        {
            let c = device.jed_index_to_crbit(i);
            bs.set(c, fuses[i]);
            i += 1;
        }
        Ok(bs)
    }
}

/// The cosmetic line break positions of one function block's span of
/// the textual fuse list: one break at each ZIA row, AND row, OR row and
/// macrocell block boundary.
pub open spec fn spec_fb_linebreaks(device: XC2Device, fb: u8, s: int) -> Seq<usize> {
    let zw = device.spec_zia_width() as int;
    Seq::new(40, |r: int| (s + r * zw) as usize) + seq![(s + 40 * zw) as usize] + Seq::new(
        56,
        |p: int| (s + 40 * zw + 80 * p) as usize,
    ) + seq![(s + 40 * zw + 4480) as usize] + Seq::new(
        56,
        |p: int| (s + 40 * zw + 4480 + 16 * p) as usize,
    ) + seq![(s + 40 * zw + 5376) as usize] + Seq::new(
        16,
        |m: int| (s + 40 * zw + 5376 + spec_jed_mc_block(device, fb, m)) as usize,
    ) + seq![(s + spec_jed_fb_size(device, fb)) as usize]
}

pub open spec fn spec_all_fb_linebreaks(device: XC2Device, n: int) -> Seq<usize>
    decreases n,
{
    if n <= 0 {
        Seq::empty()
    } else {
        spec_all_fb_linebreaks(device, n - 1) + spec_fb_linebreaks(
            device,
            (n - 1) as u8,
            spec_jed_fb_base(device, n - 1),
        )
    }
}

/// All cosmetic line breaks of the textual fuse list: the region
/// boundaries of every function block, then the end of the last one.
/// The leading break at position 0 is left out.
pub open spec fn spec_jed_linebreaks(device: XC2Device) -> Seq<usize> {
    (spec_all_fb_linebreaks(device, device.spec_num_fbs() as int) + seq![
        spec_jed_fb_base(device, device.spec_num_fbs() as int) as usize,
    ]).drop_first()
}

/// Compute the cosmetic line break positions.
#[verifier::rlimit(100)]
pub fn jed_linebreaks(device: XC2Device) -> (r: Vec<usize>)
    ensures
        r@ == spec_jed_linebreaks(device),
{
    let nfb = device.num_fbs();
    let mut v: Vec<usize> = Vec::new();
    let mut base: usize = 0;
    let mut fb: usize = 0;
    proof {
        lemma_jed_fb_base_bounds(device, device.spec_num_fbs() as int);
    }
    while fb < nfb
        invariant
            nfb == device.spec_num_fbs(),
            fb <= nfb,
            base == spec_jed_fb_base(device, fb as int),
            base <= 9984 * fb,
            v@ == spec_all_fb_linebreaks(device, fb as int),
        decreases nfb - fb,
    {
        proof {
            lemma_jed_fb_base_bounds(device, fb as int);
            lemma_jed_fb_size_bounds(device, fb as u8);
            lemma_jed_mc_block_bounds(device, fb as u8, 16);
        }
        let ghost pre = v@;
        let zw = device.zia_width();
        let mut r: usize = 0;
        while r < 40
            invariant
                r <= 40,
                base + 40 * zw <= usize::MAX,
                zw == device.spec_zia_width(),
                v@ =~= pre + Seq::new(r as nat, |j: int| (base + j * zw) as usize),
            decreases 40 - r,
        {
            v.push(base + r * zw);
            proof {
                assert(v@ =~= pre + Seq::new((r + 1) as nat, |j: int| (base + j * zw) as usize));
            }
            r += 1;
        }
        v.push(base + 40 * zw);
        let ghost pre2 = v@;
        let mut p: usize = 0;
        while p < 56
            invariant
                p <= 56,
                base + 40 * zw + 80 * 56 <= usize::MAX,
                zw == device.spec_zia_width(),
                v@ =~= pre2 + Seq::new(p as nat, |j: int| (base + 40 * zw + 80 * j) as usize),
            decreases 56 - p,
        {
            v.push(base + 40 * zw + 80 * p);
            proof {
                assert(v@ =~= pre2 + Seq::new(
                    (p + 1) as nat,
                    |j: int| (base + 40 * zw + 80 * j) as usize,
                ));
            }
            p += 1;
        }
        v.push(base + 40 * zw + 4480);
        let ghost pre3 = v@;
        let mut p2: usize = 0;
        while p2 < 56
            invariant
                p2 <= 56,
                base + 40 * zw + 4480 + 16 * 56 <= usize::MAX,
                zw == device.spec_zia_width(),
                v@ =~= pre3 + Seq::new(
                    p2 as nat,
                    |j: int| (base + 40 * zw + 4480 + 16 * j) as usize,
                ),
            decreases 56 - p2,
        {
            v.push(base + 40 * zw + 4480 + 16 * p2);
            proof {
                assert(v@ =~= pre3 + Seq::new(
                    (p2 + 1) as nat,
                    |j: int| (base + 40 * zw + 4480 + 16 * j) as usize,
                ));
            }
            p2 += 1;
        }
        v.push(base + 40 * zw + 5376);
        let ghost pre4 = v@;
        let mut m: usize = 0;
        let mut mcacc: usize = 0;
        while m < 16
            invariant
                m <= 16,
                fb < nfb,
                nfb == device.spec_num_fbs(),
                base + 40 * zw + 5376 + 464 <= usize::MAX,
                zw == device.spec_zia_width(),
                mcacc == spec_jed_mc_block(device, fb as u8, m as int),
                mcacc <= 29 * m,
                v@ =~= pre4 + Seq::new(
                    m as nat,
                    |j: int| (base + 40 * zw + 5376 + spec_jed_mc_block(device, fb as u8, j))
                        as usize,
                ),
            decreases 16 - m,
        {
            proof {
                lemma_jed_mc_block_bounds(device, fb as u8, m as int);
            }
            v.push(base + 40 * zw + 5376 + mcacc);
            proof {
                assert(v@ =~= pre4 + Seq::new(
                    (m + 1) as nat,
                    |j: int| (base + 40 * zw + 5376 + spec_jed_mc_block(device, fb as u8, j))
                        as usize,
                ));
            }
            let w: usize = if device.has_large_macrocells() {
                if device.has_io_at(fb as u8, m as u8) {
                    29
                } else {
                    16
                }
            } else {
                27
            };
            mcacc += w;
            m += 1;
        }
        let size = device.jed_fb_size(fb as u8);
        v.push(base + size);
        proof {
            assert(v@ =~= spec_all_fb_linebreaks(device, fb + 1));
        }
        base += size;
        fb += 1;
    }
    v.push(base);
    proof {
        assert(v@ =~= spec_all_fb_linebreaks(device, nfb as int) + seq![
            spec_jed_fb_base(device, nfb as int) as usize,
        ]);
    }
    let _leading_zero = v.remove(0);
    proof {
        assert(v@ =~= spec_jed_linebreaks(device));
    }
    v
}

/// Every line break of one block's segment stays at or below the end of
/// that block.
proof fn lemma_fb_linebreaks_bounded(device: XC2Device, fb: u8, s: int, j: int)
    requires
        0 <= s <= 400000,
        0 <= j < spec_fb_linebreaks(device, fb, s).len(),
    ensures
        s <= spec_fb_linebreaks(device, fb, s)[j] <= s + spec_jed_fb_size(device, fb),
{
    lemma_jed_mc_block_bounds(device, fb, 16);
    let zw = device.spec_zia_width() as int;
    if j < 40 {
        assert(0 <= j * zw <= 40 * zw) by (nonlinear_arith)
            requires
                0 <= j <= 40,
                0 <= zw,
        {
        }
    } else if j == 40 {
    } else if j < 97 {
    } else if j == 97 {
    } else if j < 154 {
    } else if j == 154 {
    } else if j < 171 {
        let m = j - 155;
        lemma_jed_mc_block_bounds(device, fb, m);
        lemma_jed_mc_block_mono(device, fb, m, 16);
    } else {
    }
}

/// Every line break of the first `n` blocks stays at or below the end of
/// the `n`-th block.
proof fn lemma_all_fb_linebreaks_bounded(device: XC2Device, n: int, j: int)
    requires
        0 <= n <= device.spec_num_fbs(),
        0 <= j < spec_all_fb_linebreaks(device, n).len(),
    ensures
        spec_all_fb_linebreaks(device, n)[j] <= spec_jed_fb_base(device, n),
    decreases n,
{
    if n > 0 {
        lemma_jed_fb_size_bounds(device, (n - 1) as u8);
        lemma_jed_fb_base_bounds(device, n - 1);
        if j < spec_all_fb_linebreaks(device, n - 1).len() {
            lemma_all_fb_linebreaks_bounded(device, n - 1, j);
        } else {
            lemma_fb_linebreaks_bounded(
                device,
                (n - 1) as u8,
                spec_jed_fb_base(device, n - 1),
                j - spec_all_fb_linebreaks(device, n - 1).len(),
            );
        }
    }
}

/// Every cosmetic line break lies within the fuse range, so a serializer
/// that walks fuses up to each break stays in bounds.
pub proof fn lemma_jed_linebreaks_bounded(device: XC2Device, j: int)
    requires
        0 <= j < spec_jed_linebreaks(device).len(),
    ensures
        spec_jed_linebreaks(device)[j] <= spec_num_jed_fuses(device),
{
    lemma_jed_structure(device);
    let nfb = device.spec_num_fbs() as int;
    let full = spec_all_fb_linebreaks(device, nfb) + seq![spec_jed_fb_base(device, nfb) as usize];
    assert(spec_jed_linebreaks(device)[j] == full[j + 1]);
    if j + 1 < spec_all_fb_linebreaks(device, nfb).len() {
        lemma_all_fb_linebreaks_bounded(device, nfb, j + 1);
    }
}

/// The header comment of an emitted fuse file: `xc2bit`.
pub open spec fn spec_jed_header() -> Seq<u8> {
    seq![120u8, 99, 50, 98, 105, 116, 10]
}

impl Coolrunner2 {
    /// Write this device model as a JEDEC programming file: each fuse of
    /// the linear ordering is gathered from its physical coordinate, a
    /// `DEVICE` note names the part, and line breaks follow the region
    /// boundaries.
    pub fn write_jed(&self) -> (r: Vec<u8>)
        requires
            self.wf(),
        ensures
            r@ == spec_jed_file_emit(
                spec_jed_gather(self.part.device, self.grid()),
                spec_jed_header(),
                seq![spec_device_note_prefix() + spec_part_name(self.part)],
                spec_jed_linebreaks(self.part.device),
            ),
    {
        let device = self.part.device;
        let n = device.num_jed_fuses();
        let mut fuses: Vec<bool> = Vec::new();
        let mut i: usize = 0;
        while i < n
            invariant
                self.wf(),
                device == self.part.device,
                n == spec_num_jed_fuses(device),
                i <= n,
                fuses@.len() == i,
                forall|j: int|
                    0 <= j < i ==> fuses@[j] == spec_jed_gather(device, self.grid())[j],
            decreases n - i,
        {
            let c = device.jed_index_to_crbit(i);
            fuses.push(self.get(c));
            i += 1;
        }
        proof {
            assert(fuses@ =~= spec_jed_gather(device, self.grid()));
        }
        let mut header: Vec<u8> = Vec::new();
        header.push(120);
        header.push(99);
        header.push(50);
        header.push(98);
        header.push(105);
        header.push(116);
        header.push(10);
        proof {
            assert(header@ =~= spec_jed_header());
        }
        let mut note: Vec<u8> = Vec::new();
        note.push(68);
        note.push(69);
        note.push(86);
        note.push(73);
        note.push(67);
        note.push(69);
        note.push(32);
        let mut name = part_name_bytes(&self.part);
        note.append(&mut name);
        proof {
            assert(note@ =~= spec_device_note_prefix() + spec_part_name(self.part));
        }
        let ghost noteseq = note@;
        let mut notes: Vec<Vec<u8>> = Vec::new();
        notes.push(note);
        proof {
            assert(notes.deep_view().len() == 1);
            assert(notes.deep_view()[0] =~= noteseq);
            assert(notes.deep_view() =~= seq![
                spec_device_note_prefix() + spec_part_name(self.part),
            ]);
        }
        let breaks = jed_linebreaks(device);
        proof {
            assert forall|i: int| 0 <= i < breaks@.len() implies breaks@[i] <= fuses@.len() by {
                lemma_jed_linebreaks_bounded(device, i);
            }
        }
        jed_file_emit(&fuses, header.as_slice(), &notes, &breaks)
    }
}

} // verus!
