//! The crate-level laws: statements that relate several functions of the
//! addressing engine, proved once and for all.

use vstd::prelude::*;

use crate::coordinate::Coordinate;
use crate::fb::{
    spec_and_bit_pos, spec_and_bit_offset, spec_mirror_fb, spec_or_bit_offset, spec_or_bit_pos,
    lemma_corner_bounds, NOGAP_AND_TERM_PERMUTE,
};
use crate::jed::{
    lemma_jed_fb_base_mono, lemma_jed_fb_size_bounds, lemma_jed_structure, lemma_locate_fb_none,
    lemma_locate_fb_some, spec_is_fb, spec_jed_fb_base, spec_jed_fb_size, spec_jed_tail_len,
    spec_locate_fb, spec_num_jed_fuses,
};
use crate::mc::{spec_mc_bit_offset, spec_mc_prop_coord};
use crate::partdb::XC2Device;
use crate::{ANDTERMS_PER_FB, MCS_PER_FB, ZIA_ROWS};

verus! {

/// The two halves of a mirrored function-block pair share their corner
/// row.
pub proof fn lemma_pair_corner_row(device: XC2Device, e: u8)
    requires
        e % 2 == 0,
        e + 1 < device.spec_num_fbs(),
    ensures
        device.spec_fb_corner((e + 1) as u8).y == device.spec_fb_corner(e).y,
{
}

/// Mirror law: for an even function block `e` and any block-relative bit
/// offset, the coordinate of that bit in block `e + 1` is the reflection
/// of its coordinate in block `e`: the offset of the bit from `e`'s
/// corner, re-applied to `e + 1`'s corner with the column subtracted and
/// the row kept.
pub proof fn lemma_mirror_law(device: XC2Device, e: u8, off: Coordinate)
    requires
        e % 2 == 0,
        e + 1 < device.spec_num_fbs(),
        off.x <= 250,
        off.y <= 47,
    ensures
        spec_mirror_fb(device, (e + 1) as u8, off) == device.spec_fb_corner(
            (e + 1) as u8,
        ).spec_sub_x_add_y(
            Coordinate {
                x: (spec_mirror_fb(device, e, off).x - device.spec_fb_corner(e).x) as usize,
                y: (spec_mirror_fb(device, e, off).y - device.spec_fb_corner(e).y) as usize,
            },
        ),
{
    lemma_corner_bounds(device, e);
    lemma_corner_bounds(device, (e + 1) as u8);
}

/// Mirror law for AND-array bits: an odd block's bit is the reflection
/// of the even partner's bit about the odd block's corner.
pub proof fn lemma_mirror_law_and(device: XC2Device, e: u8, pterm_i: u8, inp_i: u8, comp: bool)
    requires
        e % 2 == 0,
        e + 1 < device.spec_num_fbs(),
        pterm_i < ANDTERMS_PER_FB,
        inp_i < ZIA_ROWS,
    ensures
        spec_and_bit_pos(device, (e + 1) as u8, pterm_i, inp_i, comp) == device.spec_fb_corner(
            (e + 1) as u8,
        ).spec_sub_x_add_y(
            Coordinate {
                x: (spec_and_bit_pos(device, e, pterm_i, inp_i, comp).x - device.spec_fb_corner(
                    e,
                ).x) as usize,
                y: (spec_and_bit_pos(device, e, pterm_i, inp_i, comp).y - device.spec_fb_corner(
                    e,
                ).y) as usize,
            },
        ),
{
    assert(NOGAP_AND_TERM_PERMUTE[pterm_i as int] <= 55);
    lemma_mirror_law(device, e, spec_and_bit_offset(device, pterm_i, inp_i, comp));
}

/// Mirror law for OR-array bits.
pub proof fn lemma_mirror_law_or(device: XC2Device, e: u8, mc: u8, pterm_i: u8)
    requires
        e % 2 == 0,
        e + 1 < device.spec_num_fbs(),
        mc < MCS_PER_FB,
        pterm_i < ANDTERMS_PER_FB,
    ensures
        spec_or_bit_pos(device, (e + 1) as u8, mc, pterm_i) == device.spec_fb_corner(
            (e + 1) as u8,
        ).spec_sub_x_add_y(
            Coordinate {
                x: (spec_or_bit_pos(device, e, mc, pterm_i).x - device.spec_fb_corner(e).x)
                    as usize,
                y: (spec_or_bit_pos(device, e, mc, pterm_i).y - device.spec_fb_corner(e).y)
                    as usize,
            },
        ),
{
    assert(crate::fb::SIDE_OR_ROW_PERMUTE[pterm_i as int / 2] <= 39);
    lemma_mirror_law(device, e, spec_or_bit_offset(device, mc, pterm_i));
}

/// Mirror law for macrocell property bits.
pub proof fn lemma_mirror_law_mc(device: XC2Device, e: u8, mc: u8, k: int)
    requires
        e % 2 == 0,
        e + 1 < device.spec_num_fbs(),
        mc < MCS_PER_FB,
        0 <= k < 29,
        !device.spec_has_large_macrocells() ==> k < 27,
    ensures
        spec_mc_prop_coord(device, (e + 1) as u8, mc, k) == device.spec_fb_corner(
            (e + 1) as u8,
        ).spec_sub_x_add_y(
            Coordinate {
                x: (spec_mc_prop_coord(device, e, mc, k).x - device.spec_fb_corner(e).x) as usize,
                y: (spec_mc_prop_coord(device, e, mc, k).y - device.spec_fb_corner(e).y) as usize,
            },
        ),
{
    crate::mc::lemma_big_mc_starting_row_bounds(mc as int);
    lemma_mirror_law(device, e, spec_mc_bit_offset(device, mc, k));
}

/// A block decomposition of an index is located exactly.
pub proof fn lemma_locate_fb_exact(device: XC2Device, start: int, off: int, fb2: int, off2: int)
    requires
        0 <= start <= fb2 < device.spec_num_fbs(),
        0 <= off2 < spec_jed_fb_size(device, fb2 as u8),
        0 <= off,
        off + spec_jed_fb_base(device, start) == spec_jed_fb_base(device, fb2) + off2,
    ensures
        spec_locate_fb(device, start, off) == Some((fb2, off2)),
    decreases fb2 - start,
{
    if start == fb2 {
    } else {
        lemma_jed_fb_base_mono(device, start + 1, fb2);
        lemma_jed_fb_size_bounds(device, start as u8);
        lemma_locate_fb_exact(
            device,
            start + 1,
            off - spec_jed_fb_size(device, start as u8),
            fb2,
            off2,
        );
    }
}

/// Partition law: the function-block spans and the global tail cut the
/// linear fuse range `0..num_jed_fuses` into contiguous, non-overlapping
/// regions that cover it exactly.  Every index decomposes uniquely as a
/// block base plus an in-block offset, or falls in the tail; and the
/// block sizes together with the tail length sum to the fuse count.
pub proof fn lemma_jed_partition(device: XC2Device, i: int)
    requires
        0 <= i < spec_num_jed_fuses(device),
    ensures
        spec_jed_fb_base(device, device.spec_num_fbs() as int) + spec_jed_tail_len(device)
            == spec_num_jed_fuses(device),
        i < spec_jed_fb_base(device, device.spec_num_fbs() as int) ==> (spec_is_fb(device, i)
            matches Some((fb, off)) && 0 <= fb < device.spec_num_fbs() && 0 <= off
            < spec_jed_fb_size(device, fb as u8) && i == spec_jed_fb_base(device, fb) + off),
        i >= spec_jed_fb_base(device, device.spec_num_fbs() as int) ==> spec_is_fb(device, i)
            is None,
        forall|fb2: int, off2: int|
            0 <= fb2 < device.spec_num_fbs() && 0 <= off2 < spec_jed_fb_size(device, fb2 as u8)
                && i == spec_jed_fb_base(device, fb2) + off2 ==> spec_is_fb(device, i) == Some(
                (fb2, off2),
            ),
{
    lemma_jed_structure(device);
    if i < spec_jed_fb_base(device, device.spec_num_fbs() as int) {
        lemma_locate_fb_some(device, 0, i);
    } else {
        lemma_locate_fb_none(device, 0, i);
    }
    assert forall|fb2: int, off2: int|
        0 <= fb2 < device.spec_num_fbs() && 0 <= off2 < spec_jed_fb_size(device, fb2 as u8) && i
            == spec_jed_fb_base(device, fb2) + off2 implies spec_is_fb(device, i) == Some(
        (fb2, off2),
    ) by {
        lemma_locate_fb_exact(device, 0, i, fb2, off2);
    }
}

/// Inverse of [`NOGAP_AND_TERM_PERMUTE`]: the table is a permutation of
/// `0..56`.
pub const NOGAP_AND_TERM_PERMUTE_INV: [usize; 56] = [
    0, 1, 2, 3, 4, 5, 6, 7, 8, 9, 10, 55, 54, 53, 11, 12, 13, 52, 51, 50, 14, 15, 16, 49, 48, 47,
    17, 18, 19, 46, 45, 44, 20, 21, 22, 43, 42, 41, 23, 24, 25, 40, 39, 38, 26, 27, 28, 37, 36,
    35, 29, 30, 31, 34, 33, 32,
];

/// Row-to-pair-index inverse of [`SIDE_OR_ROW_PERMUTE`]; rows that hold
/// no OR bits map to the sentinel 28.
pub const SIDE_OR_ROW_PERMUTE_INV: [usize; 40] = [
    4, 5, 28, 6, 7, 8, 28, 9, 10, 28, 28, 11, 12, 13, 28, 14, 15, 0, 28, 1, 3, 28, 2, 16, 17, 28,
    18, 19, 20, 28, 28, 21, 22, 28, 23, 24, 25, 28, 26, 27,
];

/// The AND-column permutation is injective.
pub proof fn lemma_nogap_permute_injective(p1: int, p2: int)
    requires
        0 <= p1 < 56,
        0 <= p2 < 56,
        p1 != p2,
    ensures
        NOGAP_AND_TERM_PERMUTE[p1] != NOGAP_AND_TERM_PERMUTE[p2],
{
    assert(forall|i: int|
        0 <= i < 56 ==> NOGAP_AND_TERM_PERMUTE_INV[#[trigger] NOGAP_AND_TERM_PERMUTE[i] as int]
            == i);
}

/// The OR-row permutation is injective.
pub proof fn lemma_side_or_permute_injective(p1: int, p2: int)
    requires
        0 <= p1 < 28,
        0 <= p2 < 28,
        p1 != p2,
    ensures
        crate::fb::SIDE_OR_ROW_PERMUTE[p1] != crate::fb::SIDE_OR_ROW_PERMUTE[p2],
{
    assert(forall|i: int|
        0 <= i < 28 ==> SIDE_OR_ROW_PERMUTE_INV[#[trigger] crate::fb::SIDE_OR_ROW_PERMUTE[i]
            as int] == i);
}

/// The buried-macrocell bit order is injective.
pub proof fn lemma_fat_buried_injective(b1: int, b2: int)
    requires
        0 <= b1 < 16,
        0 <= b2 < 16,
        b1 != b2,
    ensures
        crate::jed::FAT_BURIED_BIT_ORDER[b1] != crate::jed::FAT_BURIED_BIT_ORDER[b2],
{
}

/// Row span of a function block's bit area: rows used by any of its
/// ZIA, AND, OR or macrocell bits, relative to the pair corner row.
pub open spec fn spec_fb_row_span(device: XC2Device) -> int {
    if device.spec_has_large_macrocells() && device != XC2Device::XC2C256 {
        39
    } else {
        47
    }
}

/// Column geometry of a mirrored pair: the odd corner sits exactly one
/// macrocell-to-ZIA span right of the even corner, and the two corners
/// share their row.
pub proof fn lemma_pair_geometry(device: XC2Device, e: u8)
    requires
        e % 2 == 0,
        e + 1 < device.spec_num_fbs(),
    ensures
        device.spec_fb_corner((e + 1) as u8).x == device.spec_fb_corner(e).x + 2
            * crate::zia::spec_zia_area_offset(device) + 2 * device.spec_zia_width() - 1,
        device.spec_fb_corner((e + 1) as u8).y == device.spec_fb_corner(e).y,
{
}

/// Distinct pairs occupy disjoint rectangles: either their column
/// ranges or their row bands are disjoint.
pub proof fn lemma_pair_rects_disjoint(device: XC2Device, e1: u8, e2: u8)
    requires
        e1 % 2 == 0,
        e2 % 2 == 0,
        e1 != e2,
        e1 + 1 < device.spec_num_fbs(),
        e2 + 1 < device.spec_num_fbs(),
    ensures
        device.spec_fb_corner((e1 + 1) as u8).x < device.spec_fb_corner(e2).x
            || device.spec_fb_corner((e2 + 1) as u8).x < device.spec_fb_corner(e1).x
            || device.spec_fb_corner(e1).y + spec_fb_row_span(device) < device.spec_fb_corner(
            e2,
        ).y || device.spec_fb_corner(e2).y + spec_fb_row_span(device) < device.spec_fb_corner(
            e1,
        ).y,
{
    lemma_pair_geometry(device, e1);
    lemma_pair_geometry(device, e2);
}

/// Pair index (the even partner) of a function block.
pub open spec fn spec_pair_of(fb: u8) -> u8 {
    (fb - (fb as int) % 2) as u8
}

/// The ZIA column band of a pair.
pub open spec fn spec_in_zia_cols(device: XC2Device, e: u8, x: int) -> bool {
    device.spec_fb_corner(e).x + crate::zia::spec_zia_area_offset(device) <= x
        <= device.spec_fb_corner(e).x + crate::zia::spec_zia_area_offset(device) + 2
        * device.spec_zia_width() - 1
}

/// The mirrored side band of one function block: columns within
/// `wband` of its corner, toward the pair's middle.
pub open spec fn spec_in_side_cols(device: XC2Device, fb: u8, lo: int, hi: int, x: int) -> bool {
    if fb % 2 == 0 {
        device.spec_fb_corner(fb).x + lo <= x <= device.spec_fb_corner(fb).x + hi
    } else {
        device.spec_fb_corner(fb).x - hi <= x <= device.spec_fb_corner(fb).x - lo
    }
}

/// Where a ZIA selector bit lands: in the pair's ZIA column band, with
/// the block's parity, at a row outside the OR band of the small
/// family.
pub proof fn lemma_zia_pos_class(device: XC2Device, fb: u8, zia_row: u8, biti: int)
    requires
        fb < device.spec_num_fbs(),
        zia_row < ZIA_ROWS,
        0 <= biti < device.spec_zia_width(),
    ensures
        ({
            let c = crate::zia::spec_zia_bit_pos(device, fb, zia_row, biti);
            let e = spec_pair_of(fb);
            &&& spec_in_zia_cols(device, e, c.x as int)
            &&& (c.x - device.spec_fb_corner(e).x - crate::zia::spec_zia_area_offset(device)) % 2
                == (fb as int) % 2
            &&& device.spec_fb_corner(e).y <= c.y <= device.spec_fb_corner(e).y
                + spec_fb_row_span(device)
            &&& !(device.spec_has_large_macrocells() && device != XC2Device::XC2C256) ==> !(20
                <= c.y - device.spec_fb_corner(e).y <= 27)
        }),
{
    lemma_corner_bounds(device, spec_pair_of(fb));
}

/// ZIA selector bits of a pair are at pairwise distinct cells.
pub proof fn lemma_zia_pos_injective(
    device: XC2Device,
    fb1: u8,
    r1: u8,
    b1: int,
    fb2: u8,
    r2: u8,
    b2: int,
)
    requires
        fb1 < device.spec_num_fbs(),
        fb2 < device.spec_num_fbs(),
        spec_pair_of(fb1) == spec_pair_of(fb2),
        r1 < ZIA_ROWS,
        r2 < ZIA_ROWS,
        0 <= b1 < device.spec_zia_width(),
        0 <= b2 < device.spec_zia_width(),
        (fb1, r1, b1) != (fb2, r2, b2),
    ensures
        crate::zia::spec_zia_bit_pos(device, fb1, r1, b1) != crate::zia::spec_zia_bit_pos(
            device,
            fb2,
            r2,
            b2,
        ),
{
    lemma_corner_bounds(device, spec_pair_of(fb1));
}

/// Where a mirrored (AND, OR or macrocell) bit offset lands.
pub proof fn lemma_mirror_pos_class(device: XC2Device, fb: u8, off: Coordinate)
    requires
        fb < device.spec_num_fbs(),
        off.x < crate::zia::spec_zia_area_offset(device),
        off.y <= spec_fb_row_span(device),
    ensures
        ({
            let c = spec_mirror_fb(device, fb, off);
            let e = spec_pair_of(fb);
            &&& spec_in_side_cols(device, fb, off.x as int, off.x as int, c.x as int)
            &&& spec_in_side_cols(device, fb, 0, crate::zia::spec_zia_area_offset(device) - 1,
                c.x as int)
            &&& c.y == device.spec_fb_corner(e).y + off.y
            &&& device.spec_fb_corner(e).x <= c.x <= device.spec_fb_corner(e).x + 2
                * crate::zia::spec_zia_area_offset(device) + 2 * device.spec_zia_width() - 1
            &&& !spec_in_zia_cols(device, e, c.x as int)
        }),
{
    lemma_corner_bounds(device, fb);
    if fb % 2 == 0 {
        if (fb + 1) < device.spec_num_fbs() {
            lemma_pair_geometry(device, fb);
        } else {
            assert(device == XC2Device::XC2C32 || device == XC2Device::XC2C32A ==> fb == 0);
        }
    } else {
        lemma_pair_geometry(device, (fb - 1) as u8);
    }
}

/// Mirrored offsets of one pair land at distinct cells when they come
/// from different sides or from distinct offsets on the same side.
pub proof fn lemma_mirror_pos_injective(
    device: XC2Device,
    fb1: u8,
    off1: Coordinate,
    fb2: u8,
    off2: Coordinate,
)
    requires
        fb1 < device.spec_num_fbs(),
        fb2 < device.spec_num_fbs(),
        spec_pair_of(fb1) == spec_pair_of(fb2),
        off1.x < crate::zia::spec_zia_area_offset(device),
        off2.x < crate::zia::spec_zia_area_offset(device),
        off1.y <= spec_fb_row_span(device),
        off2.y <= spec_fb_row_span(device),
        (fb1, off1) != (fb2, off2),
    ensures
        spec_mirror_fb(device, fb1, off1) != spec_mirror_fb(device, fb2, off2),
{
    lemma_mirror_pos_class(device, fb1, off1);
    lemma_mirror_pos_class(device, fb2, off2);
    lemma_corner_bounds(device, fb1);
    lemma_corner_bounds(device, fb2);
    if fb1 != fb2 {
        if fb1 % 2 == 0 {
            lemma_pair_geometry(device, fb1);
        } else {
            lemma_pair_geometry(device, fb2);
        }
    }
}

/// Distinct AND-array bit parameters give distinct block-relative
/// offsets.
#[verifier::rlimit(100)]
pub proof fn lemma_and_offset_injective(
    device: XC2Device,
    p1: u8,
    i1: u8,
    c1: bool,
    p2: u8,
    i2: u8,
    c2: bool,
)
    requires
        p1 < ANDTERMS_PER_FB,
        p2 < ANDTERMS_PER_FB,
        i1 < ZIA_ROWS,
        i2 < ZIA_ROWS,
        (p1, i1, c1) != (p2, i2, c2),
    ensures
        spec_and_bit_offset(device, p1, i1, c1) != spec_and_bit_offset(device, p2, i2, c2),
{
    if p1 != p2 {
        lemma_nogap_permute_injective(p1 as int, p2 as int);
    }
    assert(NOGAP_AND_TERM_PERMUTE[p1 as int] <= 55);
    assert(NOGAP_AND_TERM_PERMUTE[p2 as int] <= 55);
}

/// Distinct OR-array bit parameters give distinct block-relative
/// offsets.
pub proof fn lemma_or_offset_injective(device: XC2Device, m1: u8, p1: u8, m2: u8, p2: u8)
    requires
        m1 < MCS_PER_FB,
        m2 < MCS_PER_FB,
        p1 < ANDTERMS_PER_FB,
        p2 < ANDTERMS_PER_FB,
        (m1, p1) != (m2, p2),
    ensures
        spec_or_bit_offset(device, m1, p1) != spec_or_bit_offset(device, m2, p2),
{
    if device.spec_has_large_macrocells() && device != XC2Device::XC2C256 {
        if p1 as int / 2 != p2 as int / 2 {
            lemma_side_or_permute_injective(p1 as int / 2, p2 as int / 2);
        }
        assert(crate::fb::SIDE_OR_ROW_PERMUTE[p1 as int / 2] <= 39);
        assert(crate::fb::SIDE_OR_ROW_PERMUTE[p2 as int / 2] <= 39);
    }
}

/// Distinct macrocell tile bits give distinct block-relative offsets.
pub proof fn lemma_mc_offset_injective(device: XC2Device, m1: u8, k1: int, m2: u8, k2: int)
    requires
        m1 < MCS_PER_FB,
        m2 < MCS_PER_FB,
        0 <= k1 < 29,
        0 <= k2 < 29,
        !device.spec_has_large_macrocells() ==> k1 < 27 && k2 < 27,
        (m1, k1) != (m2, k2),
    ensures
        spec_mc_bit_offset(device, m1, k1) != spec_mc_bit_offset(device, m2, k2),
{
    if device.spec_has_large_macrocells() && device != XC2Device::XC2C256 {
        assert(forall|m: int|
            0 <= m < 15 ==> #[trigger] crate::mc::BIG_MC_STARTING_ROW[m + 1]
                >= crate::mc::BIG_MC_STARTING_ROW[m] + 2);
        if m1 != m2 {
            if m1 < m2 {
                assert(crate::mc::BIG_MC_STARTING_ROW[m1 as int] + 1
                    < crate::mc::BIG_MC_STARTING_ROW[m2 as int]);
            } else {
                assert(crate::mc::BIG_MC_STARTING_ROW[m2 as int] + 1
                    < crate::mc::BIG_MC_STARTING_ROW[m1 as int]);
            }
        }
    }
}

/// Block-relative offsets of the AND, OR and macrocell bit families are
/// bounded by the ZIA area offset and the block row span, and the
/// families use disjoint column or row bands within one block.
pub proof fn lemma_offset_bounds(device: XC2Device)
    ensures
        forall|p: u8, i: u8, c: bool|
            p < ANDTERMS_PER_FB && i < ZIA_ROWS ==> {
                let o = #[trigger] spec_and_bit_offset(device, p, i, c);
                &&& crate::fb::spec_mc_area_width(device) + (
                    if device.spec_has_large_macrocells() && device != XC2Device::XC2C256 {
                        32int
                    } else {
                        0int
                    }) <= o.x < crate::zia::spec_zia_area_offset(device)
                &&& o.y <= spec_fb_row_span(device)
                &&& !(device.spec_has_large_macrocells() && device != XC2Device::XC2C256) ==> !(
                20 <= o.y <= 27)
            },
        forall|m: u8, p: u8|
            m < MCS_PER_FB && p < ANDTERMS_PER_FB ==> {
                let o = #[trigger] spec_or_bit_offset(device, m, p);
                &&& crate::fb::spec_mc_area_width(device) <= o.x < crate::zia::spec_zia_area_offset(
                    device,
                )
                &&& (device.spec_has_large_macrocells() && device != XC2Device::XC2C256) ==> o.x
                    <= 46
                &&& o.y <= spec_fb_row_span(device)
                &&& !(device.spec_has_large_macrocells() && device != XC2Device::XC2C256) ==> 20
                    <= o.y <= 27
            },
        forall|m: u8, k: int|
            m < MCS_PER_FB && 0 <= k < 29 && (!device.spec_has_large_macrocells() ==> k < 27) ==> {
                let o = #[trigger] spec_mc_bit_offset(device, m, k);
                &&& o.x < crate::fb::spec_mc_area_width(device)
                &&& o.y <= spec_fb_row_span(device)
            },
{
    assert forall|p: u8, i: u8, c: bool| p < ANDTERMS_PER_FB && i < ZIA_ROWS implies {
        let o = #[trigger] spec_and_bit_offset(device, p, i, c);
        &&& crate::fb::spec_mc_area_width(device) + (
            if device.spec_has_large_macrocells() && device != XC2Device::XC2C256 {
                32int
            } else {
                0int
            }) <= o.x < crate::zia::spec_zia_area_offset(device)
        &&& o.y <= spec_fb_row_span(device)
        &&& !(device.spec_has_large_macrocells() && device != XC2Device::XC2C256) ==> !(20 <= o.y
            <= 27)
    } by {
        assert(NOGAP_AND_TERM_PERMUTE[p as int] <= 55);
    }
    assert forall|m: u8, p: u8| m < MCS_PER_FB && p < ANDTERMS_PER_FB implies {
        let o = #[trigger] spec_or_bit_offset(device, m, p);
        &&& crate::fb::spec_mc_area_width(device) <= o.x < crate::zia::spec_zia_area_offset(device)
        &&& (device.spec_has_large_macrocells() && device != XC2Device::XC2C256) ==> o.x <= 46
        &&& o.y <= spec_fb_row_span(device)
        &&& !(device.spec_has_large_macrocells() && device != XC2Device::XC2C256) ==> 20 <= o.y
            <= 27
    } by {
        assert(crate::fb::SIDE_OR_ROW_PERMUTE[p as int / 2] <= 39);
    }
    assert forall|m: u8, k: int|
        m < MCS_PER_FB && 0 <= k < 29 && (!device.spec_has_large_macrocells() ==> k < 27) implies {
        let o = #[trigger] spec_mc_bit_offset(device, m, k);
        &&& o.x < crate::fb::spec_mc_area_width(device)
        &&& o.y <= spec_fb_row_span(device)
    } by {
        crate::mc::lemma_big_mc_starting_row_bounds(m as int);
    }
}

/// A pair's even index and its odd partner both exist: every device has
/// an even number of function blocks.
pub proof fn lemma_pair_exists(device: XC2Device, fb: u8)
    requires
        fb < device.spec_num_fbs(),
    ensures
        spec_pair_of(fb) % 2 == 0,
        spec_pair_of(fb) + 1 < device.spec_num_fbs(),
        spec_pair_of(fb) <= fb <= spec_pair_of(fb) + 1,
{
}

/// Any region coordinate lies in its pair's rectangle.
pub proof fn lemma_region_coord_in_rect(device: XC2Device, fb: u8, off: int)
    requires
        fb < device.spec_num_fbs(),
        0 <= off < spec_jed_fb_size(device, fb),
    ensures
        ({
            let c = crate::jed::spec_jed_region_coord(device, fb, off);
            let e = spec_pair_of(fb);
            &&& device.spec_fb_corner(e).x <= c.x <= device.spec_fb_corner((e + 1) as u8).x
            &&& device.spec_fb_corner(e).y <= c.y <= device.spec_fb_corner(e).y
                + spec_fb_row_span(device)
        }),
{
    lemma_pair_exists(device, fb);
    lemma_pair_geometry(device, spec_pair_of(fb));
    lemma_offset_bounds(device);
    crate::jed::lemma_jed_mc_block_bounds(device, fb, 16);
    let zw = device.spec_zia_width() as int;
    let zia_end = zw * 40;
    let and_end = zia_end + 4480;
    let or_end = and_end + 896;
    if off < zia_end {
        assert(off / zw < 40 && off % zw < zw) by (nonlinear_arith)
            requires
                off < zw * 40,
                zw >= 1,
                off >= 0,
        {
        }
        lemma_zia_pos_class(device, fb, (off / zw) as u8, off % zw);
    } else if off < and_end {
        lemma_mirror_pos_class(
            device,
            fb,
            spec_and_bit_offset(
                device,
                ((off - zia_end) / 80) as u8,
                (((off - zia_end) % 80) / 2) as u8,
                (off - zia_end) % 80 % 2 == 1,
            ),
        );
    } else if off < or_end {
        lemma_mirror_pos_class(
            device,
            fb,
            spec_or_bit_offset(device, ((off - and_end) % 16) as u8, ((off - and_end) / 16) as u8),
        );
    } else {
        let o = off - or_end;
        if device.spec_has_large_macrocells() {
            crate::jed::lemma_locate_mc_props(device, fb, 0, o);
            let (m, mo) = crate::jed::spec_locate_mc(device, fb, 0, o);
            let k = if device.spec_has_io_at(fb, m as u8) {
                mo
            } else {
                crate::jed::FAT_BURIED_BIT_ORDER[mo] as int
            };
            assert(0 <= k < 29);
            lemma_mirror_pos_class(device, fb, spec_mc_bit_offset(device, m as u8, k));
        } else {
            crate::jed::lemma_small_mc_block(device, fb, 16);
            lemma_mirror_pos_class(
                device,
                fb,
                spec_mc_bit_offset(device, (o / 27) as u8, o % 27),
            );
        }
    }
}

/// Injectivity of the per-block coordinate computation: two distinct
/// in-range positions of the function-block regions always land on
/// distinct physical cells, whether within one block or across blocks.
#[verifier::rlimit(100)]
pub proof fn lemma_region_coord_injective(device: XC2Device, fb1: u8, off1: int, fb2: u8, off2: int)
    requires
        fb1 < device.spec_num_fbs(),
        fb2 < device.spec_num_fbs(),
        0 <= off1 < spec_jed_fb_size(device, fb1),
        0 <= off2 < spec_jed_fb_size(device, fb2),
        fb1 != fb2 || off1 != off2,
    ensures
        crate::jed::spec_jed_region_coord(device, fb1, off1) != crate::jed::spec_jed_region_coord(
            device,
            fb2,
            off2,
        ),
{
    lemma_pair_exists(device, fb1);
    lemma_pair_exists(device, fb2);
    let e1 = spec_pair_of(fb1);
    let e2 = spec_pair_of(fb2);
    if e1 != e2 {
        lemma_region_coord_in_rect(device, fb1, off1);
        lemma_region_coord_in_rect(device, fb2, off2);
        lemma_pair_rects_disjoint(device, e1, e2);
        lemma_pair_geometry(device, e1);
        lemma_pair_geometry(device, e2);
        return ;
    }
    lemma_offset_bounds(device);
    crate::jed::lemma_jed_mc_block_bounds(device, fb1, 16);
    crate::jed::lemma_jed_mc_block_bounds(device, fb2, 16);
    let zw = device.spec_zia_width() as int;
    let zia_end = zw * 40;
    let and_end = zia_end + 4480;
    let or_end = and_end + 896;
    // decode side 1
    if off1 < zia_end {
        assert(off1 / zw < 40 && off1 % zw < zw && off1 == (off1 / zw) * zw + off1 % zw)
            by (nonlinear_arith)
            requires
                off1 < zw * 40,
                zw >= 1,
                off1 >= 0,
        {
        }
        let r1 = (off1 / zw) as u8;
        let b1 = off1 % zw;
        lemma_zia_pos_class(device, fb1, r1, b1);
        if off2 < zia_end {
            assert(off2 / zw < 40 && off2 % zw < zw && off2 == (off2 / zw) * zw + off2 % zw)
                by (nonlinear_arith)
                requires
                    off2 < zw * 40,
                    zw >= 1,
                    off2 >= 0,
            {
            }
            let r2 = (off2 / zw) as u8;
            let b2 = off2 % zw;
            lemma_zia_pos_injective(device, fb1, r1, b1, fb2, r2, b2);
        } else {
            lemma_region_mirrored_class(device, fb2, off2);
        }
    } else {
        lemma_region_mirrored_class(device, fb1, off1);
        if off2 < zia_end {
            assert(off2 / zw < 40 && off2 % zw < zw) by (nonlinear_arith)
                requires
                    off2 < zw * 40,
                    zw >= 1,
                    off2 >= 0,
            {
            }
            lemma_zia_pos_class(device, fb2, (off2 / zw) as u8, off2 % zw);
        } else {
            lemma_region_mirrored_class(device, fb2, off2);
            lemma_mirrored_regions_injective(device, fb1, off1, fb2, off2);
        }
    }
}

/// The block-relative offset a mirrored-region position decodes to.
pub open spec fn spec_region_offset(device: XC2Device, fb: u8, off: int) -> Coordinate {
    let zw = device.spec_zia_width() as int;
    let zia_end = zw * 40;
    let and_end = zia_end + 4480;
    let or_end = and_end + 896;
    if off < and_end {
        spec_and_bit_offset(
            device,
            ((off - zia_end) / 80) as u8,
            (((off - zia_end) % 80) / 2) as u8,
            (off - zia_end) % 80 % 2 == 1,
        )
    } else if off < or_end {
        spec_or_bit_offset(device, ((off - and_end) % 16) as u8, ((off - and_end) / 16) as u8)
    } else {
        let o = off - or_end;
        if device.spec_has_large_macrocells() {
            let (m, mo) = crate::jed::spec_locate_mc(device, fb, 0, o);
            let k = if device.spec_has_io_at(fb, m as u8) {
                mo
            } else {
                crate::jed::FAT_BURIED_BIT_ORDER[mo] as int
            };
            spec_mc_bit_offset(device, m as u8, k)
        } else {
            spec_mc_bit_offset(device, (o / 27) as u8, o % 27)
        }
    }
}

/// A mirrored-region position's coordinate is the mirror of its decoded
/// offset, and the offset is bounded.
pub proof fn lemma_region_mirrored_class(device: XC2Device, fb: u8, off: int)
    requires
        fb < device.spec_num_fbs(),
        device.spec_zia_width() * 40 <= off < spec_jed_fb_size(device, fb),
    ensures
        ({
            let o = spec_region_offset(device, fb, off);
            &&& crate::jed::spec_jed_region_coord(device, fb, off) == spec_mirror_fb(device, fb, o)
            &&& o.x < crate::zia::spec_zia_area_offset(device)
            &&& o.y <= spec_fb_row_span(device)
            &&& (off >= device.spec_zia_width() * 40 + 5376 && device.spec_has_large_macrocells()
                && device != XC2Device::XC2C256) ==> exists|m: int|
                0 <= m < 16 && (o.y == crate::mc::BIG_MC_STARTING_ROW[m] || o.y
                    == crate::mc::BIG_MC_STARTING_ROW[m] + 1)
        }),
{
    lemma_offset_bounds(device);
    crate::jed::lemma_jed_mc_block_bounds(device, fb, 16);
    let zw = device.spec_zia_width() as int;
    let zia_end = zw * 40;
    let and_end = zia_end + 4480;
    let or_end = and_end + 896;
    if off < and_end {
    } else if off < or_end {
    } else {
        let o = off - or_end;
        if device.spec_has_large_macrocells() {
            crate::jed::lemma_locate_mc_props(device, fb, 0, o);
        } else {
            crate::jed::lemma_small_mc_block(device, fb, 16);
        }
    }
}

/// Two distinct mirrored-region positions of one pair land on distinct
/// cells.
#[verifier::rlimit(100)]
pub proof fn lemma_mirrored_regions_injective(
    device: XC2Device,
    fb1: u8,
    off1: int,
    fb2: u8,
    off2: int,
)
    requires
        fb1 < device.spec_num_fbs(),
        fb2 < device.spec_num_fbs(),
        spec_pair_of(fb1) == spec_pair_of(fb2),
        device.spec_zia_width() * 40 <= off1 < spec_jed_fb_size(device, fb1),
        device.spec_zia_width() * 40 <= off2 < spec_jed_fb_size(device, fb2),
        fb1 != fb2 || off1 != off2,
    ensures
        crate::jed::spec_jed_region_coord(device, fb1, off1) != crate::jed::spec_jed_region_coord(
            device,
            fb2,
            off2,
        ),
{
    lemma_region_mirrored_class(device, fb1, off1);
    lemma_region_mirrored_class(device, fb2, off2);
    let o1 = spec_region_offset(device, fb1, off1);
    let o2 = spec_region_offset(device, fb2, off2);
    if fb1 != fb2 || o1 != o2 {
        lemma_mirror_pos_injective(device, fb1, o1, fb2, o2);
        return ;
    }
    // same block, same decoded offset: show the positions were equal,
    // contradicting the hypothesis
    lemma_offset_bounds(device);
    crate::jed::lemma_jed_mc_block_bounds(device, fb1, 16);
    let zw = device.spec_zia_width() as int;
    let zia_end = zw * 40;
    let and_end = zia_end + 4480;
    let or_end = and_end + 896;
    let large_side = device.spec_has_large_macrocells() && device != XC2Device::XC2C256;
    // the offset's column band reveals the region of both sides
    if off1 < and_end {
        assert(off2 < and_end);
        let p1 = ((off1 - zia_end) / 80) as u8;
        let t1 = (off1 - zia_end) % 80;
        let p2 = ((off2 - zia_end) / 80) as u8;
        let t2 = (off2 - zia_end) % 80;
        if p1 != p2 || t1 / 2 != t2 / 2 || (t1 % 2 == 1) != (t2 % 2 == 1) {
            lemma_and_offset_injective(
                device,
                p1,
                (t1 / 2) as u8,
                t1 % 2 == 1,
                p2,
                (t2 / 2) as u8,
                t2 % 2 == 1,
            );
        }
        assert(off1 == zia_end + 80 * (p1 as int) + t1);
        assert(off2 == zia_end + 80 * (p2 as int) + t2);
        assert(t1 == 2 * (t1 / 2) + t1 % 2);
        assert(t2 == 2 * (t2 / 2) + t2 % 2);
    } else if off1 < or_end {
        assert(off2 >= and_end && off2 < or_end);
        let m1 = ((off1 - and_end) % 16) as u8;
        let p1 = ((off1 - and_end) / 16) as u8;
        let m2 = ((off2 - and_end) % 16) as u8;
        let p2 = ((off2 - and_end) / 16) as u8;
        if m1 != m2 || p1 != p2 {
            lemma_or_offset_injective(device, m1, p1, m2, p2);
        }
        assert(off1 == and_end + 16 * (p1 as int) + m1);
        assert(off2 == and_end + 16 * (p2 as int) + m2);
    } else {
        assert(off2 >= or_end);
        let oo1 = off1 - or_end;
        let oo2 = off2 - or_end;
        if device.spec_has_large_macrocells() {
            crate::jed::lemma_locate_mc_props(device, fb1, 0, oo1);
            crate::jed::lemma_locate_mc_props(device, fb1, 0, oo2);
            let (m1, mo1) = crate::jed::spec_locate_mc(device, fb1, 0, oo1);
            let (m2, mo2) = crate::jed::spec_locate_mc(device, fb1, 0, oo2);
            let k1 = if device.spec_has_io_at(fb1, m1 as u8) {
                mo1
            } else {
                crate::jed::FAT_BURIED_BIT_ORDER[mo1] as int
            };
            let k2 = if device.spec_has_io_at(fb1, m2 as u8) {
                mo2
            } else {
                crate::jed::FAT_BURIED_BIT_ORDER[mo2] as int
            };
            if m1 != m2 || k1 != k2 {
                lemma_mc_offset_injective(device, m1 as u8, k1, m2 as u8, k2);
            }
            if m1 == m2 && k1 == k2 {
                if !device.spec_has_io_at(fb1, m1 as u8) && mo1 != mo2 {
                    lemma_fat_buried_injective(mo1, mo2);
                }
                assert(mo1 == mo2);
            }
        } else {
            let m1 = (oo1 / 27) as u8;
            let k1 = oo1 % 27;
            let m2 = (oo2 / 27) as u8;
            let k2 = oo2 % 27;
            crate::jed::lemma_small_mc_block(device, fb1, 16);
            if m1 != m2 || k1 != k2 {
                lemma_mc_offset_injective(device, m1, k1, m2, k2);
            }
            assert(oo1 == 27 * (m1 as int) + k1);
            assert(oo2 == 27 * (m2 as int) + k2);
        }
    }
}

/// Distinct positions of the global tail land on distinct cells.
#[verifier::rlimit(100)]
pub proof fn lemma_tail_coord_injective(device: XC2Device, t1: int, t2: int)
    requires
        0 <= t1 < t2 < crate::jed::spec_jed_tail_len(device),
    ensures
        crate::jed::spec_jed_tail_coord(device, t1) != crate::jed::spec_jed_tail_coord(device, t2),
{
}

/// A global-tail cell never coincides with a function-block region
/// cell.
#[verifier::rlimit(100)]
pub proof fn lemma_region_vs_tail(device: XC2Device, fb: u8, off: int, t: int)
    requires
        fb < device.spec_num_fbs(),
        0 <= off < spec_jed_fb_size(device, fb),
        0 <= t < crate::jed::spec_jed_tail_len(device),
    ensures
        crate::jed::spec_jed_region_coord(device, fb, off) != crate::jed::spec_jed_tail_coord(
            device,
            t,
        ),
{
    lemma_pair_exists(device, fb);
    let e = spec_pair_of(fb);
    lemma_pair_geometry(device, e);
    lemma_corner_bounds(device, e);
    lemma_region_coord_in_rect(device, fb, off);
    lemma_offset_bounds(device);
    crate::jed::lemma_jed_mc_block_bounds(device, fb, 16);
    assert(forall|m: int|
        0 <= m < 16 ==> #[trigger] crate::mc::BIG_MC_STARTING_ROW[m] != 17
            && crate::mc::BIG_MC_STARTING_ROW[m] != 16 && crate::mc::BIG_MC_STARTING_ROW[m] != 22
            && crate::mc::BIG_MC_STARTING_ROW[m] != 21 && crate::mc::BIG_MC_STARTING_ROW[m] != 27
            && crate::mc::BIG_MC_STARTING_ROW[m] != 26);
    let zw = device.spec_zia_width() as int;
    let zia_end = zw * 40;
    if off < zia_end {
        assert(off / zw < 40 && off % zw < zw) by (nonlinear_arith)
            requires
                off < zw * 40,
                zw >= 1,
                off >= 0,
        {
        }
        lemma_zia_pos_class(device, fb, (off / zw) as u8, off % zw);
    } else {
        lemma_region_mirrored_class(device, fb, off);
    }
}

/// Injectivity of the full linear-index-to-coordinate map: two distinct
/// fuse positions of one device always address distinct physical cells.
pub proof fn lemma_jed_map_injective(device: XC2Device, i: int, j: int)
    requires
        0 <= i < spec_num_jed_fuses(device),
        0 <= j < spec_num_jed_fuses(device),
        i != j,
    ensures
        crate::jed::spec_jed_index_to_crbit(device, i) != crate::jed::spec_jed_index_to_crbit(
            device,
            j,
        ),
{
    lemma_jed_partition(device, i);
    lemma_jed_partition(device, j);
    let total = spec_jed_fb_base(device, device.spec_num_fbs() as int);
    if i < total && j < total {
        let (fb1, off1) = spec_is_fb(device, i)->Some_0;
        let (fb2, off2) = spec_is_fb(device, j)->Some_0;
        lemma_region_coord_injective(device, fb1 as u8, off1, fb2 as u8, off2);
    } else if i < total {
        let (fb1, off1) = spec_is_fb(device, i)->Some_0;
        lemma_region_vs_tail(device, fb1 as u8, off1, j - total);
    } else if j < total {
        let (fb2, off2) = spec_is_fb(device, j)->Some_0;
        lemma_region_vs_tail(device, fb2 as u8, off2, i - total);
    } else {
        if i < j {
            lemma_tail_coord_injective(device, i - total, j - total);
        } else {
            lemma_tail_coord_injective(device, j - total, i - total);
        }
    }
}

/// Every linear fuse position maps to a coordinate inside the device's
/// fuse array.
pub proof fn lemma_jed_coord_in_bounds(device: XC2Device, i: int)
    requires
        0 <= i < spec_num_jed_fuses(device),
    ensures
        device.spec_in_bounds(crate::jed::spec_jed_index_to_crbit(device, i)),
{
    lemma_jed_partition(device, i);
    let total = spec_jed_fb_base(device, device.spec_num_fbs() as int);
    if i < total {
        let (fb, off) = spec_is_fb(device, i)->Some_0;
        lemma_pair_exists(device, fb as u8);
        lemma_pair_geometry(device, spec_pair_of(fb as u8));
        lemma_corner_bounds(device, spec_pair_of(fb as u8));
        lemma_corner_bounds(device, (spec_pair_of(fb as u8) + 1) as u8);
        lemma_region_coord_in_rect(device, fb as u8, off);
    }
}

/// The linear index of a coordinate in the row-major grid.
pub open spec fn spec_lin(device: XC2Device, c: Coordinate) -> int {
    c.y * device.spec_fuse_array_dims().0 + c.x
}

/// Scattering writes each fuse to its own cell.
proof fn lemma_scatter_get(device: XC2Device, g: Seq<bool>, f: Seq<bool>, n: int, i: int)
    requires
        g.len() == device.spec_fuse_array_dims().0 * device.spec_fuse_array_dims().1,
        0 <= i < n <= spec_num_jed_fuses(device),
    ensures
        crate::jed::spec_jed_scatter(device, g, f, n)[spec_lin(
            device,
            crate::jed::spec_jed_index_to_crbit(device, i),
        )] == f[i],
    decreases n,
{
    lemma_jed_coord_in_bounds(device, i);
    crate::bitstream::lemma_linear_index_in_range(
        device,
        crate::jed::spec_jed_index_to_crbit(device, i),
    );
    lemma_scatter_len(device, g, f, n - 1);
    if n - 1 == i {
    } else {
        lemma_jed_coord_in_bounds(device, n - 1);
        lemma_jed_map_injective(device, i, n - 1);
        crate::bitstream::lemma_linear_index_injective(
            device,
            crate::jed::spec_jed_index_to_crbit(device, i),
            crate::jed::spec_jed_index_to_crbit(device, n - 1),
        );
        lemma_scatter_get(device, g, f, n - 1, i);
    }
}

/// Scattering leaves cells outside the map's image unchanged.
proof fn lemma_scatter_untouched(device: XC2Device, g: Seq<bool>, f: Seq<bool>, n: int, idx: int)
    requires
        g.len() == device.spec_fuse_array_dims().0 * device.spec_fuse_array_dims().1,
        0 <= idx < g.len(),
        0 <= n <= spec_num_jed_fuses(device),
        forall|j: int|
            0 <= j < n ==> spec_lin(device, crate::jed::spec_jed_index_to_crbit(device, j)) != idx,
    ensures
        crate::jed::spec_jed_scatter(device, g, f, n)[idx] == g[idx],
    decreases n,
{
    if n > 0 {
        lemma_scatter_untouched(device, g, f, n - 1, idx);
        lemma_scatter_len(device, g, f, n - 1);
        lemma_jed_coord_in_bounds(device, n - 1);
        crate::bitstream::lemma_linear_index_in_range(
            device,
            crate::jed::spec_jed_index_to_crbit(device, n - 1),
        );
    }
}

/// Scattering preserves the grid size.
proof fn lemma_scatter_len(device: XC2Device, g: Seq<bool>, f: Seq<bool>, n: int)
    requires
        g.len() == device.spec_fuse_array_dims().0 * device.spec_fuse_array_dims().1,
        0 <= n <= spec_num_jed_fuses(device),
    ensures
        crate::jed::spec_jed_scatter(device, g, f, n).len() == g.len(),
    decreases n,
{
    if n > 0 {
        lemma_scatter_len(device, g, f, n - 1);
        lemma_jed_coord_in_bounds(device, n - 1);
        crate::bitstream::lemma_linear_index_in_range(
            device,
            crate::jed::spec_jed_index_to_crbit(device, n - 1),
        );
    }
}

/// Round trip, fuse side: reading a fuse vector into a blank grid and
/// gathering it back yields the same vector.  This is what makes the
/// one-directional index map usable in both directions.
pub proof fn lemma_jed_round_trip_fuses(device: XC2Device, f: Seq<bool>)
    requires
        f.len() == spec_num_jed_fuses(device),
    ensures
        crate::jed::spec_jed_gather(
            device,
            crate::jed::spec_jed_scatter(
                device,
                crate::jed::spec_blank_grid(device),
                f,
                spec_num_jed_fuses(device),
            ),
        ) =~= f,
{
    let n = spec_num_jed_fuses(device);
    let g0 = crate::jed::spec_blank_grid(device);
    let scattered = crate::jed::spec_jed_scatter(device, g0, f, n);
    assert forall|i: int| 0 <= i < n implies crate::jed::spec_jed_gather(device, scattered)[i]
        == f[i] by {
        lemma_scatter_get(device, g0, f, n, i);
    }
}

/// Round trip, grid side: gathering a grid into a fuse vector and
/// scattering it back into a blank grid restores the grid, provided the
/// grid agrees with the blank state on the spare cells that no fuse
/// position addresses.
pub proof fn lemma_jed_round_trip_grid(device: XC2Device, g: Seq<bool>)
    requires
        g.len() == device.spec_fuse_array_dims().0 * device.spec_fuse_array_dims().1,
        forall|idx: int|
            0 <= idx < g.len() && (forall|j: int|
                0 <= j < spec_num_jed_fuses(device) ==> spec_lin(
                    device,
                    crate::jed::spec_jed_index_to_crbit(device, j),
                ) != idx) ==> g[idx] == crate::jed::spec_blank_grid(device)[idx],
    ensures
        crate::jed::spec_jed_scatter(
            device,
            crate::jed::spec_blank_grid(device),
            crate::jed::spec_jed_gather(device, g),
            spec_num_jed_fuses(device),
        ) =~= g,
{
    let n = spec_num_jed_fuses(device);
    let g0 = crate::jed::spec_blank_grid(device);
    let f = crate::jed::spec_jed_gather(device, g);
    let scattered = crate::jed::spec_jed_scatter(device, g0, f, n);
    lemma_scatter_len(device, g0, f, n);
    assert forall|idx: int| 0 <= idx < g.len() implies scattered[idx] == g[idx] by {
        if exists|j: int|
            0 <= j < n && spec_lin(device, crate::jed::spec_jed_index_to_crbit(device, j)) == idx {
            let j = choose|j: int|
                0 <= j < n && spec_lin(device, crate::jed::spec_jed_index_to_crbit(device, j))
                    == idx;
            lemma_scatter_get(device, g0, f, n, j);
        } else {
            lemma_scatter_untouched(device, g0, f, n, idx);
        }
    }
}

/// No macrocell default bit lies on the `done`/security rows, and none
/// coincides with the global tristate control fuses.
proof fn lemma_mc_prop_rows(device: XC2Device)
    ensures
        forall|fb: u8, mc: u8, k: int|
            fb < device.spec_num_fbs() && mc < MCS_PER_FB && 0 <= k < 29 && (
            !device.spec_has_large_macrocells() ==> k < 27) ==> (#[trigger] spec_mc_prop_coord(
                device,
                fb,
                mc,
                k,
            )).y + 2 < device.spec_fuse_array_dims().1,
        forall|fb: u8, mc: u8, k: int, i: int|
            fb < device.spec_num_fbs() && mc < MCS_PER_FB && 0 <= k < 29 && (
            !device.spec_has_large_macrocells() ==> k < 27) && 0 <= i < 4 ==> #[trigger]
                spec_mc_prop_coord(device, fb, mc, k) != #[trigger] device.spec_gts_enable(i)
                && spec_mc_prop_coord(device, fb, mc, k) != device.spec_gts_invert(i),
{
    lemma_offset_bounds(device);
    assert(forall|m: int|
        0 <= m < 16 ==> #[trigger] crate::mc::BIG_MC_STARTING_ROW[m] != 17
            && crate::mc::BIG_MC_STARTING_ROW[m] != 16 && crate::mc::BIG_MC_STARTING_ROW[m] != 22
            && crate::mc::BIG_MC_STARTING_ROW[m] != 21 && crate::mc::BIG_MC_STARTING_ROW[m] != 27
            && crate::mc::BIG_MC_STARTING_ROW[m] != 26);
    assert forall|fb: u8, mc: u8, k: int|
        fb < device.spec_num_fbs() && mc < MCS_PER_FB && 0 <= k < 29 && (
        !device.spec_has_large_macrocells() ==> k < 27) implies (#[trigger] spec_mc_prop_coord(
            device,
            fb,
            mc,
            k,
        )).y + 2 < device.spec_fuse_array_dims().1 && (forall|i: int|
            0 <= i < 4 ==> spec_mc_prop_coord(device, fb, mc, k) != device.spec_gts_enable(i)
                && spec_mc_prop_coord(device, fb, mc, k) != device.spec_gts_invert(i)) by {
        lemma_pair_exists(device, fb);
        lemma_pair_geometry(device, spec_pair_of(fb));
        lemma_corner_bounds(device, fb);
        lemma_corner_bounds(device, spec_pair_of(fb));
        crate::mc::lemma_big_mc_starting_row_bounds(mc as int);
        lemma_mirror_pos_class(device, fb, spec_mc_bit_offset(device, mc, k));
    }
}

/// The global tristate controls keep their wiped state on a blank
/// device: their cells stay 1, so the enables (stored inverted) read
/// `false` and the inverts read `true`.
pub proof fn lemma_gts_not_blank_cleared(device: XC2Device, i: int)
    requires
        0 <= i < 4,
    ensures
        !crate::bitstream::spec_blank_cleared(device, device.spec_gts_enable(i)),
        !crate::bitstream::spec_blank_cleared(device, device.spec_gts_invert(i)),
{
    lemma_mc_prop_rows(device);
}

/// Blank-device law: on a freshly initialized device every cell of the
/// two `done`/security rows is 1 except the single `done1` bit, and
/// every property bit with a declared blank default decodes to it: the
/// cleared macrocell and global clock/set-reset bits read 0, while the
/// tristate bits keep their wiped 1 cells.
pub proof fn lemma_blank_device_law(device: XC2Device)
    ensures
        forall|c: Coordinate|
            device.spec_in_bounds(c) && c.y + 2 >= device.spec_fuse_array_dims().1 ==> (
            #[trigger] crate::bitstream::spec_blank_cleared(device, c) <==> c
                == device.spec_done1()),
        forall|fb: u8, mc: u8, k: int|
            fb < device.spec_num_fbs() && mc < MCS_PER_FB && 0 <= k < 29 && (
            !device.spec_has_large_macrocells() ==> k < 27) && #[trigger]
                crate::bitstream::spec_blank_cleared_k(device, fb, mc, k)
                ==> crate::bitstream::spec_blank_cleared(
                device,
                spec_mc_prop_coord(device, fb, mc, k),
            ),
        forall|i: int|
            0 <= i < 3 ==> crate::bitstream::spec_blank_cleared(
                device,
                #[trigger] device.spec_gck(i),
            ),
        crate::bitstream::spec_blank_cleared(device, device.spec_gsr_enable()),
        crate::bitstream::spec_blank_cleared(device, device.spec_gsr_invert()),
        forall|i: int|
            0 <= i < 4 ==> !crate::bitstream::spec_blank_cleared(
                device,
                #[trigger] device.spec_gts_enable(i),
            ) && !crate::bitstream::spec_blank_cleared(device, device.spec_gts_invert(i)),
{
    lemma_mc_prop_rows(device);
    assert forall|c: Coordinate|
        device.spec_in_bounds(c) && c.y + 2 >= device.spec_fuse_array_dims().1 implies (
    #[trigger] crate::bitstream::spec_blank_cleared(device, c) <==> c == device.spec_done1()) by {
        if crate::bitstream::spec_blank_cleared(device, c) && c != device.spec_done1() {
            if exists|fb: u8, mc: u8, k: int|
                fb < device.spec_num_fbs() && mc < MCS_PER_FB && 0 <= k < 29
                    && crate::bitstream::spec_blank_cleared_k(device, fb, mc, k) && c
                    == spec_mc_prop_coord(device, fb, mc, k) {
                let (fb, mc, k) = choose|fb: u8, mc: u8, k: int|
                    fb < device.spec_num_fbs() && mc < MCS_PER_FB && 0 <= k < 29
                        && crate::bitstream::spec_blank_cleared_k(device, fb, mc, k) && c
                        == spec_mc_prop_coord(device, fb, mc, k);
                assert(spec_mc_prop_coord(device, fb, mc, k).y + 2 < device.spec_fuse_array_dims(
                ).1);
            }
        }
    }
    assert forall|i: int|
        0 <= i < 4 implies !crate::bitstream::spec_blank_cleared(
        device,
        #[trigger] device.spec_gts_enable(i),
    ) && !crate::bitstream::spec_blank_cleared(device, device.spec_gts_invert(i)) by {
        lemma_gts_not_blank_cleared(device, i);
    }
}

} // verus!
