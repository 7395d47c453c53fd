//! The bit grid of one device and the operations on it.

use vstd::prelude::*;

use crate::coordinate::Coordinate;
use crate::fb::FunctionBlock;
use crate::global_bits_code::{
    ClockDivider, DataGate, DeviceSecurity, GCKEn, GSREn, GSRInv, GTSEn, GTSInv,
    GlobalTermAccessor, IVoltage, LegacyIVoltage, LegacyOVoltage, OVoltage, UseVref, UserCode,
};
use crate::io::ExtraDedicatedInput;
use crate::mc::spec_mc_prop_coord;
use crate::partdb::{XC2Device, XC2Part};
use crate::props::PropertyAccessor;
use crate::{MCS_PER_FB, NUM_BUFG_CLK};

verus! {

/// The value of one cell of a grid, addressed by coordinate.
pub open spec fn grid_get(g: Seq<bool>, device: XC2Device, c: Coordinate) -> bool {
    g[c.y * device.spec_fuse_array_dims().0 + c.x]
}

/// Two distinct in-bounds coordinates have distinct linear indices.
pub proof fn lemma_linear_index_injective(device: XC2Device, c1: Coordinate, c2: Coordinate)
    requires
        device.spec_in_bounds(c1),
        device.spec_in_bounds(c2),
        c1 != c2,
    ensures
        c1.y * device.spec_fuse_array_dims().0 + c1.x != c2.y * device.spec_fuse_array_dims().0
            + c2.x,
{
    let w = device.spec_fuse_array_dims().0 as int;
    assert(c1.y * w + c1.x != c2.y * w + c2.x) by (nonlinear_arith)
        requires
            c1.x < w,
            c2.x < w,
            c1.x != c2.x || c1.y != c2.y,
            0 <= c1.x && 0 <= c2.x && 0 <= c1.y && 0 <= c2.y,
    {
    }
}

/// An in-bounds coordinate's linear index is inside the grid.
pub proof fn lemma_linear_index_in_range(device: XC2Device, c: Coordinate)
    requires
        device.spec_in_bounds(c),
    ensures
        c.y * device.spec_fuse_array_dims().0 + c.x < device.spec_fuse_array_dims().0
            * device.spec_fuse_array_dims().1,
{
    let w = device.spec_fuse_array_dims().0 as int;
    let h = device.spec_fuse_array_dims().1 as int;
    assert(c.y * w + c.x < w * h) by (nonlinear_arith)
        requires
            c.x < w,
            c.y < h,
            0 <= c.x && 0 <= c.y,
    {
    }
}

/// A full device model: the part and its fuse grid.  This is the only
/// mutable state in the crate; every cell is a boolean.
pub struct Coolrunner2 {
    pub part: XC2Part,
    pub bits: Vec<bool>,
}

impl Coolrunner2 {
    /// The grid contents, row-major.
    pub open spec fn grid(&self) -> Seq<bool> {
        self.bits@
    }

    /// The grid has exactly width * height cells.
    pub open spec fn wf(&self) -> bool {
        self.grid().len() == self.part.device.spec_fuse_array_dims().0
            * self.part.device.spec_fuse_array_dims().1
    }

    /// The value of one cell.
    pub open spec fn spec_get(&self, c: Coordinate) -> bool {
        grid_get(self.grid(), self.part.device, c)
    }

    /// The logical value a property bit at `pos` decodes to: the stored
    /// bit, flipped when the storage sense is inverted.
    pub open spec fn spec_read_bit(&self, pos: (Coordinate, bool)) -> bool {
        self.spec_get(pos.0) != pos.1
    }

    /// Total number of cells.
    pub fn bit_count(&self) -> (r: usize)
        ensures
            r == self.grid().len(),
    {
        self.bits.len()
    }

    /// Read one cell by its linear (row-major) index.
    pub fn linear_bit(&self, idx: usize) -> (r: bool)
        requires
            idx < self.grid().len(),
        ensures
            r == self.grid()[idx as int],
    {
        self.bits[idx]
    }

    /// Read one cell.
    pub fn get(&self, c: Coordinate) -> (r: bool)
        requires
            self.wf(),
            self.part.device.spec_in_bounds(c),
        ensures
            r == self.spec_get(c),
    {
        proof {
            lemma_linear_index_in_range(self.part.device, c);
        }
        let (w, _h) = self.part.device.fuse_array_dims();
        self.bits[c.y * w + c.x]
    }

    /// Write one cell.
    pub fn set(&mut self, c: Coordinate, val: bool)
        requires
            old(self).wf(),
            old(self).part.device.spec_in_bounds(c),
        ensures
            final(self).wf(),
            final(self).part == old(self).part,
            final(self).spec_get(c) == val,
            forall|c2: Coordinate|
                old(self).part.device.spec_in_bounds(c2) && c2 != c ==> final(self).spec_get(c2)
                    == old(self).spec_get(c2),
            final(self).grid() == old(self).grid().update(
                c.y * old(self).part.device.spec_fuse_array_dims().0 + c.x,
                val,
            ),
    {
        proof {
            lemma_linear_index_in_range(self.part.device, c);
        }
        let (w, _h) = self.part.device.fuse_array_dims();
        self.bits[c.y * w + c.x] = val;
        proof {
            assert forall|c2: Coordinate|
                old(self).part.device.spec_in_bounds(c2) && c2 != c implies self.spec_get(c2)
                == old(self).spec_get(c2) by {
                lemma_linear_index_injective(self.part.device, c, c2);
                lemma_linear_index_in_range(self.part.device, c2);
            }
        }
    }

    /// Read one bit of a property, decoding the storage sense.
    pub fn get_prop_bit<A: PropertyAccessor>(&self, accessor: &A, biti: usize) -> (r: bool)
        requires
            self.wf(),
            accessor.prop_wf(),
            accessor.prop_device() == self.part.device,
            biti < accessor.prop_width(),
        ensures
            r == self.spec_read_bit(accessor.prop_bit_pos(biti as int)),
    {
        let (c, invert) = accessor.bit_pos(biti);
        let stored = self.get(c);
        stored != invert
    }

    /// Write one bit of a property, encoding the storage sense.
    pub fn set_prop_bit<A: PropertyAccessor>(&mut self, accessor: &A, biti: usize, val: bool)
        requires
            old(self).wf(),
            accessor.prop_wf(),
            accessor.prop_device() == old(self).part.device,
            biti < accessor.prop_width(),
        ensures
            final(self).wf(),
            final(self).part == old(self).part,
            final(self).spec_read_bit(accessor.prop_bit_pos(biti as int)) == val,
            forall|c2: Coordinate|
                old(self).part.device.spec_in_bounds(c2) && c2 != accessor.prop_bit_pos(
                    biti as int,
                ).0 ==> final(self).spec_get(c2) == old(self).spec_get(c2),
    {
        let (c, invert) = accessor.bit_pos(biti);
        self.set(c, val != invert);
    }

    /// Read a whole property as its decoded bits, lowest bit first.
    pub fn get_prop<A: PropertyAccessor>(&self, accessor: &A) -> (r: Vec<bool>)
        requires
            self.wf(),
            accessor.prop_wf(),
            accessor.prop_device() == self.part.device,
        ensures
            r@.len() == accessor.prop_width(),
            forall|i: int|
                0 <= i < accessor.prop_width() ==> r@[i] == self.spec_read_bit(
                    accessor.prop_bit_pos(i),
                ),
    {
        let w = accessor.width();
        let mut r: Vec<bool> = Vec::new();
        let mut i: usize = 0;
        while i < w
            invariant
                self.wf(),
                accessor.prop_wf(),
                accessor.prop_device() == self.part.device,
                w == accessor.prop_width(),
                i <= w,
                r@.len() == i,
                forall|j: int|
                    0 <= j < i ==> r@[j] == self.spec_read_bit(accessor.prop_bit_pos(j)),
            decreases w - i,
        {
            let b = self.get_prop_bit(accessor, i);
            r.push(b);
            i += 1;
        }
        r
    }

    /// Write a whole property from its decoded bits, lowest bit first.
    /// When the property's bits live at pairwise distinct cells (as all
    /// the accessors in this crate do), the property afterwards reads
    /// back as `vals`.
    pub fn set_prop<A: PropertyAccessor>(&mut self, accessor: &A, vals: &Vec<bool>)
        requires
            old(self).wf(),
            accessor.prop_wf(),
            accessor.prop_device() == old(self).part.device,
            vals@.len() == accessor.prop_width(),
        ensures
            final(self).wf(),
            final(self).part == old(self).part,
            forall|c2: Coordinate|
                old(self).part.device.spec_in_bounds(c2) && (forall|i: int|
                    0 <= i < accessor.prop_width() ==> c2 != accessor.prop_bit_pos(i).0)
                    ==> final(self).spec_get(c2) == old(self).spec_get(c2),
            (forall|i: int, j: int|
                0 <= i < j < accessor.prop_width() ==> accessor.prop_bit_pos(i).0
                    != accessor.prop_bit_pos(j).0) ==> forall|i: int|
                0 <= i < accessor.prop_width() ==> final(self).spec_read_bit(
                    accessor.prop_bit_pos(i),
                ) == vals@[i],
    {
        let w = accessor.width();
        let mut i: usize = 0;
        while i < w
            invariant
                self.wf(),
                accessor.prop_wf(),
                accessor.prop_device() == self.part.device,
                self.part == old(self).part,
                w == accessor.prop_width(),
                vals@.len() == accessor.prop_width(),
                i <= w,
                forall|c2: Coordinate|
                    old(self).part.device.spec_in_bounds(c2) && (forall|j: int|
                        0 <= j < i ==> c2 != accessor.prop_bit_pos(j).0) ==> self.spec_get(c2)
                        == old(self).spec_get(c2),
                (forall|i2: int, j: int|
                    0 <= i2 < j < accessor.prop_width() ==> accessor.prop_bit_pos(i2).0
                        != accessor.prop_bit_pos(j).0) ==> forall|j: int|
                    0 <= j < i ==> self.spec_read_bit(accessor.prop_bit_pos(j)) == vals@[j],
            decreases w - i,
        {
            self.set_prop_bit(accessor, i, vals[i]);
            proof {
                if forall|i2: int, j: int|
                    0 <= i2 < j < accessor.prop_width() ==> accessor.prop_bit_pos(i2).0
                        != accessor.prop_bit_pos(j).0 {
                    assert forall|j: int|
                        0 <= j < i + 1 implies self.spec_read_bit(accessor.prop_bit_pos(j))
                        == vals@[j] by {
                        accessor.lemma_bit_pos_in_bounds(j);
                        if j < i {
                            assert(accessor.prop_bit_pos(j).0 != accessor.prop_bit_pos(i as int).0);
                        }
                    }
                }
            }
            i += 1;
        }
    }
}

/// The columns a programmer uses to shift data in, cleared on a blank
/// device (all rows but the two `done`/security rows).
pub open spec fn spec_transfer_col(device: XC2Device, x: int) -> bool {
    match device {
        XC2Device::XC2C32 | XC2Device::XC2C32A => x == 0 || x == 259,
        XC2Device::XC2C64 | XC2Device::XC2C64A => false,
        XC2Device::XC2C128 => x == 0 || x == 375 || x == 376 || x == 751,
        XC2Device::XC2C256 => x == 0 || x == 681 || x == 682 || x == 1363,
        XC2Device::XC2C384 => x == 0 || x == 933 || x == 934 || x == 1867,
        XC2Device::XC2C512 => x == 0 || x == 989 || x == 990 || x == 1979,
    }
}

/// Which macrocell property bits a blank device has cleared: the clock
/// configuration, flip-flop mode, power-up state and XOR mode of every
/// macrocell, and the output driver configuration of the macrocells that
/// own a pad.
pub open spec fn spec_blank_cleared_k(device: XC2Device, fb: u8, mc: u8, k: int) -> bool {
    if device.spec_has_large_macrocells() {
        k == 0 || k == 1 || k == 2 || k == 3 || k == 4 || k == 19 || k == 21 || k == 22 || k == 27
            || k == 28 || (device.spec_has_io_at(fb, mc) && (k == 13 || k == 14 || k == 15 || k
            == 16 || k == 25 || k == 26 || k == 5))
    } else {
        k == 0 || k == 1 || k == 2 || k == 3 || k == 4 || k == 26 || k == 9 || k == 10 || k == 17
            || k == 18 || (device.spec_has_io_at(fb, mc) && (k == 20 || k == 21 || k == 22 || k
            == 23 || k == 24 || k == 25))
    }
}

/// The global control bits a blank device has cleared.
pub open spec fn spec_blank_cleared_global(device: XC2Device, c: Coordinate) -> bool {
    c == device.spec_done1() || (exists|i: int| 0 <= i < 3 && c == device.spec_gck(i)) || c
        == device.spec_gsr_enable() || c == device.spec_gsr_invert() || c
        == device.spec_global_term() || ((device == XC2Device::XC2C32 || device
        == XC2Device::XC2C32A) && (c == crate::global_fuses::spec_xc2c32_extra_ibuf_schmitt_trigger()
        || c == crate::global_fuses::spec_xc2c32_extra_ibuf_termination())) || (device
        == XC2Device::XC2C512 && (exists|b: int|
        0 <= b < 4 && (c == device.spec_io_input_voltage(b) || c == device.spec_io_output_voltage(
            b,
        ))))
}

/// Every cell a blank device holds as `0`; all other cells are `1`.
pub open spec fn spec_blank_cleared(device: XC2Device, c: Coordinate) -> bool {
    (spec_transfer_col(device, c.x as int) && c.y + 2 < device.spec_fuse_array_dims().1)
        || spec_blank_cleared_global(device, c) || (exists|fb: u8, mc: u8, k: int|
        fb < device.spec_num_fbs() && mc < MCS_PER_FB && 0 <= k < 29 && spec_blank_cleared_k(
            device,
            fb,
            mc,
            k,
        ) && c == spec_mc_prop_coord(device, fb, mc, k))
}

impl Coolrunner2 {
    /// Clear the blank-state property bits of one macrocell.
    #[verifier::rlimit(100)]
    fn clear_mc_defaults(&mut self, fb: u8, mc: u8)
        requires
            old(self).wf(),
            fb < old(self).part.device.spec_num_fbs(),
            mc < MCS_PER_FB,
        ensures
            final(self).wf(),
            final(self).part == old(self).part,
            forall|c: Coordinate|
                old(self).part.device.spec_in_bounds(c) ==> final(self).spec_get(c) == (
                if exists|k: int|
                    0 <= k < 29 && spec_blank_cleared_k(old(self).part.device, fb, mc, k) && c
                        == spec_mc_prop_coord(old(self).part.device, fb, mc, k) {
                    false
                } else {
                    old(self).spec_get(c)
                }),
    {
        let device = self.part.device;
        let large = device.has_large_macrocells();
        let ks_always: [usize; 10] = if large {
            [0, 1, 2, 3, 4, 19, 21, 22, 27, 28]
        } else {
            [0, 1, 2, 3, 4, 26, 9, 10, 17, 18]
        };
        let mut i: usize = 0;
        while i < 10
            invariant
                self.wf(),
                self.part == old(self).part,
                device == self.part.device,
                large == device.spec_has_large_macrocells(),
                fb < device.spec_num_fbs(),
                mc < MCS_PER_FB,
                i <= 10,
                large ==> ks_always@ =~= seq![0usize, 1, 2, 3, 4, 19, 21, 22, 27, 28],
                !large ==> ks_always@ =~= seq![0usize, 1, 2, 3, 4, 26, 9, 10, 17, 18],
                forall|c: Coordinate|
                    device.spec_in_bounds(c) ==> self.spec_get(c) == (
                    if exists|j: int|
                        0 <= j < i && c == spec_mc_prop_coord(device, fb, mc, ks_always@[j] as int) {
                        false
                    } else {
                        old(self).spec_get(c)
                    }),
            decreases 10 - i,
        {
            let k = ks_always[i];
            let c = crate::mc::mc_prop_coord(device, fb, mc, k);
            self.set(c, false);
            i += 1;
        }
        if device.has_io_at(fb, mc) {
            let ks_io: [usize; 7] = if large {
                [13, 14, 15, 16, 25, 26, 5]
            } else {
                [20, 21, 22, 23, 24, 25, 25]
            };
            let n_io: usize = if large { 7 } else { 6 };
            let mut j: usize = 0;
            while j < n_io
                invariant
                    self.wf(),
                    self.part == old(self).part,
                    device == self.part.device,
                    large == device.spec_has_large_macrocells(),
                    device.spec_has_io_at(fb, mc),
                    fb < device.spec_num_fbs(),
                    mc < MCS_PER_FB,
                    j <= n_io,
                    large ==> ks_io@ =~= seq![13usize, 14, 15, 16, 25, 26, 5] && n_io == 7,
                    !large ==> ks_io@ =~= seq![20usize, 21, 22, 23, 24, 25, 25] && n_io == 6,
                    forall|c: Coordinate|
                        device.spec_in_bounds(c) ==> self.spec_get(c) == (
                        if (exists|j2: int|
                            0 <= j2 < 10 && c == spec_mc_prop_coord(
                                device,
                                fb,
                                mc,
                                ks_always@[j2] as int,
                            )) || (exists|j2: int|
                            0 <= j2 < j && c == spec_mc_prop_coord(
                                device,
                                fb,
                                mc,
                                ks_io@[j2] as int,
                            )) {
                            false
                        } else {
                            old(self).spec_get(c)
                        }),
                decreases n_io - j,
            {
                let k = ks_io[j];
                let c = crate::mc::mc_prop_coord(device, fb, mc, k);
                self.set(c, false);
                j += 1;
            }
        }
        proof {
            assert forall|c: Coordinate| self.part.device.spec_in_bounds(c) implies self.spec_get(
                c,
            ) == (if exists|k: int|
                0 <= k < 29 && spec_blank_cleared_k(self.part.device, fb, mc, k) && c
                    == spec_mc_prop_coord(self.part.device, fb, mc, k) {
                false
            } else {
                old(self).spec_get(c)
            }) by {
                if exists|k: int|
                    0 <= k < 29 && spec_blank_cleared_k(self.part.device, fb, mc, k) && c
                        == spec_mc_prop_coord(self.part.device, fb, mc, k) {
                    let k = choose|k: int|
                        0 <= k < 29 && spec_blank_cleared_k(self.part.device, fb, mc, k) && c
                            == spec_mc_prop_coord(self.part.device, fb, mc, k);
                    assert(self.spec_get(c) == false);
                }
            }
        }
    }
}

/// Cells in blank state that were cleared before macrocell defaults:
/// transfer columns and global control bits.
pub open spec fn spec_blank_pre_cleared(device: XC2Device, c: Coordinate) -> bool {
    (spec_transfer_col(device, c.x as int) && c.y + 2 < device.spec_fuse_array_dims().1)
        || spec_blank_cleared_global(device, c)
}

/// The macrocell default cells of the first `n` (function block,
/// macrocell) pairs in row-major order.
pub open spec fn spec_mc_cleared_upto(device: XC2Device, n: int, c: Coordinate) -> bool {
    exists|fb: u8, mc: u8, k: int|
        fb < device.spec_num_fbs() && mc < MCS_PER_FB && 16 * fb + mc < n && 0 <= k < 29
            && spec_blank_cleared_k(device, fb, mc, k) && c == spec_mc_prop_coord(
            device,
            fb,
            mc,
            k,
        )
}

impl Coolrunner2 {
    /// Set every cell of the grid to 1.
    fn wipe(&mut self)
        requires
            old(self).wf(),
        ensures
            final(self).wf(),
            final(self).part == old(self).part,
            forall|i: int| 0 <= i < final(self).grid().len() ==> final(self).grid()[i] == true,
    {
        let n = self.bits.len();
        let mut i: usize = 0;
        while i < n
            invariant
                self.wf(),
                self.part == old(self).part,
                self.grid().len() == n,
                i <= n,
                forall|j: int| 0 <= j < i ==> self.grid()[j] == true,
            decreases n - i,
        {
            self.bits[i] = true;
            i += 1;
        }
    }

    /// Clear the transfer columns in all but the two `done`/security rows.
    fn clear_transfer_bits(&mut self)
        requires
            old(self).wf(),
        ensures
            final(self).wf(),
            final(self).part == old(self).part,
            forall|c: Coordinate|
                old(self).part.device.spec_in_bounds(c) ==> final(self).spec_get(c) == (
                if spec_transfer_col(old(self).part.device, c.x as int) && c.y + 2 < old(
                    self,
                ).part.device.spec_fuse_array_dims().1 {
                    false
                } else {
                    old(self).spec_get(c)
                }),
    {
        let device = self.part.device;
        let (_w, h) = device.fuse_array_dims();
        let mut y: usize = 0;
        while y < h - 2
            invariant
                self.wf(),
                self.part == old(self).part,
                device == self.part.device,
                h == device.spec_fuse_array_dims().1,
                h >= 2,
                y <= h - 2,
                forall|c: Coordinate|
                    device.spec_in_bounds(c) ==> self.spec_get(c) == (
                    if spec_transfer_col(device, c.x as int) && c.y < y {
                        false
                    } else {
                        old(self).spec_get(c)
                    }),
            decreases h - 2 - y,
        {
            match device {
                XC2Device::XC2C32 | XC2Device::XC2C32A => {
                    self.set(Coordinate::new(0, y), false);
                    self.set(Coordinate::new(259, y), false);
                },
                XC2Device::XC2C64 | XC2Device::XC2C64A => {},
                XC2Device::XC2C128 => {
                    self.set(Coordinate::new(0, y), false);
                    self.set(Coordinate::new(375, y), false);
                    self.set(Coordinate::new(376, y), false);
                    self.set(Coordinate::new(751, y), false);
                },
                XC2Device::XC2C256 => {
                    self.set(Coordinate::new(0, y), false);
                    self.set(Coordinate::new(681, y), false);
                    self.set(Coordinate::new(682, y), false);
                    self.set(Coordinate::new(1363, y), false);
                },
                XC2Device::XC2C384 => {
                    self.set(Coordinate::new(0, y), false);
                    self.set(Coordinate::new(933, y), false);
                    self.set(Coordinate::new(934, y), false);
                    self.set(Coordinate::new(1867, y), false);
                },
                XC2Device::XC2C512 => {
                    self.set(Coordinate::new(0, y), false);
                    self.set(Coordinate::new(989, y), false);
                    self.set(Coordinate::new(990, y), false);
                    self.set(Coordinate::new(1979, y), false);
                },
            }
            y += 1;
        }
    }

    /// Clear the global control bits that a blank device holds as 0.
    #[verifier::rlimit(100)]
    fn clear_global_defaults(&mut self)
        requires
            old(self).wf(),
        ensures
            final(self).wf(),
            final(self).part == old(self).part,
            forall|c: Coordinate|
                old(self).part.device.spec_in_bounds(c) ==> final(self).spec_get(c) == (
                if spec_blank_cleared_global(old(self).part.device, c) {
                    false
                } else {
                    old(self).spec_get(c)
                }),
    {
        let device = self.part.device;
        self.set(device.done1(), false);
        self.set(device.gck(0), false);
        self.set(device.gck(1), false);
        self.set(device.gck(2), false);
        self.set(device.gsr_enable(), false);
        self.set(device.gsr_invert(), false);
        self.set(device.global_term(), false);
        if device == XC2Device::XC2C32 || device == XC2Device::XC2C32A {
            self.set(crate::global_fuses::xc2c32_extra_ibuf_schmitt_trigger(), false);
            self.set(crate::global_fuses::xc2c32_extra_ibuf_termination(), false);
        }
        if device == XC2Device::XC2C512 {
            let mut bank: usize = 0;
            while bank < 4
                invariant
                    self.wf(),
                    self.part == old(self).part,
                    device == self.part.device,
                    device == XC2Device::XC2C512,
                    bank <= 4,
                    forall|c: Coordinate|
                        device.spec_in_bounds(c) ==> self.spec_get(c) == (
                        if c == device.spec_done1() || (exists|i: int|
                            0 <= i < 3 && c == device.spec_gck(i)) || c
                            == device.spec_gsr_enable() || c == device.spec_gsr_invert() || c
                            == device.spec_global_term() || (exists|b: int|
                            0 <= b < bank && (c == device.spec_io_input_voltage(b) || c
                                == device.spec_io_output_voltage(b))) {
                            false
                        } else {
                            old(self).spec_get(c)
                        }),
                decreases 4 - bank,
            {
                self.set(device.io_input_voltage(bank), false);
                self.set(device.io_output_voltage(bank), false);
                bank += 1;
            }
        }
    }

    /// Reset the grid to the blank-device state: on a full wipe every
    /// other cell becomes 1; otherwise the other cells keep their values.
    pub fn make_blank(&mut self, full_wipe: bool)
        requires
            old(self).wf(),
        ensures
            final(self).wf(),
            final(self).part == old(self).part,
            forall|c: Coordinate|
                old(self).part.device.spec_in_bounds(c) ==> final(self).spec_get(c) == (
                if spec_blank_cleared(old(self).part.device, c) {
                    false
                } else if full_wipe {
                    true
                } else {
                    old(self).spec_get(c)
                }),
    {
        let device = self.part.device;
        if full_wipe {
            self.wipe();
            proof {
                assert forall|c: Coordinate| device.spec_in_bounds(c) implies self.spec_get(c)
                    == true by {
                    lemma_linear_index_in_range(device, c);
                }
            }
        }
        let ghost wiped = *self;
        self.clear_transfer_bits();
        self.clear_global_defaults();
        let ghost mid = *self;
        let nfb = device.num_fbs();
        let mut fb: usize = 0;
        while fb < nfb
            invariant
                self.wf(),
                self.part == old(self).part,
                device == self.part.device,
                nfb == device.spec_num_fbs(),
                fb <= nfb,
                forall|c: Coordinate|
                    device.spec_in_bounds(c) ==> self.spec_get(c) == (
                    if spec_mc_cleared_upto(device, 16 * fb, c) {
                        false
                    } else {
                        mid.spec_get(c)
                    }),
                forall|c: Coordinate|
                    device.spec_in_bounds(c) ==> mid.spec_get(c) == (
                    if spec_blank_pre_cleared(device, c) {
                        false
                    } else {
                        wiped.spec_get(c)
                    }),
                forall|c: Coordinate|
                    device.spec_in_bounds(c) ==> wiped.spec_get(c) == (
                    if full_wipe {
                        true
                    } else {
                        old(self).spec_get(c)
                    }),
            decreases nfb - fb,
        {
            let mut mc: usize = 0;
            while mc < MCS_PER_FB
                invariant
                    self.wf(),
                    self.part == old(self).part,
                    device == self.part.device,
                    nfb == device.spec_num_fbs(),
                    fb < nfb,
                    mc <= MCS_PER_FB,
                    forall|c: Coordinate|
                        device.spec_in_bounds(c) ==> self.spec_get(c) == (
                        if spec_mc_cleared_upto(device, 16 * fb + mc, c) {
                            false
                        } else {
                            mid.spec_get(c)
                        }),
                decreases MCS_PER_FB - mc,
            {
                self.clear_mc_defaults(fb as u8, mc as u8);
                proof {
                    assert forall|c: Coordinate|
                        device.spec_in_bounds(c) implies self.spec_get(c) == (
                        if spec_mc_cleared_upto(device, 16 * fb + mc + 1, c) {
                            false
                        } else {
                            mid.spec_get(c)
                        }) by {
                        if spec_mc_cleared_upto(device, 16 * fb + mc + 1, c) {
                            let (fb2, mc2, k2) = choose|fb2: u8, mc2: u8, k2: int|
                                fb2 < device.spec_num_fbs() && mc2 < MCS_PER_FB && 16 * fb2 + mc2
                                    < 16 * fb + mc + 1 && 0 <= k2 < 29 && spec_blank_cleared_k(
                                    device,
                                    fb2,
                                    mc2,
                                    k2,
                                ) && c == spec_mc_prop_coord(device, fb2, mc2, k2);
                            if 16 * fb2 + mc2 < 16 * fb + mc {
                                assert(spec_mc_cleared_upto(device, 16 * fb + mc, c));
                            } else {
                                assert(fb2 == fb && mc2 == mc);
                            }
                            assert(self.spec_get(c) == false);
                        }
                    }
                }
                mc += 1;
            }
            fb += 1;
        }
        proof {
            assert forall|c: Coordinate| device.spec_in_bounds(c) implies self.spec_get(c) == (
            if spec_blank_cleared(device, c) {
                false
            } else if full_wipe {
                true
            } else {
                old(self).spec_get(c)
            }) by {
                if spec_blank_cleared(device, c) {
                    if !spec_blank_pre_cleared(device, c) {
                        let (fb2, mc2, k2) = choose|fb2: u8, mc2: u8, k2: int|
                            fb2 < device.spec_num_fbs() && mc2 < MCS_PER_FB && 0 <= k2 < 29
                                && spec_blank_cleared_k(device, fb2, mc2, k2) && c
                                == spec_mc_prop_coord(device, fb2, mc2, k2);
                        assert(16 * fb2 + mc2 < 16 * nfb);
                        assert(spec_mc_cleared_upto(device, 16 * nfb, c));
                    }
                } else {
                    assert(!spec_mc_cleared_upto(device, 16 * nfb, c));
                }
            }
        }
    }

    /// Construct a blank device model for the given part.
    pub fn new(part: XC2Part) -> (r: Self)
        ensures
            r.wf(),
            r.part == part,
            forall|c: Coordinate|
                part.device.spec_in_bounds(c) ==> r.spec_get(c) == !spec_blank_cleared(
                    part.device,
                    c,
                ),
    {
        let (w, h) = part.device.fuse_array_dims();
        let n = w * h;
        let mut bits: Vec<bool> = Vec::new();
        while bits.len() < n
            invariant
                bits@.len() <= n,
                forall|j: int| 0 <= j < bits@.len() ==> bits@[j] == true,
            decreases n - bits@.len(),
        {
            bits.push(true);
        }
        let mut r = Coolrunner2 { part, bits };
        proof {
            assert forall|c: Coordinate| part.device.spec_in_bounds(c) implies r.spec_get(c)
                == true by {
                lemma_linear_index_in_range(part.device, c);
            }
        }
        r.make_blank(false);
        r
    }
}

impl Coolrunner2 {
    /// Descriptor of one function block of this device.
    pub fn fb(&self, fb: u8) -> (r: FunctionBlock)
        requires
            fb < self.part.device.spec_num_fbs(),
        ensures
            r == (FunctionBlock { device: self.part.device, fb }),
            r.wf(),
    {
        FunctionBlock { device: self.part.device, fb }
    }

    pub fn gck_enabled(&self, gck_idx: u8) -> (r: GCKEn)
        requires
            gck_idx < NUM_BUFG_CLK,
        ensures
            r == (GCKEn { device: self.part.device, gck_idx }),
    {
        GCKEn { device: self.part.device, gck_idx }
    }

    pub fn gsr_enabled(&self) -> (r: GSREn)
        ensures
            r == (GSREn { device: self.part.device }),
    {
        GSREn { device: self.part.device }
    }

    pub fn gsr_invert(&self) -> (r: GSRInv)
        ensures
            r == (GSRInv { device: self.part.device }),
    {
        GSRInv { device: self.part.device }
    }

    pub fn gts_enabled(&self, gts_idx: u8) -> (r: GTSEn)
        requires
            gts_idx < 4,
        ensures
            r == (GTSEn { device: self.part.device, gts_idx }),
    {
        GTSEn { device: self.part.device, gts_idx }
    }

    pub fn gts_invert(&self, gts_idx: u8) -> (r: GTSInv)
        requires
            gts_idx < 4,
        ensures
            r == (GTSInv { device: self.part.device, gts_idx }),
    {
        GTSInv { device: self.part.device, gts_idx }
    }

    pub fn global_termination(&self) -> (r: GlobalTermAccessor)
        ensures
            r == (GlobalTermAccessor { device: self.part.device }),
    {
        GlobalTermAccessor { device: self.part.device }
    }

    pub fn extra_dedicated_input(&self) -> (r: ExtraDedicatedInput)
        ensures
            r == (ExtraDedicatedInput {  }),
    {
        ExtraDedicatedInput {  }
    }

    pub fn clock_divider(&self) -> (r: ClockDivider)
        ensures
            r == (ClockDivider { device: self.part.device }),
    {
        ClockDivider { device: self.part.device }
    }

    pub fn data_gate_enabled(&self) -> (r: DataGate)
        ensures
            r == (DataGate { device: self.part.device }),
    {
        DataGate { device: self.part.device }
    }

    pub fn use_vref(&self) -> (r: UseVref)
        ensures
            r == (UseVref { device: self.part.device }),
    {
        UseVref { device: self.part.device }
    }

    pub fn legacy_ivoltage(&self) -> (r: LegacyIVoltage)
        ensures
            r == (LegacyIVoltage { device: self.part.device }),
    {
        LegacyIVoltage { device: self.part.device }
    }

    pub fn legacy_ovoltage(&self) -> (r: LegacyOVoltage)
        ensures
            r == (LegacyOVoltage { device: self.part.device }),
    {
        LegacyOVoltage { device: self.part.device }
    }

    pub fn input_voltage(&self, io_bank: u8) -> (r: IVoltage)
        requires
            io_bank < self.part.device.spec_num_io_banks(),
        ensures
            r == (IVoltage { device: self.part.device, io_bank }),
    {
        IVoltage { device: self.part.device, io_bank }
    }

    pub fn output_voltage(&self, io_bank: u8) -> (r: OVoltage)
        requires
            io_bank < self.part.device.spec_num_io_banks(),
        ensures
            r == (OVoltage { device: self.part.device, io_bank }),
    {
        OVoltage { device: self.part.device, io_bank }
    }

    pub fn usercode(&self) -> (r: UserCode)
        ensures
            r == (UserCode { device: self.part.device }),
    {
        UserCode { device: self.part.device }
    }

    pub fn security(&self) -> (r: DeviceSecurity)
        ensures
            r == (DeviceSecurity { device: self.part.device }),
    {
        DeviceSecurity { device: self.part.device }
    }
}

impl GTSInv {
    /// A blank device keeps this bit at its default: invert on.
    pub fn is_at_default(&self, bs: &Coolrunner2) -> (r: bool)
        requires
            bs.wf(),
            self.gts_idx < 4,
            self.device == bs.part.device,
        ensures
            r == (bs.spec_read_bit(self.spec_bit_pos(0)) == true),
    {
        bs.get_prop_bit(self, 0)
    }
}

impl crate::mc::InitStateAccessor {
    /// The power-up state defaults to 1.
    pub fn is_at_default(&self, bs: &Coolrunner2) -> (r: bool)
        requires
            bs.wf(),
            self.x.wf(),
            self.x.x.device == bs.part.device,
        ensures
            r == (bs.spec_read_bit(self.spec_bit_pos(0)) == true),
    {
        bs.get_prop_bit(self, 0)
    }
}

impl crate::mc::UseIOAccessor {
    /// Macrocells with a pad default to not driving it; buried
    /// macrocells default to the opposite.
    pub fn is_at_default(&self, bs: &Coolrunner2) -> (r: bool)
        requires
            bs.wf(),
            self.x.wf(),
            self.x.x.device == bs.part.device,
        ensures
            r == (bs.spec_read_bit(self.spec_bit_pos(0)) == (
            if bs.part.device.spec_has_io_at(self.x.x.fb, self.x.mc) {
                false
            } else {
                true
            })),
    {
        let val = bs.get_prop_bit(self, 0);
        if bs.part.device.has_io_at(self.x.x.fb, self.x.mc) {
            !val
        } else {
            val
        }
    }
}

impl UserCode {
    /// The user code word defaults to all ones.
    pub fn is_at_default(&self, bs: &Coolrunner2) -> (r: bool)
        requires
            bs.wf(),
            self.device == bs.part.device,
        ensures
            r == (forall|i: int| 0 <= i < 32 ==> bs.spec_read_bit(self.spec_bit_pos(i)) == true),
    {
        let mut i: usize = 0;
        while i < 32
            invariant
                bs.wf(),
                self.device == bs.part.device,
                i <= 32,
                forall|j: int| 0 <= j < i ==> bs.spec_read_bit(self.spec_bit_pos(j)) == true,
            decreases 32 - i,
        {
            if !bs.get_prop_bit(self, i) {
                return false;
            }
            i += 1;
        }
        true
    }
}

} // verus!
