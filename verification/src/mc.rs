//! Macrocell property bit addressing.
//!
//! Each macrocell owns a small tile of property bits to the side of the
//! PLA.  The per-family tile layouts below assign every property bit a
//! cell of that tile; the engine then applies the per-macrocell row
//! offset and the function-block mirror rule.

use vstd::prelude::*;

use crate::coordinate::Coordinate;
use crate::fb::{spec_mirror_fb, mirror_fb, FunctionBlock};
use crate::partdb::XC2Device;
use crate::MCS_PER_FB;

verus! {

/// Starting row of each macrocell's property tile in the large-macrocell
/// family.  Heights alternate 3, 2, 3, 2, ...; the tile tables only use
/// the first two rows, and the third row of the taller tiles hosts the
/// devices' global control fuses.
pub const BIG_MC_STARTING_ROW: [usize; 16] = [
    0, 3, 5, 8, 10, 13, 15, 18, 20, 23, 25, 28, 30, 33, 35, 38,
];

/// Number of property bits in one macrocell tile column row-pair, i.e.
/// the tile width, per family.
pub open spec fn spec_mc_tile_width(device: XC2Device) -> int {
    if device.spec_has_large_macrocells() {
        15
    } else {
        9
    }
}

/// Tile-relative position of property bit `k` of a macrocell: bits fill
/// the tile row-major.  The small-macrocell devices use a 9-wide, 3-row
/// tile; the 256 a 10-wide, 3-row tile; the remaining large devices a
/// 15-wide tile of which only the first two rows hold property bits.
pub open spec fn spec_mc_bit_offset(device: XC2Device, mc: u8, k: int) -> Coordinate {
    if device == XC2Device::XC2C256 {
        Coordinate { x: (k % 10) as usize, y: (mc * 3 + k / 10) as usize }
    } else if device.spec_has_large_macrocells() {
        Coordinate {
            x: (k % 15) as usize,
            y: (BIG_MC_STARTING_ROW[mc as int] + k / 15) as usize,
        }
    } else {
        Coordinate { x: (k % 9) as usize, y: (mc * 3 + k / 9) as usize }
    }
}

/// Physical location of property bit `k` of a macrocell tile.
pub open spec fn spec_mc_prop_coord(device: XC2Device, fb: u8, mc: u8, k: int) -> Coordinate {
    spec_mirror_fb(device, fb, spec_mc_bit_offset(device, mc, k))
}

pub proof fn lemma_big_mc_starting_row_bounds(mc: int)
    requires
        0 <= mc < 16,
    ensures
        BIG_MC_STARTING_ROW[mc] <= 38,
{
}

/// Physical location of property bit `k` of a macrocell tile.
pub fn mc_prop_coord(device: XC2Device, fb: u8, mc: u8, k: usize) -> (r: Coordinate)
    requires
        fb < device.spec_num_fbs(),
        mc < MCS_PER_FB,
        k < 29,
        !device.spec_has_large_macrocells() ==> k < 27,
    ensures
        r == spec_mc_prop_coord(device, fb, mc, k as int),
        device.spec_in_bounds(r),
{
    let off = if device == XC2Device::XC2C256 {
        Coordinate::new(k % 10, (mc as usize) * 3 + k / 10)
    } else if device.has_large_macrocells() {
        proof {
            lemma_big_mc_starting_row_bounds(mc as int);
        }
        Coordinate::new(k % 15, BIG_MC_STARTING_ROW[mc as usize] + k / 15)
    } else {
        Coordinate::new(k % 9, (mc as usize) * 3 + k / 9)
    };
    mirror_fb(device, fb, off)
}


pub proof fn lemma_mc_prop_coord_in_bounds(device: XC2Device, fb: u8, mc: u8, k: int)
    requires
        fb < device.spec_num_fbs(),
        mc < MCS_PER_FB,
        0 <= k < 29,
        !device.spec_has_large_macrocells() ==> k < 27,
    ensures
        device.spec_in_bounds(spec_mc_prop_coord(device, fb, mc, k)),
{
    lemma_big_mc_starting_row_bounds(mc as int);
    crate::fb::lemma_mirror_fb_in_bounds(device, fb, spec_mc_bit_offset(device, mc, k));
}

/// Descriptor of one macrocell.
#[derive(Clone, Copy, PartialEq, Eq, Structural, Debug, Hash)]
pub struct Macrocell {
    pub x: FunctionBlock,
    pub mc: u8,
}

impl Macrocell {
    pub open spec fn wf(self) -> bool {
        self.x.wf() && self.mc < MCS_PER_FB
    }

    pub fn clk_src(&self) -> (r: ClockSourceAccessor)
        ensures
            r == (ClockSourceAccessor { x: *self }),
    {
        ClockSourceAccessor { x: *self }
    }

    pub fn clk_inv(&self) -> (r: ClockInvertAccessor)
        ensures
            r == (ClockInvertAccessor { x: *self }),
    {
        ClockInvertAccessor { x: *self }
    }

    pub fn is_ddr(&self) -> (r: IsDDRAccessor)
        ensures
            r == (IsDDRAccessor { x: *self }),
    {
        IsDDRAccessor { x: *self }
    }

    pub fn r_src(&self) -> (r: ResetSourceAccessor)
        ensures
            r == (ResetSourceAccessor { x: *self }),
    {
        ResetSourceAccessor { x: *self }
    }

    pub fn s_src(&self) -> (r: SetSourceAccessor)
        ensures
            r == (SetSourceAccessor { x: *self }),
    {
        SetSourceAccessor { x: *self }
    }

    pub fn init_state(&self) -> (r: InitStateAccessor)
        ensures
            r == (InitStateAccessor { x: *self }),
    {
        InitStateAccessor { x: *self }
    }

    pub fn ff_mode(&self) -> (r: FlipFlopModeAccessor)
        ensures
            r == (FlipFlopModeAccessor { x: *self }),
    {
        FlipFlopModeAccessor { x: *self }
    }

    pub fn fb_src(&self) -> (r: MacrocellFeedbackSourceAccessor)
        ensures
            r == (MacrocellFeedbackSourceAccessor { x: *self }),
    {
        MacrocellFeedbackSourceAccessor { x: *self }
    }

    pub fn use_iob(&self) -> (r: UseIOAccessor)
        ensures
            r == (UseIOAccessor { x: *self }),
    {
        UseIOAccessor { x: *self }
    }

    pub fn xor_mode(&self) -> (r: XorModeAccessor)
        ensures
            r == (XorModeAccessor { x: *self }),
    {
        XorModeAccessor { x: *self }
    }
}

/// Register clock source selector (3 bits).
#[derive(Clone, Copy, PartialEq, Eq, Structural, Debug, Hash)]
pub struct ClockSourceAccessor {
    pub x: Macrocell,
}

impl ClockSourceAccessor {
    pub open spec fn spec_k(self, biti: int) -> int {
        if self.x.x.device.spec_has_large_macrocells() {
            biti
        } else {
            if biti == 0 { 0 } else if biti == 1 { 2 } else { 3 }
        }
    }

    pub open spec fn spec_bit_pos(self, biti: int) -> (Coordinate, bool) {
        (spec_mc_prop_coord(self.x.x.device, self.x.x.fb, self.x.mc, self.spec_k(biti)), false)
    }
}
impl crate::props::PropertyAccessor for ClockSourceAccessor {
    proof fn lemma_bit_pos_in_bounds(&self, biti: int) {
        crate::mc::lemma_mc_prop_coord_in_bounds(self.x.x.device, self.x.x.fb, self.x.mc, self.spec_k(biti));
    }

    open spec fn prop_device(&self) -> XC2Device {
        self.x.x.device
    }

    open spec fn prop_wf(&self) -> bool {
        self.x.wf()
    }

    open spec fn prop_width(&self) -> int {
        3
    }

    open spec fn prop_bit_pos(&self, biti: int) -> (Coordinate, bool) {
        self.spec_bit_pos(biti)
    }

    fn width(&self) -> usize {
        3
    }

    fn bit_pos(&self, biti: usize) -> (r: (Coordinate, bool)) {

        let k: usize = if self.x.x.device.has_large_macrocells() {
            biti
        } else {
            if biti == 0 { 0 } else if biti == 1 { 2 } else { 3 }
        };
        (mc_prop_coord(self.x.x.device, self.x.x.fb, self.x.mc, k), false)
    }
}


/// Register clock invert (1 bit).
#[derive(Clone, Copy, PartialEq, Eq, Structural, Debug, Hash)]
pub struct ClockInvertAccessor {
    pub x: Macrocell,
}

impl ClockInvertAccessor {
    pub open spec fn spec_k(self) -> int {
        if self.x.x.device.spec_has_large_macrocells() { 4 } else { 1 }
    }

    pub open spec fn spec_bit_pos(self, biti: int) -> (Coordinate, bool) {
        (spec_mc_prop_coord(self.x.x.device, self.x.x.fb, self.x.mc, self.spec_k()), false)
    }
}
impl crate::props::PropertyAccessor for ClockInvertAccessor {
    proof fn lemma_bit_pos_in_bounds(&self, biti: int) {
        crate::mc::lemma_mc_prop_coord_in_bounds(self.x.x.device, self.x.x.fb, self.x.mc, self.spec_k());
    }

    open spec fn prop_device(&self) -> XC2Device {
        self.x.x.device
    }

    open spec fn prop_wf(&self) -> bool {
        self.x.wf()
    }

    open spec fn prop_width(&self) -> int {
        1
    }

    open spec fn prop_bit_pos(&self, biti: int) -> (Coordinate, bool) {
        self.spec_bit_pos(biti)
    }

    fn width(&self) -> usize {
        1
    }

    fn bit_pos(&self, biti: usize) -> (r: (Coordinate, bool)) {

        let k: usize = if self.x.x.device.has_large_macrocells() { 4 } else { 1 };
        (mc_prop_coord(self.x.x.device, self.x.x.fb, self.x.mc, k), false)
    }
}


/// Double-data-rate mode (1 bit).
#[derive(Clone, Copy, PartialEq, Eq, Structural, Debug, Hash)]
pub struct IsDDRAccessor {
    pub x: Macrocell,
}

impl IsDDRAccessor {
    pub open spec fn spec_k(self) -> int {
        if self.x.x.device.spec_has_large_macrocells() { 3 } else { 4 }
    }

    pub open spec fn spec_bit_pos(self, biti: int) -> (Coordinate, bool) {
        (spec_mc_prop_coord(self.x.x.device, self.x.x.fb, self.x.mc, self.spec_k()), false)
    }
}
impl crate::props::PropertyAccessor for IsDDRAccessor {
    proof fn lemma_bit_pos_in_bounds(&self, biti: int) {
        crate::mc::lemma_mc_prop_coord_in_bounds(self.x.x.device, self.x.x.fb, self.x.mc, self.spec_k());
    }

    open spec fn prop_device(&self) -> XC2Device {
        self.x.x.device
    }

    open spec fn prop_wf(&self) -> bool {
        self.x.wf()
    }

    open spec fn prop_width(&self) -> int {
        1
    }

    open spec fn prop_bit_pos(&self, biti: int) -> (Coordinate, bool) {
        self.spec_bit_pos(biti)
    }

    fn width(&self) -> usize {
        1
    }

    fn bit_pos(&self, biti: usize) -> (r: (Coordinate, bool)) {

        let k: usize = if self.x.x.device.has_large_macrocells() { 3 } else { 4 };
        (mc_prop_coord(self.x.x.device, self.x.x.fb, self.x.mc, k), false)
    }
}


/// Register reset source selector (2 bits).
#[derive(Clone, Copy, PartialEq, Eq, Structural, Debug, Hash)]
pub struct ResetSourceAccessor {
    pub x: Macrocell,
}

impl ResetSourceAccessor {
    pub open spec fn spec_k(self, biti: int) -> int {
        if self.x.x.device.spec_has_large_macrocells() { 23 + biti } else { 5 + biti }
    }

    pub open spec fn spec_bit_pos(self, biti: int) -> (Coordinate, bool) {
        (spec_mc_prop_coord(self.x.x.device, self.x.x.fb, self.x.mc, self.spec_k(biti)), false)
    }
}
impl crate::props::PropertyAccessor for ResetSourceAccessor {
    proof fn lemma_bit_pos_in_bounds(&self, biti: int) {
        crate::mc::lemma_mc_prop_coord_in_bounds(self.x.x.device, self.x.x.fb, self.x.mc, self.spec_k(biti));
    }

    open spec fn prop_device(&self) -> XC2Device {
        self.x.x.device
    }

    open spec fn prop_wf(&self) -> bool {
        self.x.wf()
    }

    open spec fn prop_width(&self) -> int {
        2
    }

    open spec fn prop_bit_pos(&self, biti: int) -> (Coordinate, bool) {
        self.spec_bit_pos(biti)
    }

    fn width(&self) -> usize {
        2
    }

    fn bit_pos(&self, biti: usize) -> (r: (Coordinate, bool)) {

        let k: usize = if self.x.x.device.has_large_macrocells() { 23 + biti } else { 5 + biti };
        (mc_prop_coord(self.x.x.device, self.x.x.fb, self.x.mc, k), false)
    }
}


/// Register set source selector (2 bits).
#[derive(Clone, Copy, PartialEq, Eq, Structural, Debug, Hash)]
pub struct SetSourceAccessor {
    pub x: Macrocell,
}

impl SetSourceAccessor {
    pub open spec fn spec_k(self, biti: int) -> int {
        if self.x.x.device.spec_has_large_macrocells() { 17 + biti } else { 7 + biti }
    }

    pub open spec fn spec_bit_pos(self, biti: int) -> (Coordinate, bool) {
        (spec_mc_prop_coord(self.x.x.device, self.x.x.fb, self.x.mc, self.spec_k(biti)), false)
    }
}
impl crate::props::PropertyAccessor for SetSourceAccessor {
    proof fn lemma_bit_pos_in_bounds(&self, biti: int) {
        crate::mc::lemma_mc_prop_coord_in_bounds(self.x.x.device, self.x.x.fb, self.x.mc, self.spec_k(biti));
    }

    open spec fn prop_device(&self) -> XC2Device {
        self.x.x.device
    }

    open spec fn prop_wf(&self) -> bool {
        self.x.wf()
    }

    open spec fn prop_width(&self) -> int {
        2
    }

    open spec fn prop_bit_pos(&self, biti: int) -> (Coordinate, bool) {
        self.spec_bit_pos(biti)
    }

    fn width(&self) -> usize {
        2
    }

    fn bit_pos(&self, biti: usize) -> (r: (Coordinate, bool)) {

        let k: usize = if self.x.x.device.has_large_macrocells() { 17 + biti } else { 7 + biti };
        (mc_prop_coord(self.x.x.device, self.x.x.fb, self.x.mc, k), false)
    }
}


/// Register power-up state (1 bit, stored inverted).
#[derive(Clone, Copy, PartialEq, Eq, Structural, Debug, Hash)]
pub struct InitStateAccessor {
    pub x: Macrocell,
}

impl InitStateAccessor {
    pub open spec fn spec_k(self) -> int {
        if self.x.x.device.spec_has_large_macrocells() { 19 } else { 26 }
    }

    pub open spec fn spec_bit_pos(self, biti: int) -> (Coordinate, bool) {
        (spec_mc_prop_coord(self.x.x.device, self.x.x.fb, self.x.mc, self.spec_k()), true)
    }
}
impl crate::props::PropertyAccessor for InitStateAccessor {
    proof fn lemma_bit_pos_in_bounds(&self, biti: int) {
        crate::mc::lemma_mc_prop_coord_in_bounds(self.x.x.device, self.x.x.fb, self.x.mc, self.spec_k());
    }

    open spec fn prop_device(&self) -> XC2Device {
        self.x.x.device
    }

    open spec fn prop_wf(&self) -> bool {
        self.x.wf()
    }

    open spec fn prop_width(&self) -> int {
        1
    }

    open spec fn prop_bit_pos(&self, biti: int) -> (Coordinate, bool) {
        self.spec_bit_pos(biti)
    }

    fn width(&self) -> usize {
        1
    }

    fn bit_pos(&self, biti: usize) -> (r: (Coordinate, bool)) {

        let k: usize = if self.x.x.device.has_large_macrocells() { 19 } else { 26 };
        (mc_prop_coord(self.x.x.device, self.x.x.fb, self.x.mc, k), true)
    }
}


/// Flip-flop mode selector (2 bits).
#[derive(Clone, Copy, PartialEq, Eq, Structural, Debug, Hash)]
pub struct FlipFlopModeAccessor {
    pub x: Macrocell,
}

impl FlipFlopModeAccessor {
    pub open spec fn spec_k(self, biti: int) -> int {
        if self.x.x.device.spec_has_large_macrocells() { 21 + biti } else { 9 + biti }
    }

    pub open spec fn spec_bit_pos(self, biti: int) -> (Coordinate, bool) {
        (spec_mc_prop_coord(self.x.x.device, self.x.x.fb, self.x.mc, self.spec_k(biti)), false)
    }
}
impl crate::props::PropertyAccessor for FlipFlopModeAccessor {
    proof fn lemma_bit_pos_in_bounds(&self, biti: int) {
        crate::mc::lemma_mc_prop_coord_in_bounds(self.x.x.device, self.x.x.fb, self.x.mc, self.spec_k(biti));
    }

    open spec fn prop_device(&self) -> XC2Device {
        self.x.x.device
    }

    open spec fn prop_wf(&self) -> bool {
        self.x.wf()
    }

    open spec fn prop_width(&self) -> int {
        2
    }

    open spec fn prop_bit_pos(&self, biti: int) -> (Coordinate, bool) {
        self.spec_bit_pos(biti)
    }

    fn width(&self) -> usize {
        2
    }

    fn bit_pos(&self, biti: usize) -> (r: (Coordinate, bool)) {

        let k: usize = if self.x.x.device.has_large_macrocells() { 21 + biti } else { 9 + biti };
        (mc_prop_coord(self.x.x.device, self.x.x.fb, self.x.mc, k), false)
    }
}


/// Macrocell feedback source selector (2 bits).
#[derive(Clone, Copy, PartialEq, Eq, Structural, Debug, Hash)]
pub struct MacrocellFeedbackSourceAccessor {
    pub x: Macrocell,
}

impl MacrocellFeedbackSourceAccessor {
    pub open spec fn spec_k(self, biti: int) -> int {
        if self.x.x.device.spec_has_large_macrocells() { 6 + biti } else { 13 + biti }
    }

    pub open spec fn spec_bit_pos(self, biti: int) -> (Coordinate, bool) {
        (spec_mc_prop_coord(self.x.x.device, self.x.x.fb, self.x.mc, self.spec_k(biti)), false)
    }
}
impl crate::props::PropertyAccessor for MacrocellFeedbackSourceAccessor {
    proof fn lemma_bit_pos_in_bounds(&self, biti: int) {
        crate::mc::lemma_mc_prop_coord_in_bounds(self.x.x.device, self.x.x.fb, self.x.mc, self.spec_k(biti));
    }

    open spec fn prop_device(&self) -> XC2Device {
        self.x.x.device
    }

    open spec fn prop_wf(&self) -> bool {
        self.x.wf()
    }

    open spec fn prop_width(&self) -> int {
        2
    }

    open spec fn prop_bit_pos(&self, biti: int) -> (Coordinate, bool) {
        self.spec_bit_pos(biti)
    }

    fn width(&self) -> usize {
        2
    }

    fn bit_pos(&self, biti: usize) -> (r: (Coordinate, bool)) {

        let k: usize = if self.x.x.device.has_large_macrocells() { 6 + biti } else { 13 + biti };
        (mc_prop_coord(self.x.x.device, self.x.x.fb, self.x.mc, k), false)
    }
}


/// Whether the macrocell drives the I/O block (1 bit, stored inverted).
#[derive(Clone, Copy, PartialEq, Eq, Structural, Debug, Hash)]
pub struct UseIOAccessor {
    pub x: Macrocell,
}

impl UseIOAccessor {
    pub open spec fn spec_k(self) -> int {
        if self.x.x.device.spec_has_large_macrocells() { 10 } else { 15 }
    }

    pub open spec fn spec_bit_pos(self, biti: int) -> (Coordinate, bool) {
        (spec_mc_prop_coord(self.x.x.device, self.x.x.fb, self.x.mc, self.spec_k()), true)
    }
}
impl crate::props::PropertyAccessor for UseIOAccessor {
    proof fn lemma_bit_pos_in_bounds(&self, biti: int) {
        crate::mc::lemma_mc_prop_coord_in_bounds(self.x.x.device, self.x.x.fb, self.x.mc, self.spec_k());
    }

    open spec fn prop_device(&self) -> XC2Device {
        self.x.x.device
    }

    open spec fn prop_wf(&self) -> bool {
        self.x.wf()
    }

    open spec fn prop_width(&self) -> int {
        1
    }

    open spec fn prop_bit_pos(&self, biti: int) -> (Coordinate, bool) {
        self.spec_bit_pos(biti)
    }

    fn width(&self) -> usize {
        1
    }

    fn bit_pos(&self, biti: usize) -> (r: (Coordinate, bool)) {

        let k: usize = if self.x.x.device.has_large_macrocells() { 10 } else { 15 };
        (mc_prop_coord(self.x.x.device, self.x.x.fb, self.x.mc, k), true)
    }
}


/// XOR gate mode selector (2 bits).
#[derive(Clone, Copy, PartialEq, Eq, Structural, Debug, Hash)]
pub struct XorModeAccessor {
    pub x: Macrocell,
}

impl XorModeAccessor {
    pub open spec fn spec_k(self, biti: int) -> int {
        if self.x.x.device.spec_has_large_macrocells() { 27 + biti } else { 17 + biti }
    }

    pub open spec fn spec_bit_pos(self, biti: int) -> (Coordinate, bool) {
        (spec_mc_prop_coord(self.x.x.device, self.x.x.fb, self.x.mc, self.spec_k(biti)), false)
    }
}
impl crate::props::PropertyAccessor for XorModeAccessor {
    proof fn lemma_bit_pos_in_bounds(&self, biti: int) {
        crate::mc::lemma_mc_prop_coord_in_bounds(self.x.x.device, self.x.x.fb, self.x.mc, self.spec_k(biti));
    }

    open spec fn prop_device(&self) -> XC2Device {
        self.x.x.device
    }

    open spec fn prop_wf(&self) -> bool {
        self.x.wf()
    }

    open spec fn prop_width(&self) -> int {
        2
    }

    open spec fn prop_bit_pos(&self, biti: int) -> (Coordinate, bool) {
        self.spec_bit_pos(biti)
    }

    fn width(&self) -> usize {
        2
    }

    fn bit_pos(&self, biti: usize) -> (r: (Coordinate, bool)) {

        let k: usize = if self.x.x.device.has_large_macrocells() { 27 + biti } else { 17 + biti };
        (mc_prop_coord(self.x.x.device, self.x.x.fb, self.x.mc, k), false)
    }
}


} // verus!
