//! Accessors for the chip-wide control bits.

use vstd::prelude::*;

use crate::coordinate::Coordinate;
use crate::partdb::XC2Device;
use crate::props::PropertyAccessor;

verus! {

/// Global clock enable (1 bit per GCK site).
#[derive(Clone, Copy, PartialEq, Eq, Structural, Debug, Hash)]
pub struct GCKEn {
    pub device: XC2Device,
    pub gck_idx: u8,
}

impl GCKEn {
    pub open spec fn spec_bit_pos(self, biti: int) -> (Coordinate, bool) {
        (self.device.spec_gck(self.gck_idx as int), false)
    }
}

impl PropertyAccessor for GCKEn {
    proof fn lemma_bit_pos_in_bounds(&self, biti: int) {
    }

    open spec fn prop_device(&self) -> XC2Device {
        self.device
    }

    open spec fn prop_wf(&self) -> bool {
        self.gck_idx < 3
    }

    open spec fn prop_width(&self) -> int {
        1
    }

    open spec fn prop_bit_pos(&self, biti: int) -> (Coordinate, bool) {
        self.spec_bit_pos(biti)
    }

    fn width(&self) -> usize {
        1
    }

    fn bit_pos(&self, _biti: usize) -> (r: (Coordinate, bool)) {
        (self.device.gck(self.gck_idx as usize), false)
    }
}

/// Global set/reset enable (1 bit).
#[derive(Clone, Copy, PartialEq, Eq, Structural, Debug, Hash)]
pub struct GSREn {
    pub device: XC2Device,
}

impl GSREn {
    pub open spec fn spec_bit_pos(self, biti: int) -> (Coordinate, bool) {
        (self.device.spec_gsr_enable(), false)
    }
}

impl PropertyAccessor for GSREn {
    proof fn lemma_bit_pos_in_bounds(&self, biti: int) {
    }

    open spec fn prop_device(&self) -> XC2Device {
        self.device
    }

    open spec fn prop_wf(&self) -> bool {
        true
    }

    open spec fn prop_width(&self) -> int {
        1
    }

    open spec fn prop_bit_pos(&self, biti: int) -> (Coordinate, bool) {
        self.spec_bit_pos(biti)
    }

    fn width(&self) -> usize {
        1
    }

    fn bit_pos(&self, _biti: usize) -> (r: (Coordinate, bool)) {
        (self.device.gsr_enable(), false)
    }
}

/// Global set/reset invert (1 bit).
#[derive(Clone, Copy, PartialEq, Eq, Structural, Debug, Hash)]
pub struct GSRInv {
    pub device: XC2Device,
}

impl GSRInv {
    pub open spec fn spec_bit_pos(self, biti: int) -> (Coordinate, bool) {
        (self.device.spec_gsr_invert(), false)
    }
}

impl PropertyAccessor for GSRInv {
    proof fn lemma_bit_pos_in_bounds(&self, biti: int) {
    }

    open spec fn prop_device(&self) -> XC2Device {
        self.device
    }

    open spec fn prop_wf(&self) -> bool {
        true
    }

    open spec fn prop_width(&self) -> int {
        1
    }

    open spec fn prop_bit_pos(&self, biti: int) -> (Coordinate, bool) {
        self.spec_bit_pos(biti)
    }

    fn width(&self) -> usize {
        1
    }

    fn bit_pos(&self, _biti: usize) -> (r: (Coordinate, bool)) {
        (self.device.gsr_invert(), false)
    }
}

/// Global tristate enable (1 bit per GTS site, stored inverted).
#[derive(Clone, Copy, PartialEq, Eq, Structural, Debug, Hash)]
pub struct GTSEn {
    pub device: XC2Device,
    pub gts_idx: u8,
}

impl GTSEn {
    pub open spec fn spec_bit_pos(self, biti: int) -> (Coordinate, bool) {
        (self.device.spec_gts_enable(self.gts_idx as int), true)
    }
}

impl PropertyAccessor for GTSEn {
    proof fn lemma_bit_pos_in_bounds(&self, biti: int) {
    }

    open spec fn prop_device(&self) -> XC2Device {
        self.device
    }

    open spec fn prop_wf(&self) -> bool {
        self.gts_idx < 4
    }

    open spec fn prop_width(&self) -> int {
        1
    }

    open spec fn prop_bit_pos(&self, biti: int) -> (Coordinate, bool) {
        self.spec_bit_pos(biti)
    }

    fn width(&self) -> usize {
        1
    }

    fn bit_pos(&self, _biti: usize) -> (r: (Coordinate, bool)) {
        (self.device.gts_enable(self.gts_idx as usize), true)
    }
}

/// Global tristate invert (1 bit per GTS site).
#[derive(Clone, Copy, PartialEq, Eq, Structural, Debug, Hash)]
pub struct GTSInv {
    pub device: XC2Device,
    pub gts_idx: u8,
}

impl GTSInv {
    pub open spec fn spec_bit_pos(self, biti: int) -> (Coordinate, bool) {
        (self.device.spec_gts_invert(self.gts_idx as int), false)
    }
}

impl PropertyAccessor for GTSInv {
    proof fn lemma_bit_pos_in_bounds(&self, biti: int) {
    }

    open spec fn prop_device(&self) -> XC2Device {
        self.device
    }

    open spec fn prop_wf(&self) -> bool {
        self.gts_idx < 4
    }

    open spec fn prop_width(&self) -> int {
        1
    }

    open spec fn prop_bit_pos(&self, biti: int) -> (Coordinate, bool) {
        self.spec_bit_pos(biti)
    }

    fn width(&self) -> usize {
        1
    }

    fn bit_pos(&self, _biti: usize) -> (r: (Coordinate, bool)) {
        (self.device.gts_invert(self.gts_idx as usize), false)
    }
}

/// Global termination control (1 bit, stored inverted).
#[derive(Clone, Copy, PartialEq, Eq, Structural, Debug, Hash)]
pub struct GlobalTermAccessor {
    pub device: XC2Device,
}

impl GlobalTermAccessor {
    pub open spec fn spec_bit_pos(self, biti: int) -> (Coordinate, bool) {
        (self.device.spec_global_term(), true)
    }
}

impl PropertyAccessor for GlobalTermAccessor {
    proof fn lemma_bit_pos_in_bounds(&self, biti: int) {
    }

    open spec fn prop_device(&self) -> XC2Device {
        self.device
    }

    open spec fn prop_wf(&self) -> bool {
        true
    }

    open spec fn prop_width(&self) -> int {
        1
    }

    open spec fn prop_bit_pos(&self, biti: int) -> (Coordinate, bool) {
        self.spec_bit_pos(biti)
    }

    fn width(&self) -> usize {
        1
    }

    fn bit_pos(&self, _biti: usize) -> (r: (Coordinate, bool)) {
        (self.device.global_term(), true)
    }
}

/// Descriptor of the clock divider block (large-macrocell devices only).
#[derive(Clone, Copy, PartialEq, Eq, Structural, Debug, Hash)]
pub struct ClockDivider {
    pub device: XC2Device,
}

impl ClockDivider {
    pub open spec fn wf(self) -> bool {
        self.device.spec_has_large_macrocells()
    }

    pub fn enabled(&self) -> (r: ClkDivEnable)
        ensures
            r == (ClkDivEnable { x: *self }),
    {
        ClkDivEnable { x: *self }
    }

    pub fn delay(&self) -> (r: ClkDivDelay)
        ensures
            r == (ClkDivDelay { x: *self }),
    {
        ClkDivDelay { x: *self }
    }

    pub fn ratio(&self) -> (r: ClkDivRatioAccessor)
        ensures
            r == (ClkDivRatioAccessor { x: *self }),
    {
        ClkDivRatioAccessor { x: *self }
    }
}

/// Clock divider enable (1 bit, stored inverted).
#[derive(Clone, Copy, PartialEq, Eq, Structural, Debug, Hash)]
pub struct ClkDivEnable {
    pub x: ClockDivider,
}

impl ClkDivEnable {
    pub open spec fn spec_bit_pos(self, biti: int) -> (Coordinate, bool) {
        (self.x.device.spec_clk_div_enable(), true)
    }
}

impl PropertyAccessor for ClkDivEnable {
    proof fn lemma_bit_pos_in_bounds(&self, biti: int) {
    }

    open spec fn prop_device(&self) -> XC2Device {
        self.x.device
    }

    open spec fn prop_wf(&self) -> bool {
        self.x.wf()
    }

    open spec fn prop_width(&self) -> int {
        1
    }

    open spec fn prop_bit_pos(&self, biti: int) -> (Coordinate, bool) {
        self.spec_bit_pos(biti)
    }

    fn width(&self) -> usize {
        1
    }

    fn bit_pos(&self, _biti: usize) -> (r: (Coordinate, bool)) {
        (self.x.device.clk_div_enable(), true)
    }
}

/// Clock divider delay (1 bit, stored inverted).
#[derive(Clone, Copy, PartialEq, Eq, Structural, Debug, Hash)]
pub struct ClkDivDelay {
    pub x: ClockDivider,
}

impl ClkDivDelay {
    pub open spec fn spec_bit_pos(self, biti: int) -> (Coordinate, bool) {
        (self.x.device.spec_clk_div_delay(), true)
    }
}

impl PropertyAccessor for ClkDivDelay {
    proof fn lemma_bit_pos_in_bounds(&self, biti: int) {
    }

    open spec fn prop_device(&self) -> XC2Device {
        self.x.device
    }

    open spec fn prop_wf(&self) -> bool {
        self.x.wf()
    }

    open spec fn prop_width(&self) -> int {
        1
    }

    open spec fn prop_bit_pos(&self, biti: int) -> (Coordinate, bool) {
        self.spec_bit_pos(biti)
    }

    fn width(&self) -> usize {
        1
    }

    fn bit_pos(&self, _biti: usize) -> (r: (Coordinate, bool)) {
        (self.x.device.clk_div_delay(), true)
    }
}

/// Clock divider ratio selector (3 bits).
#[derive(Clone, Copy, PartialEq, Eq, Structural, Debug, Hash)]
pub struct ClkDivRatioAccessor {
    pub x: ClockDivider,
}

impl ClkDivRatioAccessor {
    pub open spec fn spec_bit_pos(self, biti: int) -> (Coordinate, bool) {
        (self.x.device.spec_clk_div_ratio(biti), false)
    }
}

impl PropertyAccessor for ClkDivRatioAccessor {
    proof fn lemma_bit_pos_in_bounds(&self, biti: int) {
    }

    open spec fn prop_device(&self) -> XC2Device {
        self.x.device
    }

    open spec fn prop_wf(&self) -> bool {
        self.x.wf()
    }

    open spec fn prop_width(&self) -> int {
        3
    }

    open spec fn prop_bit_pos(&self, biti: int) -> (Coordinate, bool) {
        self.spec_bit_pos(biti)
    }

    fn width(&self) -> usize {
        3
    }

    fn bit_pos(&self, biti: usize) -> (r: (Coordinate, bool)) {
        (self.x.device.clk_div_ratio(biti), false)
    }
}

/// Device-wide data gate enable (1 bit, stored inverted).
#[derive(Clone, Copy, PartialEq, Eq, Structural, Debug, Hash)]
pub struct DataGate {
    pub device: XC2Device,
}

impl DataGate {
    pub open spec fn spec_bit_pos(self, biti: int) -> (Coordinate, bool) {
        (self.device.spec_data_gate(), true)
    }
}

impl PropertyAccessor for DataGate {
    proof fn lemma_bit_pos_in_bounds(&self, biti: int) {
    }

    open spec fn prop_device(&self) -> XC2Device {
        self.device
    }

    open spec fn prop_wf(&self) -> bool {
        self.device.spec_has_large_macrocells()
    }

    open spec fn prop_width(&self) -> int {
        1
    }

    open spec fn prop_bit_pos(&self, biti: int) -> (Coordinate, bool) {
        self.spec_bit_pos(biti)
    }

    fn width(&self) -> usize {
        1
    }

    fn bit_pos(&self, _biti: usize) -> (r: (Coordinate, bool)) {
        (self.device.data_gate(), true)
    }
}

/// VREF enable (1 bit, stored inverted).
#[derive(Clone, Copy, PartialEq, Eq, Structural, Debug, Hash)]
pub struct UseVref {
    pub device: XC2Device,
}

impl UseVref {
    pub open spec fn spec_bit_pos(self, biti: int) -> (Coordinate, bool) {
        (self.device.spec_vref_enable(), true)
    }
}

impl PropertyAccessor for UseVref {
    proof fn lemma_bit_pos_in_bounds(&self, biti: int) {
    }

    open spec fn prop_device(&self) -> XC2Device {
        self.device
    }

    open spec fn prop_wf(&self) -> bool {
        self.device.spec_has_large_macrocells()
    }

    open spec fn prop_width(&self) -> int {
        1
    }

    open spec fn prop_bit_pos(&self, biti: int) -> (Coordinate, bool) {
        self.spec_bit_pos(biti)
    }

    fn width(&self) -> usize {
        1
    }

    fn bit_pos(&self, _biti: usize) -> (r: (Coordinate, bool)) {
        (self.device.vref_enable(), true)
    }
}

/// Input voltage range of one I/O bank (1 bit).
#[derive(Clone, Copy, PartialEq, Eq, Structural, Debug, Hash)]
pub struct IVoltage {
    pub device: XC2Device,
    pub io_bank: u8,
}

impl IVoltage {
    pub open spec fn spec_bit_pos(self, biti: int) -> (Coordinate, bool) {
        (self.device.spec_io_input_voltage(self.io_bank as int), false)
    }
}

impl PropertyAccessor for IVoltage {
    proof fn lemma_bit_pos_in_bounds(&self, biti: int) {
    }

    open spec fn prop_device(&self) -> XC2Device {
        self.device
    }

    open spec fn prop_wf(&self) -> bool {
        self.io_bank < self.device.spec_num_io_banks()
    }

    open spec fn prop_width(&self) -> int {
        1
    }

    open spec fn prop_bit_pos(&self, biti: int) -> (Coordinate, bool) {
        self.spec_bit_pos(biti)
    }

    fn width(&self) -> usize {
        1
    }

    fn bit_pos(&self, _biti: usize) -> (r: (Coordinate, bool)) {
        (self.device.io_input_voltage(self.io_bank as usize), false)
    }
}

/// Output voltage range of one I/O bank (1 bit).
#[derive(Clone, Copy, PartialEq, Eq, Structural, Debug, Hash)]
pub struct OVoltage {
    pub device: XC2Device,
    pub io_bank: u8,
}

impl OVoltage {
    pub open spec fn spec_bit_pos(self, biti: int) -> (Coordinate, bool) {
        (self.device.spec_io_output_voltage(self.io_bank as int), false)
    }
}

impl PropertyAccessor for OVoltage {
    proof fn lemma_bit_pos_in_bounds(&self, biti: int) {
    }

    open spec fn prop_device(&self) -> XC2Device {
        self.device
    }

    open spec fn prop_wf(&self) -> bool {
        self.io_bank < self.device.spec_num_io_banks()
    }

    open spec fn prop_width(&self) -> int {
        1
    }

    open spec fn prop_bit_pos(&self, biti: int) -> (Coordinate, bool) {
        self.spec_bit_pos(biti)
    }

    fn width(&self) -> usize {
        1
    }

    fn bit_pos(&self, _biti: usize) -> (r: (Coordinate, bool)) {
        (self.device.io_output_voltage(self.io_bank as usize), false)
    }
}

/// The single legacy input voltage fuse of the two first-generation
/// device sizes.
#[derive(Clone, Copy, PartialEq, Eq, Structural, Debug, Hash)]
pub struct LegacyIVoltage {
    pub device: XC2Device,
}

impl LegacyIVoltage {
    pub open spec fn spec_bit_pos(self, biti: int) -> (Coordinate, bool) {
        match self.device {
            XC2Device::XC2C32 | XC2Device::XC2C32A
                => (crate::global_fuses::spec_xc2c32_ivoltage(), false),
            _ => (crate::global_fuses::spec_xc2c64_ivoltage(), false),
        }
    }
}

impl PropertyAccessor for LegacyIVoltage {
    proof fn lemma_bit_pos_in_bounds(&self, biti: int) {
    }

    open spec fn prop_device(&self) -> XC2Device {
        self.device
    }

    open spec fn prop_wf(&self) -> bool {
        !self.device.spec_has_large_macrocells()
    }

    open spec fn prop_width(&self) -> int {
        1
    }

    open spec fn prop_bit_pos(&self, biti: int) -> (Coordinate, bool) {
        self.spec_bit_pos(biti)
    }

    fn width(&self) -> usize {
        1
    }

    fn bit_pos(&self, _biti: usize) -> (r: (Coordinate, bool)) {
        match self.device {
            XC2Device::XC2C32 | XC2Device::XC2C32A
                => (crate::global_fuses::xc2c32_ivoltage(), false),
            _ => (crate::global_fuses::xc2c64_ivoltage(), false),
        }
    }
}

/// The single legacy output voltage fuse of the two first-generation
/// device sizes.
#[derive(Clone, Copy, PartialEq, Eq, Structural, Debug, Hash)]
pub struct LegacyOVoltage {
    pub device: XC2Device,
}

impl LegacyOVoltage {
    pub open spec fn spec_bit_pos(self, biti: int) -> (Coordinate, bool) {
        match self.device {
            XC2Device::XC2C32 | XC2Device::XC2C32A
                => (crate::global_fuses::spec_xc2c32_ovoltage(), false),
            _ => (crate::global_fuses::spec_xc2c64_ovoltage(), false),
        }
    }
}

impl PropertyAccessor for LegacyOVoltage {
    proof fn lemma_bit_pos_in_bounds(&self, biti: int) {
    }

    open spec fn prop_device(&self) -> XC2Device {
        self.device
    }

    open spec fn prop_wf(&self) -> bool {
        !self.device.spec_has_large_macrocells()
    }

    open spec fn prop_width(&self) -> int {
        1
    }

    open spec fn prop_bit_pos(&self, biti: int) -> (Coordinate, bool) {
        self.spec_bit_pos(biti)
    }

    fn width(&self) -> usize {
        1
    }

    fn bit_pos(&self, _biti: usize) -> (r: (Coordinate, bool)) {
        match self.device {
            XC2Device::XC2C32 | XC2Device::XC2C32A
                => (crate::global_fuses::xc2c32_ovoltage(), false),
            _ => (crate::global_fuses::xc2c64_ovoltage(), false),
        }
    }
}

/// The 32-bit user code word.
#[derive(Clone, Copy, PartialEq, Eq, Structural, Debug, Hash)]
pub struct UserCode {
    pub device: XC2Device,
}

impl UserCode {
    pub open spec fn spec_bit_pos(self, biti: int) -> (Coordinate, bool) {
        match self.device {
            XC2Device::XC2C32 | XC2Device::XC2C32A
                => (Coordinate { x: (249 - biti) as usize, y: 49 }, false),
            XC2Device::XC2C64 | XC2Device::XC2C64A
                => (Coordinate { x: (273 - biti) as usize, y: 97 }, false),
            XC2Device::XC2C128 => (Coordinate { x: (298 + biti) as usize, y: 81 }, false),
            XC2Device::XC2C256 => (Coordinate { x: (299 + biti) as usize, y: 97 }, false),
            XC2Device::XC2C384 => (Coordinate { x: (886 + biti) as usize, y: 121 }, false),
            XC2Device::XC2C512 => (Coordinate { x: (299 + biti) as usize, y: 161 }, false),
        }
    }
}

impl PropertyAccessor for UserCode {
    proof fn lemma_bit_pos_in_bounds(&self, biti: int) {
    }

    open spec fn prop_device(&self) -> XC2Device {
        self.device
    }

    open spec fn prop_wf(&self) -> bool {
        true
    }

    open spec fn prop_width(&self) -> int {
        32
    }

    open spec fn prop_bit_pos(&self, biti: int) -> (Coordinate, bool) {
        self.spec_bit_pos(biti)
    }

    fn width(&self) -> usize {
        32
    }

    fn bit_pos(&self, biti: usize) -> (r: (Coordinate, bool)) {
        match self.device {
            XC2Device::XC2C32 | XC2Device::XC2C32A
                => (Coordinate::new(249 - biti, 49), false),
            XC2Device::XC2C64 | XC2Device::XC2C64A
                => (Coordinate::new(273 - biti, 97), false),
            XC2Device::XC2C128 => (Coordinate::new(298 + biti, 81), false),
            XC2Device::XC2C256 => (Coordinate::new(299 + biti, 97), false),
            XC2Device::XC2C384 => (Coordinate::new(886 + biti, 121), false),
            XC2Device::XC2C512 => (Coordinate::new(299 + biti, 161), false),
        }
    }
}

/// The device's readback security bits, next to `done1` in the last rows.
#[derive(Clone, Copy, PartialEq, Eq, Structural, Debug, Hash)]
pub struct DeviceSecurity {
    pub device: XC2Device,
}

impl DeviceSecurity {
    pub open spec fn spec_bit_pos(self, biti: int) -> (Coordinate, bool) {
        let done1 = self.device.spec_done1();
        (Coordinate { x: (done1.x - (8 - biti)) as usize, y: done1.y }, false)
    }
}

impl PropertyAccessor for DeviceSecurity {
    proof fn lemma_bit_pos_in_bounds(&self, biti: int) {
    }

    open spec fn prop_device(&self) -> XC2Device {
        self.device
    }

    open spec fn prop_wf(&self) -> bool {
        true
    }

    open spec fn prop_width(&self) -> int {
        7
    }

    open spec fn prop_bit_pos(&self, biti: int) -> (Coordinate, bool) {
        self.spec_bit_pos(biti)
    }

    fn width(&self) -> usize {
        7
    }

    fn bit_pos(&self, biti: usize) -> (r: (Coordinate, bool)) {
        let done1 = self.device.done1();
        (Coordinate::new(done1.x - (8 - biti), done1.y), false)
    }
}

} // verus!
