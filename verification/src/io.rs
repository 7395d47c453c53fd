//! I/O pad property bit addressing.

use vstd::prelude::*;

use crate::coordinate::Coordinate;
use crate::fb::FunctionBlock;
use crate::global_fuses::{
    spec_xc2c32_extra_ibuf_schmitt_trigger, spec_xc2c32_extra_ibuf_termination,
    xc2c32_extra_ibuf_schmitt_trigger, xc2c32_extra_ibuf_termination,
};
use crate::mc::{mc_prop_coord, spec_mc_prop_coord};
use crate::partdb::XC2Device;
use crate::MCS_PER_FB;

verus! {

/// Descriptor of one I/O pad.
#[derive(Clone, Copy, PartialEq, Eq, Structural, Debug, Hash)]
pub struct IoPad {
    pub x: FunctionBlock,
    pub mc: u8,
}

impl IoPad {
    pub open spec fn wf(self) -> bool {
        self.x.wf() && self.mc < MCS_PER_FB
    }

    pub fn fb_src(&self) -> (r: IoFeedbackSourceAccessor)
        ensures
            r == (IoFeedbackSourceAccessor { x: *self }),
    {
        IoFeedbackSourceAccessor { x: *self }
    }

    pub fn schmitt_trigger(&self) -> (r: SchmittTriggerAccessor)
        ensures
            r == (SchmittTriggerAccessor { x: *self }),
    {
        SchmittTriggerAccessor { x: *self }
    }

    pub fn input_pad_mode(&self) -> (r: InputModeAccessor)
        ensures
            r == (InputModeAccessor { x: *self }),
    {
        InputModeAccessor { x: *self }
    }

    pub fn output_src(&self) -> (r: OutputSourceAccessor)
        ensures
            r == (OutputSourceAccessor { x: *self }),
    {
        OutputSourceAccessor { x: *self }
    }

    pub fn output_pad_mode(&self) -> (r: OutputModeAccessor)
        ensures
            r == (OutputModeAccessor { x: *self }),
    {
        OutputModeAccessor { x: *self }
    }

    pub fn termination_enabled(&self) -> (r: TerminationAccessor)
        ensures
            r == (TerminationAccessor { x: *self }),
    {
        TerminationAccessor { x: *self }
    }

    pub fn slew_rate(&self) -> (r: SlewAccessor)
        ensures
            r == (SlewAccessor { x: *self }),
    {
        SlewAccessor { x: *self }
    }

    pub fn use_data_gate(&self) -> (r: DataGateAccessor)
        ensures
            r == (DataGateAccessor { x: *self }),
    {
        DataGateAccessor { x: *self }
    }
}

/// I/O feedback source selector (2 bits).
#[derive(Clone, Copy, PartialEq, Eq, Structural, Debug, Hash)]
pub struct IoFeedbackSourceAccessor {
    pub x: IoPad,
}

impl IoFeedbackSourceAccessor {
    pub open spec fn spec_k(self, biti: int) -> int {
        11 + biti
    }

    pub open spec fn spec_bit_pos(self, biti: int) -> (Coordinate, bool) {
        (spec_mc_prop_coord(self.x.x.device, self.x.x.fb, self.x.mc, self.spec_k(biti)), false)
    }
}
impl crate::props::PropertyAccessor for IoFeedbackSourceAccessor {
    proof fn lemma_bit_pos_in_bounds(&self, biti: int) {
        crate::mc::lemma_mc_prop_coord_in_bounds(self.x.x.device, self.x.x.fb, self.x.mc, self.spec_k(biti));
    }

    open spec fn prop_device(&self) -> XC2Device {
        self.x.x.device
    }

    open spec fn prop_wf(&self) -> bool {
        self.x.wf()
    }

    open spec fn prop_width(&self) -> int {
        2
    }

    open spec fn prop_bit_pos(&self, biti: int) -> (Coordinate, bool) {
        self.spec_bit_pos(biti)
    }

    fn width(&self) -> usize {
        2
    }

    fn bit_pos(&self, biti: usize) -> (r: (Coordinate, bool)) {

        (mc_prop_coord(self.x.x.device, self.x.x.fb, self.x.mc, 11 + biti), false)
    }
}


/// Schmitt trigger enable (1 bit); only the small-macrocell devices have it.
#[derive(Clone, Copy, PartialEq, Eq, Structural, Debug, Hash)]
pub struct SchmittTriggerAccessor {
    pub x: IoPad,
}

impl SchmittTriggerAccessor {
    pub open spec fn spec_bit_pos(self, biti: int) -> (Coordinate, bool) {
        (spec_mc_prop_coord(self.x.x.device, self.x.x.fb, self.x.mc, 16), false)
    }
}
impl crate::props::PropertyAccessor for SchmittTriggerAccessor {
    proof fn lemma_bit_pos_in_bounds(&self, biti: int) {
        crate::mc::lemma_mc_prop_coord_in_bounds(self.x.x.device, self.x.x.fb, self.x.mc, 16);
    }

    open spec fn prop_device(&self) -> XC2Device {
        self.x.x.device
    }

    open spec fn prop_wf(&self) -> bool {
        self.x.wf() && !self.x.x.device.spec_has_large_macrocells()
    }

    open spec fn prop_width(&self) -> int {
        1
    }

    open spec fn prop_bit_pos(&self, biti: int) -> (Coordinate, bool) {
        self.spec_bit_pos(biti)
    }

    fn width(&self) -> usize {
        1
    }

    fn bit_pos(&self, biti: usize) -> (r: (Coordinate, bool)) {

        (mc_prop_coord(self.x.x.device, self.x.x.fb, self.x.mc, 16), false)
    }
}


/// Input buffer mode selector (2 bits); large-macrocell devices only.
#[derive(Clone, Copy, PartialEq, Eq, Structural, Debug, Hash)]
pub struct InputModeAccessor {
    pub x: IoPad,
}

impl InputModeAccessor {
    pub open spec fn spec_k(self, biti: int) -> int {
        8 + biti
    }

    pub open spec fn spec_bit_pos(self, biti: int) -> (Coordinate, bool) {
        (spec_mc_prop_coord(self.x.x.device, self.x.x.fb, self.x.mc, self.spec_k(biti)), false)
    }
}
impl crate::props::PropertyAccessor for InputModeAccessor {
    proof fn lemma_bit_pos_in_bounds(&self, biti: int) {
        crate::mc::lemma_mc_prop_coord_in_bounds(self.x.x.device, self.x.x.fb, self.x.mc, self.spec_k(biti));
    }

    open spec fn prop_device(&self) -> XC2Device {
        self.x.x.device
    }

    open spec fn prop_wf(&self) -> bool {
        self.x.wf() && self.x.x.device.spec_has_large_macrocells()
    }

    open spec fn prop_width(&self) -> int {
        2
    }

    open spec fn prop_bit_pos(&self, biti: int) -> (Coordinate, bool) {
        self.spec_bit_pos(biti)
    }

    fn width(&self) -> usize {
        2
    }

    fn bit_pos(&self, biti: usize) -> (r: (Coordinate, bool)) {

        (mc_prop_coord(self.x.x.device, self.x.x.fb, self.x.mc, 8 + biti), false)
    }
}


/// Output source (registered or combinatorial, 1 bit).
#[derive(Clone, Copy, PartialEq, Eq, Structural, Debug, Hash)]
pub struct OutputSourceAccessor {
    pub x: IoPad,
}

impl OutputSourceAccessor {
    pub open spec fn spec_k(self) -> int {
        if self.x.x.device.spec_has_large_macrocells() { 20 } else { 19 }
    }

    pub open spec fn spec_bit_pos(self, biti: int) -> (Coordinate, bool) {
        (spec_mc_prop_coord(self.x.x.device, self.x.x.fb, self.x.mc, self.spec_k()), false)
    }
}
impl crate::props::PropertyAccessor for OutputSourceAccessor {
    proof fn lemma_bit_pos_in_bounds(&self, biti: int) {
        crate::mc::lemma_mc_prop_coord_in_bounds(self.x.x.device, self.x.x.fb, self.x.mc, self.spec_k());
    }

    open spec fn prop_device(&self) -> XC2Device {
        self.x.x.device
    }

    open spec fn prop_wf(&self) -> bool {
        self.x.wf()
    }

    open spec fn prop_width(&self) -> int {
        1
    }

    open spec fn prop_bit_pos(&self, biti: int) -> (Coordinate, bool) {
        self.spec_bit_pos(biti)
    }

    fn width(&self) -> usize {
        1
    }

    fn bit_pos(&self, biti: usize) -> (r: (Coordinate, bool)) {

        let k: usize = if self.x.x.device.has_large_macrocells() { 20 } else { 19 };
        (mc_prop_coord(self.x.x.device, self.x.x.fb, self.x.mc, k), false)
    }
}


/// Output buffer mode selector (4 bits).
#[derive(Clone, Copy, PartialEq, Eq, Structural, Debug, Hash)]
pub struct OutputModeAccessor {
    pub x: IoPad,
}

impl OutputModeAccessor {
    pub open spec fn spec_k(self, biti: int) -> int {
        if self.x.x.device.spec_has_large_macrocells() { 13 + biti } else { 20 + biti }
    }

    pub open spec fn spec_bit_pos(self, biti: int) -> (Coordinate, bool) {
        (spec_mc_prop_coord(self.x.x.device, self.x.x.fb, self.x.mc, self.spec_k(biti)), false)
    }
}
impl crate::props::PropertyAccessor for OutputModeAccessor {
    proof fn lemma_bit_pos_in_bounds(&self, biti: int) {
        crate::mc::lemma_mc_prop_coord_in_bounds(self.x.x.device, self.x.x.fb, self.x.mc, self.spec_k(biti));
    }

    open spec fn prop_device(&self) -> XC2Device {
        self.x.x.device
    }

    open spec fn prop_wf(&self) -> bool {
        self.x.wf()
    }

    open spec fn prop_width(&self) -> int {
        4
    }

    open spec fn prop_bit_pos(&self, biti: int) -> (Coordinate, bool) {
        self.spec_bit_pos(biti)
    }

    fn width(&self) -> usize {
        4
    }

    fn bit_pos(&self, biti: usize) -> (r: (Coordinate, bool)) {

        let k: usize = if self.x.x.device.has_large_macrocells() { 13 + biti } else { 20 + biti };
        (mc_prop_coord(self.x.x.device, self.x.x.fb, self.x.mc, k), false)
    }
}


/// Bus-hold / termination enable (1 bit).
#[derive(Clone, Copy, PartialEq, Eq, Structural, Debug, Hash)]
pub struct TerminationAccessor {
    pub x: IoPad,
}

impl TerminationAccessor {
    pub open spec fn spec_k(self) -> int {
        if self.x.x.device.spec_has_large_macrocells() { 26 } else { 24 }
    }

    pub open spec fn spec_bit_pos(self, biti: int) -> (Coordinate, bool) {
        (spec_mc_prop_coord(self.x.x.device, self.x.x.fb, self.x.mc, self.spec_k()), false)
    }
}
impl crate::props::PropertyAccessor for TerminationAccessor {
    proof fn lemma_bit_pos_in_bounds(&self, biti: int) {
        crate::mc::lemma_mc_prop_coord_in_bounds(self.x.x.device, self.x.x.fb, self.x.mc, self.spec_k());
    }

    open spec fn prop_device(&self) -> XC2Device {
        self.x.x.device
    }

    open spec fn prop_wf(&self) -> bool {
        self.x.wf()
    }

    open spec fn prop_width(&self) -> int {
        1
    }

    open spec fn prop_bit_pos(&self, biti: int) -> (Coordinate, bool) {
        self.spec_bit_pos(biti)
    }

    fn width(&self) -> usize {
        1
    }

    fn bit_pos(&self, biti: usize) -> (r: (Coordinate, bool)) {

        let k: usize = if self.x.x.device.has_large_macrocells() { 26 } else { 24 };
        (mc_prop_coord(self.x.x.device, self.x.x.fb, self.x.mc, k), false)
    }
}


/// Output slew rate (1 bit).
#[derive(Clone, Copy, PartialEq, Eq, Structural, Debug, Hash)]
pub struct SlewAccessor {
    pub x: IoPad,
}

impl SlewAccessor {
    pub open spec fn spec_bit_pos(self, biti: int) -> (Coordinate, bool) {
        (spec_mc_prop_coord(self.x.x.device, self.x.x.fb, self.x.mc, 25), false)
    }
}
impl crate::props::PropertyAccessor for SlewAccessor {
    proof fn lemma_bit_pos_in_bounds(&self, biti: int) {
        crate::mc::lemma_mc_prop_coord_in_bounds(self.x.x.device, self.x.x.fb, self.x.mc, 25);
    }

    open spec fn prop_device(&self) -> XC2Device {
        self.x.x.device
    }

    open spec fn prop_wf(&self) -> bool {
        self.x.wf()
    }

    open spec fn prop_width(&self) -> int {
        1
    }

    open spec fn prop_bit_pos(&self, biti: int) -> (Coordinate, bool) {
        self.spec_bit_pos(biti)
    }

    fn width(&self) -> usize {
        1
    }

    fn bit_pos(&self, biti: usize) -> (r: (Coordinate, bool)) {

        (mc_prop_coord(self.x.x.device, self.x.x.fb, self.x.mc, 25), false)
    }
}


/// Per-pad data gate enable (1 bit); large-macrocell devices only.
#[derive(Clone, Copy, PartialEq, Eq, Structural, Debug, Hash)]
pub struct DataGateAccessor {
    pub x: IoPad,
}

impl DataGateAccessor {
    pub open spec fn spec_bit_pos(self, biti: int) -> (Coordinate, bool) {
        (spec_mc_prop_coord(self.x.x.device, self.x.x.fb, self.x.mc, 5), false)
    }
}
impl crate::props::PropertyAccessor for DataGateAccessor {
    proof fn lemma_bit_pos_in_bounds(&self, biti: int) {
        crate::mc::lemma_mc_prop_coord_in_bounds(self.x.x.device, self.x.x.fb, self.x.mc, 5);
    }

    open spec fn prop_device(&self) -> XC2Device {
        self.x.x.device
    }

    open spec fn prop_wf(&self) -> bool {
        self.x.wf() && self.x.x.device.spec_has_large_macrocells()
    }

    open spec fn prop_width(&self) -> int {
        1
    }

    open spec fn prop_bit_pos(&self, biti: int) -> (Coordinate, bool) {
        self.spec_bit_pos(biti)
    }

    fn width(&self) -> usize {
        1
    }

    fn bit_pos(&self, biti: usize) -> (r: (Coordinate, bool)) {

        (mc_prop_coord(self.x.x.device, self.x.x.fb, self.x.mc, 5), false)
    }
}


/// The dedicated input pad that only the two smallest devices have.
#[derive(Clone, Copy, PartialEq, Eq, Structural, Debug, Hash)]
pub struct ExtraDedicatedInput {}

impl ExtraDedicatedInput {
    pub fn schmitt_trigger(&self) -> (r: ExtraSchmittTriggerAccessor)
        ensures
            r == (ExtraSchmittTriggerAccessor {  }),
    {
        ExtraSchmittTriggerAccessor {  }
    }

    pub fn termination_enabled(&self) -> (r: ExtraTerminationAccessor)
        ensures
            r == (ExtraTerminationAccessor {  }),
    {
        ExtraTerminationAccessor {  }
    }
}

/// Schmitt trigger enable of the dedicated input pad (1 bit).
#[derive(Clone, Copy, PartialEq, Eq, Structural, Debug, Hash)]
pub struct ExtraSchmittTriggerAccessor {}

impl ExtraSchmittTriggerAccessor {
    pub open spec fn spec_bit_pos(self, biti: int) -> (Coordinate, bool) {
        (spec_xc2c32_extra_ibuf_schmitt_trigger(), false)
    }

    pub fn get_bit_pos(&self, biti: usize) -> (r: (Coordinate, bool))
        requires
            biti < 1,
        ensures
            r == self.spec_bit_pos(biti as int),
    {
        (xc2c32_extra_ibuf_schmitt_trigger(), false)
    }
}

/// Bus-hold / termination enable of the dedicated input pad (1 bit).
#[derive(Clone, Copy, PartialEq, Eq, Structural, Debug, Hash)]
pub struct ExtraTerminationAccessor {}

impl ExtraTerminationAccessor {
    pub open spec fn spec_bit_pos(self, biti: int) -> (Coordinate, bool) {
        (spec_xc2c32_extra_ibuf_termination(), false)
    }

    pub fn get_bit_pos(&self, biti: usize) -> (r: (Coordinate, bool))
        requires
            biti < 1,
        ensures
            r == self.spec_bit_pos(biti as int),
    {
        (xc2c32_extra_ibuf_termination(), false)
    }
}

} // verus!
