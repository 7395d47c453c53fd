//! The property accessor contract.
//!
//! A property accessor is a stateless descriptor of one named
//! configuration property: it knows how many bits the property has and
//! where each bit lives in the fuse array, together with the bit's
//! storage sense (`true` in the second component means a logical `true`
//! is stored as physical `0`).

use vstd::prelude::*;

use crate::coordinate::Coordinate;
use crate::partdb::XC2Device;

verus! {

pub trait PropertyAccessor: Sized {
    /// The device this accessor addresses.
    spec fn prop_device(&self) -> XC2Device;

    /// Validity of the descriptor's indices for its device.
    spec fn prop_wf(&self) -> bool;

    /// Number of bits of the property.
    spec fn prop_width(&self) -> int;

    /// Location and storage sense of each bit.
    spec fn prop_bit_pos(&self, biti: int) -> (Coordinate, bool);

    /// Number of bits of the property.
    fn width(&self) -> (r: usize)
        requires
            self.prop_wf(),
        ensures
            r == self.prop_width(),
    ;

    /// Every bit of the property lies inside the device's fuse array.
    proof fn lemma_bit_pos_in_bounds(&self, biti: int)
        requires
            self.prop_wf(),
            0 <= biti < self.prop_width(),
        ensures
            self.prop_device().spec_in_bounds(self.prop_bit_pos(biti).0),
    ;

    /// Location and storage sense of bit `biti`; always inside the
    /// device's fuse array.
    fn bit_pos(&self, biti: usize) -> (r: (Coordinate, bool))
        requires
            self.prop_wf(),
            biti < self.prop_width(),
        ensures
            r == self.prop_bit_pos(biti as int),
            self.prop_device().spec_in_bounds(r.0),
    ;
}

} // verus!
