//! Fuse-layout engine for the CoolRunner-II CPLD family.
//!
//! The crate models the physical configuration-bit array of the eight
//! device variants and provides the bidirectional mapping between logical
//! configuration bits and physical (column, row) coordinates, as well as
//! the linear fuse ordering used by JEDEC programming files.

use vstd::prelude::*;

pub mod bitstream;
pub mod coordinate;
pub mod crbit;
pub mod fb;
pub mod global_bits_code;
pub mod global_fuses;
pub mod io;
pub mod jed;
pub mod laws;
pub mod mc;
pub mod partdb;
pub mod partname;
pub mod props;
pub mod zia;

verus! {

/// Number of ZIA interconnect rows feeding each function block's AND array.
pub const ZIA_ROWS: usize = 40;

/// Number of AND (product) terms in each function block's PLA.
pub const ANDTERMS_PER_FB: usize = 56;

/// Number of macrocells (and OR terms) in each function block.
pub const MCS_PER_FB: usize = 16;

/// Number of global clock buffer sites.
pub const NUM_BUFG_CLK: usize = 3;

/// Number of global tristate buffer sites.
pub const NUM_BUFG_GTS: usize = 4;

/// Number of global set/reset buffer sites.
pub const NUM_BUFG_GSR: usize = 1;

} // verus!
