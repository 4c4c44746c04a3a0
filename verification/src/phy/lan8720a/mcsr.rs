//! Mode Control/Status Register bits.

use vstd::prelude::*;

verus! {

/// Energy detect power-down enable
pub const EDPWRDOWN: u16 = 0x2000;
/// Far loopback enable
pub const FARLOOPBACK: u16 = 0x0200;
/// Alternate interrupt mode
pub const ALTINT: u16 = 0x0040;
/// Energy detected on the line
pub const ENERGYON: u16 = 0x0002;

} // verus!
