//! TX checksum insertion modes.

use vstd::prelude::*;

verus! {

/// Checksum insertion disabled
pub const DISABLED: u32 = 0;
/// Insert IP header checksum only
pub const IP_ONLY: u32 = 1;
/// Insert IP header and payload checksum (no pseudo-header)
pub const IP_AND_PAYLOAD: u32 = 2;
/// Insert IP header and payload checksum with pseudo-header
pub const FULL: u32 = 3;

} // verus!
