use vstd::prelude::*;

verus! {

/// Numbering scheme for value types:
///
/// - 0: void
/// - 0x01-0x6f: special types
/// - 0x70-0x7d: lane types
/// - 0x7e-0x7f: reference types
/// - 0x80-0xff: vector types
/// - 0x100-0x4ff: dynamic vector types
///
/// Start of the lane types.
pub const LANE_BASE: u16 = 0x70;

/// Base for the reference types.
pub const REFERENCE_BASE: u16 = 0x7e;

} // verus!
