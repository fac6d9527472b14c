//! The UDP ports of an HSES controller.

use vstd::prelude::*;

verus! {

/// The port of robot control requests.
pub const ROBOT_CONTROL_PORT: u16 = 10040;

/// The port of file control requests.
pub const FILE_CONTROL_PORT: u16 = 10041;

} // verus!
