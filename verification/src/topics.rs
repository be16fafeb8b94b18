//! DDS topic names used by the Go2 (domain 0).

use vstd::prelude::*;

verus! {

/// Low-level command topic (`LowCmd`).
pub const LOW_CMD: &'static str = "rt/lowcmd";

/// Low-level state topic (`LowState`).
pub const LOW_STATE: &'static str = "rt/lowstate";

/// Sport-mode high-level state topic (`SportModeState`).
pub const SPORT_MODE_STATE: &'static str = "rt/sportmodestate";

/// Wireless controller (remote) topic (`WirelessController`).
pub const WIRELESS_CONTROLLER: &'static str = "rt/wirelesscontroller";

} // verus!
