//! Joint (motor) indices into `LowCmd.motor_cmd` / `LowState.motor_state`.
//!
//! Naming: `<leg><joint>` where leg ∈ {FR, FL, RR, RL} (front/rear,
//! right/left) and joint 0/1/2 = hip / thigh / calf.

use vstd::prelude::*;

verus! {

/// Front-right hip.
pub const FR_0: usize = 0;

/// Front-right thigh.
pub const FR_1: usize = 1;

/// Front-right calf.
pub const FR_2: usize = 2;

/// Front-left hip.
pub const FL_0: usize = 3;

/// Front-left thigh.
pub const FL_1: usize = 4;

/// Front-left calf.
pub const FL_2: usize = 5;

/// Rear-right hip.
pub const RR_0: usize = 6;

/// Rear-right thigh.
pub const RR_1: usize = 7;

/// Rear-right calf.
pub const RR_2: usize = 8;

/// Rear-left hip.
pub const RL_0: usize = 9;

/// Rear-left thigh.
pub const RL_1: usize = 10;

/// Rear-left calf.
pub const RL_2: usize = 11;

/// Number of leg joints (the first 12 entries of the 20-element arrays).
pub const NUM_LEG_JOINTS: usize = 12;

} // verus!
