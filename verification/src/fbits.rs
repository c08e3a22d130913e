//! IEEE-754 single-precision bit patterns for the camera's fixed parameters.
//!
//! The library stores every real-valued quantity as its raw 32-bit pattern
//! and never does arithmetic on it; the embedder converts to and from `f32`
//! at the boundary. Each constant's doc comment gives the value it encodes.

use vstd::prelude::*;

verus! {

/// 0.0
pub const F32_ZERO_BITS: u32 = 0x0000_0000;

/// 1.0
pub const F32_ONE_BITS: u32 = 0x3F80_0000;

/// -1.0
pub const F32_NEG_ONE_BITS: u32 = 0xBF80_0000;

/// 0.25: the starting field of view, measured in half-turns
pub const DEFAULT_FOV_BITS: u32 = 0x3E80_0000;

/// 0.05: the movement speed in world units per tick
pub const DEFAULT_SPEED_BITS: u32 = 0x3D4C_CCCD;

/// 1.0: the near clip plane distance
pub const DEFAULT_Z_NEAR_BITS: u32 = 0x3F80_0000;

/// 100000.0: the far clip plane distance
pub const DEFAULT_Z_FAR_BITS: u32 = 0x47C3_5000;

} // verus!
