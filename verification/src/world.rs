//! Animation state: the orbiting light direction and the frame counter.

use vstd::prelude::*;

verus! {

/// Bit pattern of the IEEE-754 single-precision value `-1.0`, the fixed
/// z component of the animated light direction.
pub const NEG_ONE_BITS: u32 = 0xbf80_0000;

/// Bit pattern of the x component of the initial light direction, the unit
/// vector obtained by normalizing `(-0.5, 0.5, -1.0)` in single precision.
pub const INITIAL_LIGHT_X_BITS: u32 = 0xbed1_05eb;

/// Bit pattern of the y component of the initial light direction.
pub const INITIAL_LIGHT_Y_BITS: u32 = 0x3ed1_05eb;

/// Bit pattern of the z component of the initial light direction.
pub const INITIAL_LIGHT_Z_BITS: u32 = 0xbf51_05eb;

/// A direction (or point) in 3-space. Each component holds the bit pattern
/// of an IEEE-754 single-precision value; the library never interprets the
/// bits, it only stores and hands them back, so the state it keeps is a
/// plain function of what callers put in.
#[derive(Clone, Copy, PartialEq, Eq, Structural, Debug)]
pub struct Vector3D {
    pub x: u32,
    pub y: u32,
    pub z: u32,
}

/// `i + 1` wrapped at `2^32`.
pub open spec fn wrap_inc(i: u32) -> u32 {
    if i == u32::MAX {
        0
    } else {
        (i + 1) as u32
    }
}

/// The frame counter advances modulo `2^32`.
pub proof fn lemma_frame_index_wraps(i: u32)
    ensures
        wrap_inc(i) as int == (i as int + 1) % 0x1_0000_0000,
{
}

/// The animation state: the current light direction and the index of the
/// frame about to be drawn. Created once at startup, advanced exactly once
/// per frame by `tick`.
pub struct World {
    /// Light direction; `tick` rebuilds it from the frame counter. Shading
    /// treats it as (roughly) unit length, but nothing here requires that.
    pub light: Vector3D,
    /// Frame counter; wraps at `2^32`.
    pub i: u32,
}

impl World {
    /// A fresh state: frame zero, light along the normalized initial
    /// direction.
    pub fn new() -> (w: World)
        ensures
            w.light == (Vector3D {
                x: INITIAL_LIGHT_X_BITS,
                y: INITIAL_LIGHT_Y_BITS,
                z: INITIAL_LIGHT_Z_BITS,
            }),
            w.i == 0,
    {
        World {
            light: Vector3D {
                x: INITIAL_LIGHT_X_BITS,
                y: INITIAL_LIGHT_Y_BITS,
                z: INITIAL_LIGHT_Z_BITS,
            },
            i: 0,
        }
    }

    /// Advances the state by one frame: the light direction becomes
    /// `(sin(i * 0.01), cos(i * 0.01), -1.0)` and the frame counter is
    /// incremented, wrapping at `2^32`.
    ///
    /// The sine and cosine of `i * 0.01` (single precision, for the counter
    /// value before the call) are floating-point work the library cannot do;
    /// the caller computes them and passes their bit patterns in. Whatever
    /// the two values are, the new state is exactly as stated here.
    pub fn tick(&mut self, sin_bits: u32, cos_bits: u32)
        ensures
            final(self).light == (Vector3D { x: sin_bits, y: cos_bits, z: NEG_ONE_BITS }),
            final(self).i == wrap_inc(old(self).i),
    {
        self.light = Vector3D { x: sin_bits, y: cos_bits, z: NEG_ONE_BITS };
        self.i = if self.i == u32::MAX {
            0
        } else {
            self.i + 1
        };
    }
}

} // verus!
