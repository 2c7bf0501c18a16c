//! Plain data types shared across the engine: placement axes, shape kinds,
//! and color/position triples. Every scalar that the renderer treats as a
//! 32-bit float is stored as its IEEE-754 bit pattern (`u32`).

use vstd::prelude::*;

verus! {

/// Bit pattern of the 32-bit float `0.0`.
pub const F32_ZERO: u32 = 0x0000_0000;
/// Bit pattern of the 32-bit float `1.0`.
pub const F32_ONE: u32 = 0x3F80_0000;
/// Bit pattern of the 32-bit float `-1.0`.
pub const F32_NEG_ONE: u32 = 0xBF80_0000;
/// Bit pattern of the 32-bit float `0.5`.
pub const F32_HALF: u32 = 0x3F00_0000;
/// Bit pattern of the 32-bit float `-0.5`.
pub const F32_NEG_HALF: u32 = 0xBF00_0000;
/// Bit pattern of the 32-bit float `3.0`.
pub const F32_THREE: u32 = 0x4040_0000;
/// Bit pattern of the 32-bit float `0.25`.
pub const F32_QUARTER: u32 = 0x3E80_0000;
/// Bit pattern of the 32-bit float `0.1`.
pub const F32_TENTH: u32 = 0x3DCC_CCCD;
/// Bit pattern of the 32-bit float `0.4`.
pub const F32_FOUR_TENTHS: u32 = 0x3ECC_CCCD;
/// Bit pattern of the 32-bit float `0.01`.
pub const F32_HUNDREDTH: u32 = 0x3C23_D70A;
/// Bit pattern of the 32-bit float `45.0`.
pub const F32_FORTY_FIVE: u32 = 0x4234_0000;
/// Bit pattern of the 32-bit float `100.0`.
pub const F32_HUNDRED: u32 = 0x42C8_0000;

/// The single axis a model placement may rotate about.
pub enum RotAxis {
    Roll,
    Pitch,
    Yaw,
}

/// The kinds of flat shape a UI element can take.
#[derive(Debug)]
pub enum Shape {
    Square,
    Triangle,
}

/// A ready-to-draw UI element: a flat shape or a run of bitmap text.
pub enum Element {
    Shape(crate::shape::ShapeBuilder),
    Text(crate::text::TextBuilder),
}

/// A 3-component vector of float bit patterns.
#[derive(Clone, Copy, PartialEq, Eq, Structural, Debug)]
pub struct Vec3 {
    pub x: u32,
    pub y: u32,
    pub z: u32,
}

impl Vec3 {
    pub fn new(x: u32, y: u32, z: u32) -> (v: Vec3)
        ensures
            v == (Vec3 { x, y, z }),
    {
        Vec3 { x, y, z }
    }
}

/// An opaque color with three channels, as float bit patterns.
#[derive(Clone, Copy, PartialEq, Eq, Structural, Debug)]
pub struct RGB {
    pub r: u32,
    pub g: u32,
    pub b: u32,
}

impl RGB {
    pub fn new(r: u32, g: u32, b: u32) -> (c: RGB)
        ensures
            c == (RGB { r, g, b }),
    {
        RGB { r, g, b }
    }
}

/// A color with an alpha channel, as float bit patterns.
#[derive(Clone, Copy, PartialEq, Eq, Structural, Debug)]
pub struct RGBA {
    pub r: u32,
    pub g: u32,
    pub b: u32,
    pub a: u32,
}

impl RGBA {
    pub fn new(r: u32, g: u32, b: u32, a: u32) -> (c: RGBA)
        ensures
            c == (RGBA { r, g, b, a }),
    {
        RGBA { r, g, b, a }
    }
}

} // verus!
