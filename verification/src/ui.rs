//! The scene-construction side of UI elements: a placement descriptor
//! around a shape or text, configured by chained setters that each
//! replace one field, and turned into a GPU-ready element when the
//! renderer is built.

use vstd::prelude::*;
use crate::glmath;
use crate::glmath::QuatBits;
use crate::types;
use crate::types::{F32_ONE, F32_TENTH, F32_ZERO, RGBA};

verus! {

/// A UI element with its caller-chosen color, position, scale, rotation
/// angle about the depth axis, and HUD flag.
pub struct Element {
    pub el_type: types::Element,
    pub is_hud: bool,
    pub color: RGBA,
    pub position: types::Vec3,
    pub scale: types::Vec3,
    pub rotation: u32,
}

impl Element {
    /// Wraps a shape or text element with the default placement: not a
    /// HUD element, a dark color, the origin, unit scale, no rotation.
    pub fn new(el_type: types::Element) -> (r: Element)
        ensures
            r.el_type == el_type,
            r.is_hud == false,
            r.color == (RGBA { r: F32_TENTH, g: F32_TENTH, b: F32_TENTH, a: F32_ONE }),
            r.position == (types::Vec3 { x: F32_ZERO, y: F32_ZERO, z: F32_ZERO }),
            r.scale == (types::Vec3 { x: F32_ONE, y: F32_ONE, z: F32_ONE }),
            r.rotation == F32_ZERO,
    {
        Element {
            el_type,
            is_hud: false,
            color: RGBA { r: F32_TENTH, g: F32_TENTH, b: F32_TENTH, a: F32_ONE },
            position: types::Vec3 { x: F32_ZERO, y: F32_ZERO, z: F32_ZERO },
            scale: types::Vec3 { x: F32_ONE, y: F32_ONE, z: F32_ONE },
            rotation: F32_ZERO,
        }
    }

    /// Replaces the position.
    pub fn set_position(self, position: types::Vec3) -> (r: Element)
        ensures
            r == (Element { position, ..self }),
    {
        Element { position, ..self }
    }

    /// Replaces the scale.
    pub fn set_scale(self, scale: types::Vec3) -> (r: Element)
        ensures
            r == (Element { scale, ..self }),
    {
        Element { scale, ..self }
    }

    /// Replaces the rotation angle about the depth axis.
    pub fn set_rotation(self, rotation: u32) -> (r: Element)
        ensures
            r == (Element { rotation, ..self }),
    {
        Element { rotation, ..self }
    }

    /// Replaces the color.
    pub fn set_color(self, rgba: RGBA) -> (r: Element)
        ensures
            r == (Element { color: rgba, ..self }),
    {
        Element { color: rgba, ..self }
    }

    /// Chooses between the screen-space orthographic projection (a HUD
    /// element) and the world perspective projection.
    pub fn is_hud(self, is_hud: bool) -> (r: Element)
        ensures
            r == (Element { is_hud, ..self }),
    {
        Element { is_hud, ..self }
    }

    /// The quaternion of this element's rotation: UI elements rotate
    /// about the depth axis only.
    pub fn rotation_quat(&self) -> (r: QuatBits)
        ensures
            r@ == glmath::spec_quat_angle_axis(self.rotation, seq![F32_ZERO, F32_ZERO, F32_ONE]),
    {
        let axis: [u32; 3] = [F32_ZERO, F32_ZERO, F32_ONE];
        assert(axis@ =~= seq![F32_ZERO, F32_ZERO, F32_ONE]);
        glmath::quat_angle_axis(self.rotation, &axis)
    }
}

} // verus!
