//! First-person camera state and the view/projection pipeline. The camera
//! holds its vectors as float bit patterns; the look-at and projection
//! matrices come from the trusted `nalgebra_glm` wrappers, and `adjust`
//! yields the commands that upload the combined matrix to a program.
//!
//! Mouse look applies a pitch step about the camera's right axis and then
//! a yaw step about the up vector. The pitch step is clamped: a candidate
//! orientation is accepted only when its angle to the up vector stays
//! between 5 and 175 degrees (85 degrees either side of level), so the
//! view never flips past the poles.

use vstd::prelude::*;
use crate::commands::{cmd_views, RenderCommand, SpecCommand};
use crate::glmath;
use crate::glmath::Vec3Bits;
use crate::types::{F32_HUNDREDTH, F32_NEG_ONE, F32_ONE, F32_QUARTER, F32_TENTH, F32_THREE,
    F32_ZERO, F32_FOUR_TENTHS};

verus! {

/// Bit pattern of 5 degrees in radians (the lower clamp bound). The
/// angle wrapper returns a non-negative float (zero when a norm
/// vanishes, a NaN only from NaN components), and on those bit patterns
/// unsigned integer order coincides with numeric order, so the clamp
/// compares bit patterns directly; a zero angle falls below the lower
/// bound and a NaN compares above the upper bound, so both are rejected.
pub const F32_RAD_5_DEG: u32 = 0x3DB2_B8C2;

/// Bit pattern of 175 degrees in radians (the upper clamp bound).
pub const F32_RAD_175_DEG: u32 = 0x4043_7A15;

/// Which projection a draw pass uses.
pub enum ProjectionType {
    Perspective,
    Orthographic,
}

/// Camera state: viewport size (for the aspect ratio and mouse-delta
/// normalization), position, forward orientation, the fixed up vector,
/// movement speed, look sensitivity, and the cursor-capture flag.
pub struct Camera {
    pub width: u32,
    pub height: u32,
    pub position: Vec3Bits,
    pub orientation: Vec3Bits,
    pub up: Vec3Bits,
    pub speed: u32,
    pub sensitivity: u32,
    pub first_click: bool,
}

/// All camera fields but the position agree.
pub open spec fn spec_same_but_position(a: Camera, b: Camera) -> bool {
    &&& b.width == a.width
    &&& b.height == a.height
    &&& b.orientation == a.orientation
    &&& b.up == a.up
    &&& b.speed == a.speed
    &&& b.sensitivity == a.sensitivity
    &&& b.first_click == a.first_click
}

/// All camera fields but the orientation agree.
pub open spec fn spec_same_but_orientation(a: Camera, b: Camera) -> bool {
    &&& b.width == a.width
    &&& b.height == a.height
    &&& b.position == a.position
    &&& b.up == a.up
    &&& b.speed == a.speed
    &&& b.sensitivity == a.sensitivity
    &&& b.first_click == a.first_click
}

/// The combined camera matrix a pass uploads: perspective projection
/// times the look-at view for the 3D world, or the fixed unit-cube
/// orthographic projection alone for HUD elements.
pub open spec fn spec_camera_matrix(
    c: Camera,
    projection_type: ProjectionType,
    fov_deg: u32,
    near_plane: u32,
    far_plane: u32,
) -> Seq<u32> {
    match projection_type {
        ProjectionType::Perspective => glmath::spec_mat4_mul(
            glmath::spec_perspective_mat(fov_deg, c.width, c.height, near_plane, far_plane),
            glmath::spec_look_at_mat(
                c.position@,
                glmath::spec_vec3_add(c.position@, c.orientation@),
                c.up@,
            ),
        ),
        ProjectionType::Orthographic => glmath::spec_ortho_mat(
            F32_NEG_ONE,
            F32_ONE,
            F32_NEG_ONE,
            F32_ONE,
            F32_NEG_ONE,
            F32_ONE,
        ),
    }
}

/// The commands `adjust` issues for a program and projection.
pub open spec fn spec_adjust_cmds(
    c: Camera,
    program: u32,
    projection_type: ProjectionType,
    fov_deg: u32,
    near_plane: u32,
    far_plane: u32,
) -> Seq<SpecCommand> {
    seq![
        SpecCommand::UseProgram(program),
        SpecCommand::SetCamMatrix {
            program,
            matrix: spec_camera_matrix(c, projection_type, fov_deg, near_plane, far_plane),
        },
    ]
}

/// The candidate orientation of a pitch step: the current orientation
/// rotated by the negated vertical delta about the camera's right axis
/// (the normalized cross product of orientation and up).
pub open spec fn spec_pitch_candidate(c: Camera, rot_x: u32) -> Seq<u32> {
    glmath::spec_vec3_rotate(
        c.orientation@,
        rot_x ^ 0x8000_0000u32,
        glmath::spec_vec3_normalize(glmath::spec_vec3_cross(c.orientation@, c.up@)),
    )
}

/// Whether an orientation's angle to the up vector lies within the
/// vertical clamp, compared on radian bit patterns.
pub open spec fn spec_pitch_within_limits(orientation: Seq<u32>, up: Seq<u32>) -> bool {
    F32_RAD_5_DEG <= glmath::spec_vec3_angle(orientation, up)
        && glmath::spec_vec3_angle(orientation, up) <= F32_RAD_175_DEG
}

/// The orientation after the clamped pitch step: the candidate when its
/// angle to up stays within the clamp, the old orientation otherwise.
pub open spec fn spec_after_pitch(c: Camera, rot_x: u32) -> Seq<u32> {
    if spec_pitch_within_limits(spec_pitch_candidate(c, rot_x), c.up@) {
        spec_pitch_candidate(c, rot_x)
    } else {
        c.orientation@
    }
}

/// The orientation after a whole mouse-look step: the clamped pitch step,
/// then a yaw rotation by the negated horizontal delta about up.
pub open spec fn spec_after_mouse_look(c: Camera, rot_x: u32, rot_y: u32) -> Seq<u32> {
    glmath::spec_vec3_rotate(spec_after_pitch(c, rot_x), rot_y ^ 0x8000_0000u32, c.up@)
}

/// Vertical clamp: the pitch step of mouse look either leaves the
/// orientation unchanged, or yields one whose angle to the up vector lies
/// within 85 degrees of level — between 5 and 175 degrees — so a look can
/// never flip past the pole in one accepted step.
pub proof fn lemma_vertical_clamp(c: Camera, rot_x: u32)
    ensures
        spec_after_pitch(c, rot_x) == c.orientation@ || spec_pitch_within_limits(
            spec_after_pitch(c, rot_x),
            c.up@,
        ),
{
}

impl Camera {
    /// A fresh camera for a viewport: three units back from the origin,
    /// looking down the negative depth axis, with the fixed up vector.
    pub fn new(width: u32, height: u32) -> (c: Camera)
        ensures
            c.width == width,
            c.height == height,
            c.position@ == seq![F32_ZERO, F32_ZERO, F32_THREE],
            c.orientation@ == seq![F32_ZERO, F32_ZERO, F32_NEG_ONE],
            c.up@ == seq![F32_ZERO, F32_ONE, F32_ZERO],
            c.speed == F32_QUARTER,
            c.sensitivity == F32_HUNDREDTH,
            c.first_click == true,
    {
        let c = Camera {
            width,
            height,
            position: [F32_ZERO, F32_ZERO, F32_THREE],
            orientation: [F32_ZERO, F32_ZERO, F32_NEG_ONE],
            up: [F32_ZERO, F32_ONE, F32_ZERO],
            speed: F32_QUARTER,
            sensitivity: F32_HUNDREDTH,
            first_click: true,
        };
        assert(c.position@ =~= seq![F32_ZERO, F32_ZERO, F32_THREE]);
        assert(c.orientation@ =~= seq![F32_ZERO, F32_ZERO, F32_NEG_ONE]);
        assert(c.up@ =~= seq![F32_ZERO, F32_ONE, F32_ZERO]);
        c
    }

    /// The commands that select a program and upload the combined
    /// view-projection matrix for the chosen projection. Must be issued
    /// once per program and projection mode right before the geometry
    /// that uses them. A perspective pass demands a positive field of
    /// view and viewport (the projection call asserts them).
    pub fn adjust(
        &self,
        program: u32,
        projection_type: ProjectionType,
        fov_deg: u32,
        near_plane: u32,
        far_plane: u32,
    ) -> (r: Vec<RenderCommand>)
        requires
            projection_type is Perspective ==> glmath::spec_positive_float_bits(fov_deg)
                && glmath::spec_positive_float_bits(self.width) && glmath::spec_positive_float_bits(
                self.height,
            ),
        ensures
            cmd_views(r@) == spec_adjust_cmds(
                *self,
                program,
                projection_type,
                fov_deg,
                near_plane,
                far_plane,
            ),
    {
        let matrix = match projection_type {
            ProjectionType::Perspective => {
                let projection = glmath::perspective_matrix(
                    fov_deg,
                    self.width,
                    self.height,
                    near_plane,
                    far_plane,
                );
                let center = glmath::vec3_add(&self.position, &self.orientation);
                let view = glmath::look_at_matrix(&self.position, &center, &self.up);
                glmath::mat4_mul(&projection, &view)
            },
            ProjectionType::Orthographic => glmath::ortho_matrix(
                F32_NEG_ONE,
                F32_ONE,
                F32_NEG_ONE,
                F32_ONE,
                F32_NEG_ONE,
                F32_ONE,
            ),
        };
        let r = vec![
            RenderCommand::UseProgram(program),
            RenderCommand::SetCamMatrix { program, matrix },
        ];
        assert(cmd_views(r@) =~= spec_adjust_cmds(
            *self,
            program,
            projection_type,
            fov_deg,
            near_plane,
            far_plane,
        ));
        r
    }

    /// Moves along the orientation, scaled by the speed.
    pub fn move_forward(&mut self)
        ensures
            spec_same_but_position(*old(self), *final(self)),
            final(self).position@ == glmath::spec_vec3_add(
                old(self).position@,
                glmath::spec_vec3_scale(old(self).speed, old(self).orientation@),
            ),
    {
        let step = glmath::vec3_scale(self.speed, &self.orientation);
        self.position = glmath::vec3_add(&self.position, &step);
    }

    /// Moves against the orientation, scaled by the speed.
    pub fn move_back(&mut self)
        ensures
            spec_same_but_position(*old(self), *final(self)),
            final(self).position@ == glmath::spec_vec3_sub(
                old(self).position@,
                glmath::spec_vec3_scale(old(self).speed, old(self).orientation@),
            ),
    {
        let step = glmath::vec3_scale(self.speed, &self.orientation);
        self.position = glmath::vec3_sub(&self.position, &step);
    }

    /// Moves along the negated right axis (the normalized cross product
    /// of orientation and up), scaled by the speed.
    pub fn move_left(&mut self)
        ensures
            spec_same_but_position(*old(self), *final(self)),
            final(self).position@ == glmath::spec_vec3_add(
                old(self).position@,
                glmath::spec_vec3_scale(
                    old(self).speed,
                    seq![
                        glmath::spec_vec3_normalize(
                            glmath::spec_vec3_cross(old(self).orientation@, old(self).up@),
                        )[0] ^ 0x8000_0000u32,
                        glmath::spec_vec3_normalize(
                            glmath::spec_vec3_cross(old(self).orientation@, old(self).up@),
                        )[1] ^ 0x8000_0000u32,
                        glmath::spec_vec3_normalize(
                            glmath::spec_vec3_cross(old(self).orientation@, old(self).up@),
                        )[2] ^ 0x8000_0000u32,
                    ],
                ),
            ),
    {
        let right = glmath::vec3_normalize(&glmath::vec3_cross(&self.orientation, &self.up));
        let left = glmath::vec3_neg(&right);
        let step = glmath::vec3_scale(self.speed, &left);
        self.position = glmath::vec3_add(&self.position, &step);
    }

    /// Moves along the right axis, scaled by the speed.
    pub fn move_right(&mut self)
        ensures
            spec_same_but_position(*old(self), *final(self)),
            final(self).position@ == glmath::spec_vec3_add(
                old(self).position@,
                glmath::spec_vec3_scale(
                    old(self).speed,
                    glmath::spec_vec3_normalize(
                        glmath::spec_vec3_cross(old(self).orientation@, old(self).up@),
                    ),
                ),
            ),
    {
        let right = glmath::vec3_normalize(&glmath::vec3_cross(&self.orientation, &self.up));
        let step = glmath::vec3_scale(self.speed, &right);
        self.position = glmath::vec3_add(&self.position, &step);
    }

    /// Moves along the up vector, scaled by the speed.
    pub fn move_up(&mut self)
        ensures
            spec_same_but_position(*old(self), *final(self)),
            final(self).position@ == glmath::spec_vec3_add(
                old(self).position@,
                glmath::spec_vec3_scale(old(self).speed, old(self).up@),
            ),
    {
        let step = glmath::vec3_scale(self.speed, &self.up);
        self.position = glmath::vec3_add(&self.position, &step);
    }

    /// Moves against the up vector, scaled by the speed.
    pub fn move_down(&mut self)
        ensures
            spec_same_but_position(*old(self), *final(self)),
            final(self).position@ == glmath::spec_vec3_sub(
                old(self).position@,
                glmath::spec_vec3_scale(old(self).speed, old(self).up@),
            ),
    {
        let step = glmath::vec3_scale(self.speed, &self.up);
        self.position = glmath::vec3_sub(&self.position, &step);
    }

    /// The run modifier: a pressed modifier raises the speed, a released
    /// one lowers it.
    pub fn set_run(&mut self, pressed: bool)
        ensures
            *final(self) == (Camera {
                speed: if pressed {
                    F32_FOUR_TENTHS
                } else {
                    F32_TENTH
                },
                ..*old(self)
            }),
    {
        self.speed = if pressed {
            F32_FOUR_TENTHS
        } else {
            F32_TENTH
        };
    }

    /// One mouse-look step from the normalized pixel deltas (each already
    /// scaled by the sensitivity): the clamped pitch step, then the yaw
    /// rotation about up.
    pub fn mouse_look(&mut self, rot_x: u32, rot_y: u32)
        ensures
            spec_same_but_orientation(*old(self), *final(self)),
            final(self).orientation@ == spec_after_mouse_look(*old(self), rot_x, rot_y),
    {
        let axis = glmath::vec3_normalize(&glmath::vec3_cross(&self.orientation, &self.up));
        let candidate = glmath::vec3_rotate(
            &self.orientation,
            glmath::f32_neg_bits(rot_x),
            &axis,
        );
        let angle = glmath::vec3_angle(&candidate, &self.up);
        if F32_RAD_5_DEG <= angle && angle <= F32_RAD_175_DEG {
            self.orientation = candidate;
        }
        let o = self.orientation;
        self.orientation = glmath::vec3_rotate(&o, glmath::f32_neg_bits(rot_y), &self.up);
    }

    /// Notes a primary-button press for mouse look; returns whether this
    /// press is the one that captures the cursor.
    pub fn begin_look(&mut self) -> (first: bool)
        ensures
            first == old(self).first_click,
            *final(self) == (Camera { first_click: false, ..*old(self) }),
    {
        let first = self.first_click;
        self.first_click = false;
        first
    }

    /// Notes the primary-button release: the next press captures again.
    pub fn end_look(&mut self)
        ensures
            *final(self) == (Camera { first_click: true, ..*old(self) }),
    {
        self.first_click = true;
    }
}

} // verus!
