//! The frame renderer: owns the two shader programs (3D world and 2D UI),
//! the ready models and UI elements, and sequences every frame as a fixed
//! two-pass command list — clear, depth-tested 3D pass, depth clear, then
//! the UI pass with a per-element projection choice. Alpha blending is
//! enabled once at setup and stays on for both passes.

use vstd::prelude::*;
use crate::camera::{spec_adjust_cmds, spec_camera_matrix, Camera, ProjectionType};
use crate::commands::{cmd_views, RenderCommand, SpecCommand};
use crate::glmath;
use crate::glmath::QuatBits;
use crate::model::{spec_model_draw_cmds, Model};
use crate::shape::spec_shape_draw_cmds;
use crate::text::{spec_text_draw_cmds, spec_text_wf};
use crate::types;
use crate::types::{RotAxis, F32_FORTY_FIVE, F32_HUNDRED, F32_ONE, F32_TENTH, F32_ZERO, RGBA};

verus! {

/// The renderer's state: the two program handles and everything it draws.
pub struct Renderer {
    pub program_3d: u32,
    pub program_2d: u32,
    pub models: Vec<Model>,
    pub ui: Vec<types::Element>,
}

/// Every text element a renderer holds is GPU-ready.
pub open spec fn spec_renderer_wf(r: Renderer) -> bool {
    forall|i: int|
        0 <= i < r.ui@.len() ==> match #[trigger] r.ui@[i] {
            types::Element::Shape(_) => true,
            types::Element::Text(tb) => spec_text_wf(tb),
        }
}

/// The unit vector of a placement rotation axis.
pub open spec fn spec_axis_vector(axis: RotAxis) -> Seq<u32> {
    match axis {
        RotAxis::Pitch => seq![F32_ONE, F32_ZERO, F32_ZERO],
        RotAxis::Roll => seq![F32_ZERO, F32_ONE, F32_ZERO],
        RotAxis::Yaw => seq![F32_ZERO, F32_ZERO, F32_ONE],
    }
}

/// The quaternion of a placement rotation: an angle about one named axis.
pub fn placement_quat(angle: u32, axis: &RotAxis) -> (r: QuatBits)
    ensures
        r@ == glmath::spec_quat_angle_axis(angle, spec_axis_vector(*axis)),
{
    match axis {
        RotAxis::Pitch => {
            let v: [u32; 3] = [F32_ONE, F32_ZERO, F32_ZERO];
            assert(v@ =~= spec_axis_vector(RotAxis::Pitch));
            glmath::quat_angle_axis(angle, &v)
        },
        RotAxis::Roll => {
            let v: [u32; 3] = [F32_ZERO, F32_ONE, F32_ZERO];
            assert(v@ =~= spec_axis_vector(RotAxis::Roll));
            glmath::quat_angle_axis(angle, &v)
        },
        RotAxis::Yaw => {
            let v: [u32; 3] = [F32_ZERO, F32_ZERO, F32_ONE];
            assert(v@ =~= spec_axis_vector(RotAxis::Yaw));
            glmath::quat_angle_axis(angle, &v)
        },
    }
}

/// The projection a UI element selects at draw time: orthographic for a
/// HUD element, the camera's perspective otherwise.
pub open spec fn spec_element_projection(e: types::Element) -> ProjectionType {
    match e {
        types::Element::Shape(sb) => if sb.is_hud {
            ProjectionType::Orthographic
        } else {
            ProjectionType::Perspective
        },
        types::Element::Text(tb) => if tb.is_hud {
            ProjectionType::Orthographic
        } else {
            ProjectionType::Perspective
        },
    }
}

/// The commands of one UI element: the camera upload for the element's
/// projection on the UI program, then the element's own draw.
pub open spec fn spec_element_cmds(e: types::Element, camera: Camera, program: u32) -> Seq<
    SpecCommand,
> {
    spec_adjust_cmds(
        camera,
        program,
        spec_element_projection(e),
        F32_FORTY_FIVE,
        F32_TENTH,
        F32_HUNDRED,
    ) + (match e {
        types::Element::Shape(sb) => spec_shape_draw_cmds(sb, program),
        types::Element::Text(tb) => spec_text_draw_cmds(tb, program),
    })
}

/// The concatenated commands of the first `k` models of the 3D pass.
pub open spec fn spec_models_cmds(models: Seq<Model>, program: u32, k: int) -> Seq<SpecCommand>
    decreases k,
{
    if k <= 0 {
        Seq::empty()
    } else {
        spec_models_cmds(models, program, k - 1) + spec_model_draw_cmds(
            models[k - 1].meshes@,
            program,
            models[k - 1].position@,
            models[k - 1].scale@,
            models[k - 1].rotation@,
            models[k - 1].meshes@.len() as int,
        )
    }
}

/// The concatenated commands of the first `k` UI elements of the 2D pass.
pub open spec fn spec_ui_cmds(
    ui: Seq<types::Element>,
    camera: Camera,
    program: u32,
    k: int,
) -> Seq<SpecCommand>
    decreases k,
{
    if k <= 0 {
        Seq::empty()
    } else {
        spec_ui_cmds(ui, camera, program, k - 1) + spec_element_cmds(ui[k - 1], camera, program)
    }
}

/// One whole frame, in its fixed order: clear color and depth in the
/// world background color; upload the perspective camera matrix to the 3D
/// program; enable depth testing and draw every model; clear only the
/// depth buffer so the UI always draws on top; disable depth testing and
/// draw every UI element under its own projection on the 2D program.
pub open spec fn spec_frame_cmds(r: Renderer, world_color: RGBA, camera: Camera) -> Seq<
    SpecCommand,
> {
    seq![
        SpecCommand::ClearColor(world_color),
        SpecCommand::Clear { color: true, depth: true },
    ] + spec_adjust_cmds(
        camera,
        r.program_3d,
        ProjectionType::Perspective,
        F32_FORTY_FIVE,
        F32_TENTH,
        F32_HUNDRED,
    ) + seq![SpecCommand::SetDepthTest(true)] + spec_models_cmds(
        r.models@,
        r.program_3d,
        r.models@.len() as int,
    ) + seq![
        SpecCommand::Clear { color: false, depth: true },
        SpecCommand::SetDepthTest(false),
    ] + spec_ui_cmds(r.ui@, camera, r.program_2d, r.ui@.len() as int)
}

/// A HUD element's camera matrix does not depend on the camera at all:
/// two arbitrary camera states give the same orthographic matrix, so a
/// HUD element draws the same wherever the camera stands.
pub proof fn lemma_ortho_ignores_camera(
    c1: Camera,
    c2: Camera,
    fov_deg: u32,
    near_plane: u32,
    far_plane: u32,
)
    ensures
        spec_camera_matrix(c1, ProjectionType::Orthographic, fov_deg, near_plane, far_plane)
            == spec_camera_matrix(
            c2,
            ProjectionType::Orthographic,
            fov_deg,
            near_plane,
            far_plane,
        ),
{
}

/// Projection selection: the camera upload that precedes a UI element's
/// draw carries the orthographic matrix exactly when the element is
/// HUD-flagged, and the perspective matrix of the current camera state
/// otherwise.
pub proof fn lemma_hud_selects_projection(e: types::Element, camera: Camera, program: u32)
    ensures
        spec_element_cmds(e, camera, program)[1] == (SpecCommand::SetCamMatrix {
            program,
            matrix: spec_camera_matrix(
                camera,
                spec_element_projection(e),
                F32_FORTY_FIVE,
                F32_TENTH,
                F32_HUNDRED,
            ),
        }),
{
}

impl Renderer {
    /// Assembles a renderer from its compiled programs and ready scene,
    /// together with the one-time setup command that enables alpha
    /// blending for every frame.
    pub fn new(program_3d: u32, program_2d: u32, models: Vec<Model>, ui: Vec<types::Element>) -> (r:
        (Renderer, Vec<RenderCommand>))
        requires
            forall|i: int|
                0 <= i < ui@.len() ==> match #[trigger] ui@[i] {
                    types::Element::Shape(_) => true,
                    types::Element::Text(tb) => spec_text_wf(tb),
                },
        ensures
            r.0.program_3d == program_3d,
            r.0.program_2d == program_2d,
            r.0.models@ == models@,
            r.0.ui@ == ui@,
            spec_renderer_wf(r.0),
            cmd_views(r.1@) == seq![SpecCommand::EnableBlend],
    {
        let cmds = vec![RenderCommand::EnableBlend];
        assert(cmd_views(cmds@) =~= seq![SpecCommand::EnableBlend]);
        (Renderer { program_3d, program_2d, models, ui }, cmds)
    }

    /// The command list of one frame; see [`spec_frame_cmds`]. The 3D
    /// pass projects in perspective, so the camera's viewport must be
    /// positive.
    #[verifier::loop_isolation(false)]
    pub fn draw(&self, world_color: &RGBA, camera: &Camera) -> (r: Vec<RenderCommand>)
        requires
            spec_renderer_wf(*self),
            glmath::spec_positive_float_bits(camera.width),
            glmath::spec_positive_float_bits(camera.height),
        ensures
            cmd_views(r@) == spec_frame_cmds(*self, *world_color, *camera),
    {
        let mut r: Vec<RenderCommand> = Vec::new();
        r.push(RenderCommand::ClearColor(*world_color));
        r.push(RenderCommand::Clear { color: true, depth: true });
        let mut adjust_cmds = camera.adjust(
            self.program_3d,
            ProjectionType::Perspective,
            F32_FORTY_FIVE,
            F32_TENTH,
            F32_HUNDRED,
        );
        r.append(&mut adjust_cmds);
        r.push(RenderCommand::SetDepthTest(true));
        let ghost head = cmd_views(r@);
        proof {
            assert(head =~= seq![
                SpecCommand::ClearColor(*world_color),
                SpecCommand::Clear { color: true, depth: true },
            ] + spec_adjust_cmds(
                *camera,
                self.program_3d,
                ProjectionType::Perspective,
                F32_FORTY_FIVE,
                F32_TENTH,
                F32_HUNDRED,
            ) + seq![SpecCommand::SetDepthTest(true)]);
        }
        let mut i: usize = 0;
        while i < self.models.len()
            invariant
                i <= self.models@.len(),
                cmd_views(r@) == head + spec_models_cmds(self.models@, self.program_3d, i as int),
            decreases self.models@.len() - i,
        {
            let ghost before = cmd_views(r@);
            let mut cmds = self.models[i].draw(self.program_3d);
            let ghost dv = cmd_views(cmds@);
            r.append(&mut cmds);
            proof {
                assert(spec_models_cmds(self.models@, self.program_3d, i as int + 1)
                    == spec_models_cmds(self.models@, self.program_3d, i as int)
                    + spec_model_draw_cmds(
                    self.models@[i as int].meshes@,
                    self.program_3d,
                    self.models@[i as int].position@,
                    self.models@[i as int].scale@,
                    self.models@[i as int].rotation@,
                    self.models@[i as int].meshes@.len() as int,
                ));
                assert(cmd_views(r@) =~= before + dv);
                assert(cmd_views(r@) =~= head + (spec_models_cmds(
                    self.models@,
                    self.program_3d,
                    i as int,
                ) + dv));
            }
            i = i + 1;
        }
        r.push(RenderCommand::Clear { color: false, depth: true });
        r.push(RenderCommand::SetDepthTest(false));
        let ghost mid = cmd_views(r@);
        proof {
            assert(mid =~= head + spec_models_cmds(
                self.models@,
                self.program_3d,
                self.models@.len() as int,
            ) + seq![
                SpecCommand::Clear { color: false, depth: true },
                SpecCommand::SetDepthTest(false),
            ]);
        }
        let mut j: usize = 0;
        while j < self.ui.len()
            invariant
                j <= self.ui@.len(),
                cmd_views(r@) == mid + spec_ui_cmds(self.ui@, *camera, self.program_2d, j as int),
            decreases self.ui@.len() - j,
        {
            let ghost before = cmd_views(r@);
            match &self.ui[j] {
                types::Element::Shape(shape_instance) => {
                    let mut adjust = camera.adjust(
                        self.program_2d,
                        if shape_instance.is_hud {
                            ProjectionType::Orthographic
                        } else {
                            ProjectionType::Perspective
                        },
                        F32_FORTY_FIVE,
                        F32_TENTH,
                        F32_HUNDRED,
                    );
                    r.append(&mut adjust);
                    let mut cmds = shape_instance.draw(self.program_2d);
                    r.append(&mut cmds);
                },
                types::Element::Text(text_instance) => {
                    let mut adjust = camera.adjust(
                        self.program_2d,
                        if text_instance.is_hud {
                            ProjectionType::Orthographic
                        } else {
                            ProjectionType::Perspective
                        },
                        F32_FORTY_FIVE,
                        F32_TENTH,
                        F32_HUNDRED,
                    );
                    r.append(&mut adjust);
                    let mut cmds = text_instance.draw(self.program_2d);
                    r.append(&mut cmds);
                },
            }
            proof {
                assert(spec_ui_cmds(self.ui@, *camera, self.program_2d, j as int + 1)
                    == spec_ui_cmds(self.ui@, *camera, self.program_2d, j as int)
                    + spec_element_cmds(self.ui@[j as int], *camera, self.program_2d));
                assert(cmd_views(r@) =~= before + spec_element_cmds(
                    self.ui@[j as int],
                    *camera,
                    self.program_2d,
                ));
                assert(cmd_views(r@) =~= mid + (spec_ui_cmds(
                    self.ui@,
                    *camera,
                    self.program_2d,
                    j as int,
                ) + spec_element_cmds(self.ui@[j as int], *camera, self.program_2d)));
            }
            j = j + 1;
        }
        assert(cmd_views(r@) =~= spec_frame_cmds(*self, *world_color, *camera));
        r
    }

    /// The command that resizes the viewport to a new window size.
    pub fn resize(&self, width: i32, height: i32) -> (r: Vec<RenderCommand>)
        ensures
            cmd_views(r@) == seq![
                SpecCommand::Viewport { x: 0, y: 0, width, height },
            ],
    {
        let r = vec![RenderCommand::Viewport { x: 0, y: 0, width, height }];
        assert(cmd_views(r@) =~= seq![SpecCommand::Viewport { x: 0, y: 0, width, height }]);
        r
    }
}

} // verus!
