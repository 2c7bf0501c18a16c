//! A small real-time rendering engine core: it decodes glTF scene assets
//! (binary buffers, accessors, node hierarchies) into GPU-ready meshes,
//! maintains first-person camera state, and sequences every frame's GPU
//! work as an explicit list of render commands.
//!
//! All scalar values that the GPU consumes as 32-bit floats are carried
//! here as their IEEE-754 bit patterns (`u32`), so that decoding and
//! sequencing are exact, bit-for-bit statements. The matrix and vector
//! arithmetic itself is delegated to `nalgebra_glm` behind a small set of
//! trusted wrappers, and the GPU calls themselves are delegated to the
//! embedding application, which executes the command lists this library
//! produces.

pub mod asset;
pub mod camera;
pub mod commands;
pub mod glmath;
pub mod jsonio;
pub mod mesh;
pub mod model;
pub mod renderer;
pub mod shape;
pub mod text;
pub mod texture;
pub mod types;
pub mod ui;

use vstd::prelude::*;

verus! {

/// The ways loading an asset can fail. Any of these aborts model
/// construction; no partial model is ever produced.
#[derive(Clone, Copy, PartialEq, Eq, Debug)]
pub enum GltfError {
    /// The scene description is not valid UTF-8 text.
    Utf8,
    /// The scene description is not valid JSON.
    Parse,
    /// A required field is absent or has the wrong type.
    MissingField,
    /// An accessor's element shape is none of SCALAR, VEC2, VEC3, VEC4.
    BadAccessorType,
    /// An index accessor's component type is not one of the supported codes.
    BadComponentType,
    /// A byte range demanded by an accessor lies outside the binary blob.
    OutOfBounds,
    /// A mesh's normal or texture-coordinate attribute covers fewer
    /// vertices than its position attribute.
    AttributeMismatch,
    /// The node hierarchy is deeper than the node count allows for a tree.
    DepthExceeded,
}

} // verus!
