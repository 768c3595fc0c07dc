//! Handles that name GPU-resident resources owned by the embedding renderer.

use vstd::prelude::*;

verus! {

/// Names a mesh in the mesh table.
#[derive(Clone, Copy, Debug, PartialEq, Eq, Structural)]
pub struct MeshHandle(pub usize);

/// Names a material in the material table.
#[derive(Clone, Copy, Debug, PartialEq, Eq, Structural)]
pub struct MaterialHandle(pub usize);

/// Names a bind group.
#[derive(Clone, Copy, Debug, PartialEq, Eq, Structural)]
pub struct BindGroupHandle(pub usize);

/// Names a buffer.
#[derive(Clone, Copy, Debug, PartialEq, Eq, Structural)]
pub struct BufferHandle(pub usize);

/// Names a compiled render or compute pipeline.
#[derive(Clone, Copy, Debug, PartialEq, Eq, Structural)]
pub struct PipelineHandle(pub usize);

} // verus!
