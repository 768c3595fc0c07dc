//! What a frame hands to the culling and draw routines: the camera, the
//! scene objects, and the tables of GPU-resident meshes and materials.

use vstd::prelude::*;
use crate::frustum::{BoundingSphere, Frustum};
use crate::handles::{BindGroupHandle, BufferHandle, MaterialHandle, MeshHandle};
use crate::mode::{ModeData, RendererMode};
use crate::recorder::{RenderCommand, RenderPass};

verus! {

/// The camera of one frame, as culling sees it: its view volume.
#[derive(Clone, Copy, Debug, PartialEq, Eq, Structural)]
pub struct CameraManager {
    frustum: Frustum,
}

impl CameraManager {
    /// A camera that sees the given volume.
    pub fn new(frustum: Frustum) -> (camera: CameraManager)
        ensures
            camera.spec_frustum() == frustum,
    {
        CameraManager { frustum }
    }

    /// The view volume.
    pub closed spec fn spec_frustum(&self) -> Frustum {
        self.frustum
    }

    /// The view volume.
    #[verifier::when_used_as_spec(spec_frustum)]
    pub fn frustum(&self) -> (frustum: Frustum)
        ensures
            frustum == self.spec_frustum(),
    {
        self.frustum
    }
}

/// One scene object: what to draw, with which material, and where it is.
/// An object is identified by its position in the frame's object list.
#[derive(Clone, Copy, Debug, PartialEq, Eq, Structural)]
pub struct InternalObject {
    pub mesh: MeshHandle,
    pub material: MaterialHandle,
    /// The object's bounding sphere in world coordinates.
    pub bounds: BoundingSphere,
}

/// Where a mesh lies in the shared vertex and index buffers.
#[derive(Clone, Copy, Debug, PartialEq, Eq, Structural)]
pub struct MeshRange {
    pub first_index: u32,
    pub index_count: u32,
    pub base_vertex: i32,
}

/// The shared vertex and index buffers and the table of resident meshes.
pub struct MeshBuffers {
    vertex_buffer: BufferHandle,
    index_buffer: BufferHandle,
    ranges: Vec<Option<MeshRange>>,
}

/// The vertex-buffer slot that [`MeshBuffers::bind`] fills.
pub const VERTEX_BUFFER_SLOT: u32 = 0;

impl MeshBuffers {
    /// The table in which mesh `n` is resident with range `r` exactly when
    /// entry `n` of `ranges` is `Some(r)`.
    pub fn new(
        vertex_buffer: BufferHandle,
        index_buffer: BufferHandle,
        ranges: Vec<Option<MeshRange>>,
    ) -> (meshes: MeshBuffers)
        ensures
            meshes.vertex_buffer() == vertex_buffer,
            meshes.index_buffer() == index_buffer,
            meshes.ranges() == ranges@,
    {
        MeshBuffers { vertex_buffer, index_buffer, ranges }
    }

    /// The buffer that holds the vertices of all meshes.
    pub closed spec fn vertex_buffer(&self) -> BufferHandle {
        self.vertex_buffer
    }

    /// The buffer that holds the indices of all meshes.
    pub closed spec fn index_buffer(&self) -> BufferHandle {
        self.index_buffer
    }

    /// The table's entries, by mesh handle.
    pub closed spec fn ranges(&self) -> Seq<Option<MeshRange>> {
        self.ranges@
    }

    /// The range of a mesh, or `None` where the handle names no resident
    /// mesh.
    pub open spec fn resolve(&self, mesh: MeshHandle) -> Option<MeshRange> {
        if mesh.0 < self.ranges().len() {
            self.ranges()[mesh.0 as int]
        } else {
            None
        }
    }

    /// Looks up the range of a mesh.
    pub fn lookup(&self, mesh: MeshHandle) -> (range: Option<MeshRange>)
        ensures
            range == self.resolve(mesh),
    {
        if mesh.0 < self.ranges.len() {
            self.ranges[mesh.0]
        } else {
            None
        }
    }

    /// The commands that [`MeshBuffers::bind`] records.
    pub open spec fn bind_commands(&self) -> Seq<RenderCommand> {
        seq![
            RenderCommand::SetVertexBuffer { slot: VERTEX_BUFFER_SLOT, buffer: self.vertex_buffer() },
            RenderCommand::SetIndexBuffer { buffer: self.index_buffer() },
        ]
    }

    /// Binds the shared vertex and index buffers for the draws that follow.
    pub fn bind(&self, rpass: &mut RenderPass)
        ensures
            final(rpass)@ == old(rpass)@ + self.bind_commands(),
    {
        rpass.set_vertex_buffer(VERTEX_BUFFER_SLOT, self.vertex_buffer);
        rpass.set_index_buffer(self.index_buffer);
    }
}

/// The table of resident materials.
///
/// Under the host strategy each material has a bind group of its own. Under
/// the device strategy the whole table is also visible to shaders through one
/// bind group.
pub struct MaterialManager {
    bind_groups: Vec<Option<BindGroupHandle>>,
    table: ModeData<(), BindGroupHandle>,
}

impl MaterialManager {
    /// The table in which material `n` is resident with bind group `g`
    /// exactly when entry `n` of `bind_groups` is `Some(g)`.
    pub fn new(bind_groups: Vec<Option<BindGroupHandle>>, table: ModeData<(), BindGroupHandle>) -> (materials:
        MaterialManager)
        ensures
            materials.bind_groups() == bind_groups@,
            materials.table() == table,
    {
        MaterialManager { bind_groups, table }
    }

    /// The table's entries, by material handle.
    pub closed spec fn bind_groups(&self) -> Seq<Option<BindGroupHandle>> {
        self.bind_groups@
    }

    /// The binding through which shaders see the whole table; present under
    /// the device strategy only.
    pub closed spec fn table(&self) -> ModeData<(), BindGroupHandle> {
        self.table
    }

    /// The bind group of a material, or `None` where the handle names no
    /// resident material.
    pub open spec fn resolve(&self, material: MaterialHandle) -> Option<BindGroupHandle> {
        if material.0 < self.bind_groups().len() {
            self.bind_groups()[material.0 as int]
        } else {
            None
        }
    }

    /// Looks up the bind group of a material.
    pub fn lookup(&self, material: MaterialHandle) -> (group: Option<BindGroupHandle>)
        ensures
            group == self.resolve(material),
    {
        if material.0 < self.bind_groups.len() {
            self.bind_groups[material.0]
        } else {
            None
        }
    }

    /// The bind group of a resident material.
    pub fn cpu_get_bind_group(&self, material: MaterialHandle) -> (group: BindGroupHandle)
        requires
            self.resolve(material) is Some,
        ensures
            self.resolve(material) == Some(group),
    {
        self.bind_groups[material.0].unwrap()
    }

    /// The strategy that the table was built for.
    pub fn mode(&self) -> (mode: RendererMode)
        ensures
            mode == self.table().mode(),
    {
        self.table.mode()
    }

    /// The binding through which shaders see the whole table.
    pub fn gpu_get_bind_group(&self) -> (group: BindGroupHandle)
        requires
            self.table() is GPU,
        ensures
            self.table() == ModeData::<(), BindGroupHandle>::GPU(group),
    {
        *self.table.as_gpu()
    }
}

/// The samplers shared by every pass.
#[derive(Clone, Copy, Debug, PartialEq, Eq, Structural)]
pub struct Samplers {
    /// The bind group with the linear and the nearest sampler.
    pub linear_nearest_bg: BindGroupHandle,
}

} // verus!
