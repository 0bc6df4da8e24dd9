//! Meshes and the staging-upload plan.
//!
//! A mesh owns a vertex buffer, an index buffer and an index count. Its
//! data is uploaded once through a host-visible staging buffer holding the
//! vertex bytes followed by the index bytes, then copied region by region
//! into the two device-local buffers. The byte layout of that upload is
//! planned here; the allocation, mapping and copy commands are the shell's.

use vstd::prelude::*;

verus! {

/// Byte stride of one vertex: a three-component position and a
/// three-component normal of four bytes per component.
pub const VERTEX_STRIDE: u32 = 24;

/// Byte offset of the position within a vertex.
pub const VERTEX_POSITION_OFFSET: u32 = 0;

/// Byte offset of the normal within a vertex.
pub const VERTEX_NORMAL_OFFSET: u32 = 12;

/// Format code of a three-component 32-bit float attribute
/// (`VK_FORMAT_R32G32B32_SFLOAT`).
pub const FORMAT_R32G32B32_SFLOAT: u32 = 106;

/// Byte size of one 16-bit vertex index.
pub const INDEX_SIZE: u32 = 2;

/// How one vertex buffer is bound: which binding slot and the byte stride
/// from one vertex to the next.
#[derive(Clone, Copy, Debug, PartialEq, Eq, Structural)]
pub struct VertexBindingDescription {
    pub binding: u32,
    pub stride: u32,
}

/// One vertex attribute: its shader location, the binding it reads, its
/// format and its byte offset within the vertex.
#[derive(Clone, Copy, Debug, PartialEq, Eq, Structural)]
pub struct VertexAttributeDescription {
    pub location: u32,
    pub binding: u32,
    pub format: u32,
    pub offset: u32,
}

/// The one vertex-buffer binding of the geometry pipeline.
pub fn vertex_binding_descriptions() -> (r: Vec<VertexBindingDescription>)
    ensures
        r@.len() == 1,
        r@[0] == (VertexBindingDescription { binding: 0, stride: VERTEX_STRIDE }),
{
    let mut r: Vec<VertexBindingDescription> = Vec::new();
    r.push(VertexBindingDescription { binding: 0, stride: VERTEX_STRIDE });
    r
}

/// The two vertex attributes of the geometry pipeline: position at offset
/// zero and normal right after it, both three 32-bit floats.
pub fn vertex_attribute_descriptions() -> (r: Vec<VertexAttributeDescription>)
    ensures
        r@.len() == 2,
        r@[0] == (VertexAttributeDescription {
            location: 0,
            binding: 0,
            format: FORMAT_R32G32B32_SFLOAT,
            offset: VERTEX_POSITION_OFFSET,
        }),
        r@[1] == (VertexAttributeDescription {
            location: 1,
            binding: 0,
            format: FORMAT_R32G32B32_SFLOAT,
            offset: VERTEX_NORMAL_OFFSET,
        }),
{
    let mut r: Vec<VertexAttributeDescription> = Vec::new();
    r.push(
        VertexAttributeDescription {
            location: 0,
            binding: 0,
            format: FORMAT_R32G32B32_SFLOAT,
            offset: VERTEX_POSITION_OFFSET,
        },
    );
    r.push(
        VertexAttributeDescription {
            location: 1,
            binding: 0,
            format: FORMAT_R32G32B32_SFLOAT,
            offset: VERTEX_NORMAL_OFFSET,
        },
    );
    r
}

/// One region of the staging copy: where the bytes start in the staging
/// buffer, where they land in the destination buffer, and how many.
#[derive(Clone, Copy, Debug, PartialEq, Eq, Structural)]
pub struct BufferCopyRegion {
    pub src_offset: u64,
    pub dst_offset: u64,
    pub size: u64,
}

/// The byte layout of one mesh upload: the sizes of the three buffers and
/// the two copy regions from the staging buffer.
#[derive(Clone, Copy, Debug, PartialEq, Eq, Structural)]
pub struct MeshUploadPlan {
    pub vertex_buffer_size: u64,
    pub index_buffer_size: u64,
    pub staging_buffer_size: u64,
    pub vertex_copy: BufferCopyRegion,
    pub index_copy: BufferCopyRegion,
}

/// The staging layout fits in 64-bit sizes.
pub open spec fn upload_sizes_fit(vertex_count: usize, index_count: usize) -> bool {
    vertex_count * VERTEX_STRIDE + index_count * INDEX_SIZE <= u64::MAX
}

/// Plans one mesh upload: the vertex bytes occupy the front of the staging
/// buffer and copy to offset zero of the vertex buffer; the index bytes
/// follow them and copy to offset zero of the index buffer. Returns
/// nothing exactly when the byte sizes overflow.
pub fn plan_mesh_upload(vertex_count: usize, index_count: usize) -> (r: Option<MeshUploadPlan>)
    ensures
        r is Some <==> upload_sizes_fit(vertex_count, index_count),
        r matches Some(p) ==> {
            &&& p.vertex_buffer_size == vertex_count * VERTEX_STRIDE
            &&& p.index_buffer_size == index_count * INDEX_SIZE
            &&& p.staging_buffer_size == p.vertex_buffer_size + p.index_buffer_size
            &&& p.vertex_copy == (BufferCopyRegion {
                src_offset: 0,
                dst_offset: 0,
                size: p.vertex_buffer_size,
            })
            &&& p.index_copy == (BufferCopyRegion {
                src_offset: p.vertex_buffer_size,
                dst_offset: 0,
                size: p.index_buffer_size,
            })
        },
{
    let vertex_bytes: Option<u64> = (vertex_count as u64).checked_mul(VERTEX_STRIDE as u64);
    let index_bytes: Option<u64> = (index_count as u64).checked_mul(INDEX_SIZE as u64);
    match (vertex_bytes, index_bytes) {
        (Some(vb), Some(ib)) => match vb.checked_add(ib) {
            Some(total) => Some(
                MeshUploadPlan {
                    vertex_buffer_size: vb,
                    index_buffer_size: ib,
                    staging_buffer_size: total,
                    vertex_copy: BufferCopyRegion { src_offset: 0, dst_offset: 0, size: vb },
                    index_copy: BufferCopyRegion { src_offset: vb, dst_offset: 0, size: ib },
                },
            ),
            None => None,
        },
        _ => None,
    }
}

/// A mesh: the shell's opaque handles of its two device-local buffers, and
/// how many indices to draw.
#[derive(Clone, Copy, Debug, PartialEq, Eq, Structural)]
pub struct Mesh {
    pub vertex_buffer: u64,
    pub index_buffer: u64,
    pub index_count: u32,
}

impl Mesh {
    /// Wraps the uploaded buffers as a mesh.
    pub fn new(vertex_buffer: u64, index_buffer: u64, index_count: u32) -> (r: Self)
        ensures
            r.vertex_buffer == vertex_buffer,
            r.index_buffer == index_buffer,
            r.index_count == index_count,
    {
        Mesh { vertex_buffer, index_buffer, index_count }
    }

    /// How many indices a draw of this mesh consumes.
    pub fn index_count(&self) -> (r: u32)
        ensures
            r == self.index_count,
    {
        self.index_count
    }

    /// Handle of the vertex buffer.
    pub fn vertex_buffer(&self) -> (r: u64)
        ensures
            r == self.vertex_buffer,
    {
        self.vertex_buffer
    }

    /// Handle of the index buffer.
    pub fn index_buffer(&self) -> (r: u64)
        ensures
            r == self.index_buffer,
    {
        self.index_buffer
    }
}

/// One entry of the recorded draw list: the buffers to bind, the byte
/// offset to bind the vertex buffer at, and the index count to draw.
#[derive(Clone, Copy, Debug, PartialEq, Eq, Structural)]
pub struct MeshDraw {
    pub vertex_buffer: u64,
    pub index_buffer: u64,
    pub vertex_offset: u64,
    pub index_count: u32,
}

/// The draw-list entry recorded for a mesh: its buffers at offset zero and
/// its full index count.
pub open spec fn spec_mesh_draw(m: Mesh) -> MeshDraw {
    MeshDraw {
        vertex_buffer: m.vertex_buffer,
        index_buffer: m.index_buffer,
        vertex_offset: 0,
        index_count: m.index_count,
    }
}

} // verus!
