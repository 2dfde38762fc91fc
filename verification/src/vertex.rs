//! Vertex buffers as per-frame GPU allocations.
//!
//! Vertex data is uploaded afresh every frame (it may be dynamic, such as
//! particle positions), so a buffer is identified by the frame it was
//! allocated in and a counter that is fresh within that frame. The bytes
//! themselves live on the GPU and are not part of the model.

use vstd::prelude::*;

verus! {

/// Handle to a vertex buffer uploaded for one frame.
#[derive(Clone, Copy, PartialEq, Eq, Structural, Debug)]
pub struct VertexBuffer {
    /// Allocation counter within the frame; distinct per upload.
    pub id: u64,
    /// The frame this buffer was uploaded in.
    pub frame: u64,
    /// Number of vertices uploaded.
    pub len: usize,
}

/// Allocates vertex buffers for the current frame; reset at frame start.
#[derive(Clone, Copy, PartialEq, Eq, Structural, Debug)]
pub struct BufferAllocator {
    /// The frame allocations are stamped with.
    pub frame: u64,
    /// Next free allocation counter.
    pub next_id: u64,
}

/// Upload `vertex_count` vertices, producing a buffer that no other upload
/// of any frame shares.
pub fn vertex_buffer(alloc: &mut BufferAllocator, vertex_count: usize) -> (r: VertexBuffer)
    requires
        old(alloc).next_id < u64::MAX,
    ensures
        r == (VertexBuffer { id: old(alloc).next_id, frame: old(alloc).frame, len: vertex_count }),
        *final(alloc) == (BufferAllocator { frame: old(alloc).frame, next_id: (old(alloc).next_id + 1) as u64 }),
{
    let id = alloc.next_id;
    alloc.next_id = alloc.next_id + 1;
    VertexBuffer { id, frame: alloc.frame, len: vertex_count }
}

} // verus!
