use vstd::prelude::*;

verus! {

/// How raw coordinates map to a vertex attribute: the component count per
/// vertex, tightly packed (stride 0) at offset 0, values taken as-is
/// (not normalized).
#[derive(Clone, Copy, Debug, PartialEq, Eq, Structural)]
pub struct VertexLayout {
    pub components_per_vertex: usize,
    pub normalized: bool,
    pub stride: i32,
    pub offset: i32,
}

/// The model of the GPU-resident geometry buffer: the flat coordinate
/// sequence that was copied to the device, in pixel space, together with the
/// component count per vertex.
pub struct GeometryBuffer {
    pub coords: Vec<i32>,
    pub components_per_vertex: usize,
}

impl GeometryBuffer {
    /// A buffer is well-formed when it holds at least one whole vertex:
    /// a non-empty coordinate sequence whose length is a multiple of the
    /// component count.
    pub open spec fn wf(self) -> bool {
        &&& self.coords@.len() > 0
        &&& self.components_per_vertex > 0
        &&& self.coords@.len() as int % self.components_per_vertex as int == 0
    }

    /// How many vertices the buffer holds.
    pub open spec fn spec_vertex_count(self) -> int {
        self.coords@.len() as int / self.components_per_vertex as int
    }

    /// Uploads a flat coordinate sequence as one static, write-once buffer.
    /// The device copy holds exactly the given coordinates, read back
    /// `components_per_vertex` at a time.
    pub fn upload(coords: Vec<i32>, components_per_vertex: usize) -> (r: GeometryBuffer)
        requires
            coords@.len() > 0,
            components_per_vertex > 0,
            coords@.len() as int % components_per_vertex as int == 0,
        ensures
            r.wf(),
            r.coords@ == coords@,
            r.components_per_vertex == components_per_vertex,
    {
        GeometryBuffer { coords, components_per_vertex }
    }

    /// The vertex count that sizes the draw call.
    pub fn vertex_count(&self) -> (r: usize)
        requires
            self.wf(),
        ensures
            r == self.spec_vertex_count(),
    {
        self.coords.len() / self.components_per_vertex
    }

    /// The layout descriptor paired with this buffer: its component count,
    /// tightly packed, unnormalized, at offset 0.
    pub fn layout(&self) -> (r: VertexLayout)
        requires
            self.wf(),
        ensures
            r.components_per_vertex == self.components_per_vertex,
            !r.normalized,
            r.stride == 0,
            r.offset == 0,
    {
        VertexLayout {
            components_per_vertex: self.components_per_vertex,
            normalized: false,
            stride: 0,
            offset: 0,
        }
    }
}

/// The literal triangle embedded in the entry point: three 2-D points in
/// pixel space, as one flat coordinate sequence.
pub fn triangle_vertices() -> (r: Vec<i32>)
    ensures
        r@ == seq![100i32, 100i32, 300i32, 100i32, 200i32, 200i32],
{
    let v: Vec<i32> = vec![100, 100, 300, 100, 200, 200];
    proof {
        assert(v@ =~= seq![100i32, 100i32, 300i32, 100i32, 200i32, 200i32]);
    }
    v
}

} // verus!
