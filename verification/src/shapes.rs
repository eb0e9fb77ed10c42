use vstd::prelude::*;

verus! {

/// Bit pattern of the single-precision number 0.
pub const ZERO: u32 = 0x0000_0000;

/// Bit pattern of the single-precision number 0.5.
pub const HALF: u32 = 0x3F00_0000;

/// Bit pattern of the single-precision number 1.
pub const ONE: u32 = 0x3F80_0000;

/// Bit pattern of the single-precision number -0.5.
pub const MINUS_HALF: u32 = 0xBF00_0000;

/// Bit pattern of the single-precision number -1.
pub const MINUS_ONE: u32 = 0xBF80_0000;

/// One corner of a 2D mesh: where it lies and which point of the texture
/// it shows. All four numbers are single-precision bit patterns.
#[derive(PartialEq, Eq, Clone, Copy, Debug)]
pub struct Vertex2D {
    pub position: [u32; 2],
    pub uv: [u32; 2],
}

/// The corner of a quad at (`x`, `y`) showing the texture at (`u`, `v`).
pub open spec fn corner(x: u32, y: u32, u: u32, v: u32, vertex: Vertex2D) -> bool {
    &&& vertex.position@ == seq![x, y]
    &&& vertex.uv@ == seq![u, v]
}

/// The four corners of the quad that reaches `size` to each side of the
/// origin and `low` (which is `-size`) to the other: bottom left, bottom
/// right, top left, top right, the texture's (0, 0) at the bottom left.
pub open spec fn is_quad(vertices: Seq<Vertex2D>, low: u32, size: u32) -> bool {
    &&& vertices.len() == 4
    &&& corner(low, low, ZERO, ZERO, vertices[0])
    &&& corner(size, low, ONE, ZERO, vertices[1])
    &&& corner(low, size, ZERO, ONE, vertices[2])
    &&& corner(size, size, ONE, ONE, vertices[3])
}

/// Vertices and indices of a triangle list, with the backend's handle.
pub struct Mesh {
    handle: u32,
    vertices: Vec<Vertex2D>,
    indices: Vec<u16>,
}

impl Mesh {
    /// The backend's handle of this mesh.
    pub closed spec fn spec_handle(&self) -> u32 {
        self.handle
    }

    pub closed spec fn vertices(&self) -> Seq<Vertex2D> {
        self.vertices@
    }

    pub closed spec fn indices(&self) -> Seq<u16> {
        self.indices@
    }

    /// A mesh of the given vertices and indices.
    pub fn new(handle: u32, vertices: Vec<Vertex2D>, indices: Vec<u16>) -> (mesh: Mesh)
        ensures
            mesh.spec_handle() == handle,
            mesh.vertices() == vertices@,
            mesh.indices() == indices@,
    {
        Mesh { handle, vertices, indices }
    }

    /// A quad of two triangles around the origin: from -0.5 to 0.5 in both
    /// directions if `half_size`, else from -1 to 1.
    pub fn create_quad(handle: u32, half_size: bool) -> (mesh: Mesh)
        ensures
            mesh.spec_handle() == handle,
            half_size ==> is_quad(mesh.vertices(), MINUS_HALF, HALF),
            !half_size ==> is_quad(mesh.vertices(), MINUS_ONE, ONE),
            mesh.indices() == seq![0u16, 1u16, 2u16, 2u16, 1u16, 3u16],
    {
        let size: u32 = if half_size {
            HALF
        } else {
            ONE
        };
        let low: u32 = if half_size {
            MINUS_HALF
        } else {
            MINUS_ONE
        };
        let mut vertices: Vec<Vertex2D> = Vec::new();
        vertices.push(Vertex2D { position: [low, low], uv: [ZERO, ZERO] });
        vertices.push(Vertex2D { position: [size, low], uv: [ONE, ZERO] });
        vertices.push(Vertex2D { position: [low, size], uv: [ZERO, ONE] });
        vertices.push(Vertex2D { position: [size, size], uv: [ONE, ONE] });

        let mut indices: Vec<u16> = Vec::new();
        indices.push(0);
        indices.push(1);
        indices.push(2);
        indices.push(2);
        indices.push(1);
        indices.push(3);

        Mesh::new(handle, vertices, indices)
    }

    /// The backend's handle of this mesh.
    pub fn handle(&self) -> (handle: u32)
        ensures
            handle == self.spec_handle(),
    {
        self.handle
    }

    pub fn vertex_buffer(&self) -> (vertices: &Vec<Vertex2D>)
        ensures
            vertices@ == self.vertices(),
    {
        &self.vertices
    }

    pub fn index_buffer(&self) -> (indices: &Vec<u16>)
        ensures
            indices@ == self.indices(),
    {
        &self.indices
    }
}

} // verus!
