use vstd::prelude::*;
use crate::geometry::Vertex;

verus! {

/// A triangle mesh under construction: its vertex list and its index list
/// (three indices per triangle, as the ray tracer reads them).
pub struct Mesh {
    vertices: Vec<Vertex>,
    faces: Vec<u16>,
}

impl View for Mesh {
    /// The vertex sequence and the index sequence, in insertion order.
    type V = (Seq<Vertex>, Seq<u16>);

    closed spec fn view(&self) -> (Seq<Vertex>, Seq<u16>) {
        (self.vertices@, self.faces@)
    }
}

impl Mesh {
    /// The vertices added so far, in the order they were added.
    pub fn vertices(&self) -> (r: &[Vertex])
        ensures
            r@ == self@.0,
    {
        self.vertices.as_slice()
    }

    /// The face indices added so far, in the order they were added.
    pub fn faces(&self) -> (r: &[u16])
        ensures
            r@ == self@.1,
    {
        self.faces.as_slice()
    }
}

impl Clone for Mesh {
    fn clone(&self) -> (r: Self)
        ensures
            r@ == self@,
    {
        let vertices = self.vertices.clone();
        let faces = self.faces.clone();
        assert(vertices@ =~= self.vertices@);
        assert(faces@ =~= self.faces@);
        Mesh { vertices, faces }
    }
}

/// A new mesh with no vertices and no faces.
pub fn create_mesh() -> (m: Mesh)
    ensures
        m@.0 == Seq::<Vertex>::empty(),
        m@.1 == Seq::<u16>::empty(),
{
    Mesh { vertices: Vec::new(), faces: Vec::new() }
}

/// Appends the vertex `(x, y, z)` to the mesh; the faces stay as they were.
pub fn add_mesh_vertex(mesh: &mut Mesh, x: u32, y: u32, z: u32)
    ensures
        final(mesh)@.0 == old(mesh)@.0.push(Vertex { x, y, z }),
        final(mesh)@.1 == old(mesh)@.1,
{
    mesh.vertices.push(Vertex { x, y, z });
}

/// Appends one face index to the mesh; the vertices stay as they were.
pub fn add_mesh_face(mesh: &mut Mesh, face: u16)
    ensures
        final(mesh)@.0 == old(mesh)@.0,
        final(mesh)@.1 == old(mesh)@.1.push(face),
{
    mesh.faces.push(face);
}

} // verus!
