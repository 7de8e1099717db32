//! Triangle meshes, as far as the scene's bookkeeping reads them.

use vstd::prelude::*;

verus! {

/// The three vertex indices of a face.
#[derive(Clone, Copy, Debug, PartialEq, Eq, Structural)]
pub struct Face {
    pub a: u32,
    pub b: u32,
    pub c: u32,
}

/// The faces that a list of vertex indices describes, three indices to a
/// face; one or two indices left at the end describe none.
pub open spec fn faces_of(indices: Seq<u32>) -> Seq<Face> {
    Seq::new(
        (indices.len() / 3) as nat,
        |i: int| Face { a: indices[3 * i], b: indices[3 * i + 1], c: indices[3 * i + 2] },
    )
}

/// A mesh of triangles. The host keeps the vertices; the mesh knows its
/// faces and the texture that masks it, a slot among the single-channel
/// images.
#[derive(Clone, Debug, PartialEq, Eq)]
pub struct TriangleMesh {
    pub faces: Vec<Face>,
    pub alpha_mask: Option<usize>,
}

/// One triangle: a face of a mesh, the mesh given by its place among the
/// meshes of the scene.
#[derive(Clone, Copy, Debug, PartialEq, Eq, Structural)]
pub struct Triangle {
    pub mesh: usize,
    pub face: usize,
}

/// The faces that `indices` describes.
pub fn faces_from_indices(indices: &Vec<u32>) -> (faces: Vec<Face>)
    ensures
        faces@ == faces_of(indices@),
{
    let n: usize = indices.len() / 3;
    let mut faces: Vec<Face> = Vec::new();
    let mut i: usize = 0;
    while i < n
        invariant
            n == indices@.len() / 3,
            3 * n <= indices@.len() <= usize::MAX,
            i <= n,
            faces@.len() == i,
            forall|j: int| 0 <= j < i ==> faces@[j] == faces_of(indices@)[j],
        decreases n - i,
    {
        faces.push(Face { a: indices[3 * i], b: indices[3 * i + 1], c: indices[3 * i + 2] });
        i = i + 1;
    }
    assert(faces@ =~= faces_of(indices@));
    faces
}

/// The triangles of the mesh at place `mesh`, which has `n` faces, in the
/// order of its faces.
pub open spec fn triangles_of(mesh: usize, n: nat) -> Seq<Triangle> {
    Seq::new(n, |i: int| Triangle { mesh, face: i as usize })
}

/// The triangles of a mesh, one for each face.
pub fn triangles_from_mesh(mesh: &TriangleMesh, place: usize) -> (triangles: Vec<Triangle>)
    ensures
        triangles@ == triangles_of(place, mesh.faces@.len()),
{
    let n: usize = mesh.faces.len();
    let mut triangles: Vec<Triangle> = Vec::new();
    let mut i: usize = 0;
    while i < n
        invariant
            n == mesh.faces@.len(),
            i <= n,
            triangles@.len() == i,
            forall|j: int| 0 <= j < i ==> triangles@[j] == (Triangle { mesh: place, face: j as usize }),
        decreases n - i,
    {
        triangles.push(Triangle { mesh: place, face: i });
        i = i + 1;
    }
    assert(triangles@ =~= triangles_of(place, mesh.faces@.len()));
    triangles
}

} // verus!
