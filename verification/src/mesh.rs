use vstd::prelude::*;

verus! {

/// One face of a mesh: the indices of its corners among the vertices.
#[derive(Default, Clone)]
pub struct Face {
    pub indices: Vec<u32>,
}

/// A mesh with vertices of type `V`.
pub struct Mesh<V> {
    pub(crate) name: String,
    pub(crate) vertices: Vec<V>,
    pub(crate) faces: Vec<Face>,
}

/// The indices of the first `count` faces, one face after the other.
pub open spec fn flat_indices(faces: Seq<Face>, count: nat) -> Seq<u32>
    decreases count,
{
    if count == 0 {
        Seq::empty()
    } else {
        flat_indices(faces, (count - 1) as nat) + faces[count - 1].indices@
    }
}

/// Every face is a triangle.
pub open spec fn is_triangulated(faces: Seq<Face>) -> bool {
    forall|i: int| 0 <= i < faces.len() ==> (#[trigger] faces[i]).indices@.len() == 3
}

/// The faces of a triangulated mesh have three indices each, so the index
/// list of the first `count` of them has three times `count`.
pub proof fn lemma_triangulated_indices(faces: Seq<Face>, count: nat)
    requires
        is_triangulated(faces),
        count <= faces.len(),
    ensures
        flat_indices(faces, count).len() == 3 * count,
        flat_indices(faces, count).len() % 3 == 0,
    decreases count,
{
    if count > 0 {
        lemma_triangulated_indices(faces, (count - 1) as nat);
        assert(faces[count - 1].indices@.len() == 3);
    }
}

impl<V> Mesh<V> {
    pub open(crate) spec fn name_view(&self) -> Seq<char> {
        self.name@
    }

    pub open(crate) spec fn vertices_view(&self) -> Seq<V> {
        self.vertices@
    }

    pub open(crate) spec fn faces_view(&self) -> Seq<Face> {
        self.faces@
    }

    pub fn new(name: String, vertices: Vec<V>, faces: Vec<Face>) -> (r: Self)
        ensures
            r.name_view() == name@,
            r.vertices_view() == vertices@,
            r.faces_view() == faces@,
    {
        Mesh { name, vertices, faces }
    }

    pub fn name(&self) -> (r: &String)
        ensures
            r@ == self.name_view(),
    {
        &self.name
    }

    pub fn vertices(&self) -> (r: &Vec<V>)
        ensures
            r@ == self.vertices_view(),
    {
        &self.vertices
    }

    pub fn faces(&self) -> (r: &Vec<Face>)
        ensures
            r@ == self.faces_view(),
    {
        &self.faces
    }

    /// The index buffer of the mesh: the indices of every face, one face
    /// after the other.
    pub fn indices(&self) -> (r: Vec<u32>)
        ensures
            r@ == flat_indices(self.faces_view(), self.faces_view().len()),
    {
        let mut indices: Vec<u32> = Vec::new();
        let mut i: usize = 0;
        while i < self.faces.len()
            invariant
                i <= self.faces@.len(),
                indices@ == flat_indices(self.faces@, i as nat),
            decreases self.faces@.len() - i,
        {
            let face = &self.faces[i];
            let mut j: usize = 0;
            while j < face.indices.len()
                invariant
                    i < self.faces@.len(),
                    *face == self.faces@[i as int],
                    j <= face.indices@.len(),
                    indices@ == flat_indices(self.faces@, i as nat) + face.indices@.take(j as int),
                decreases face.indices@.len() - j,
            {
                indices.push(face.indices[j]);
                j += 1;
            }
            assert(face.indices@.take(face.indices@.len() as int) == face.indices@);
            i += 1;
        }
        indices
    }
}

} // verus!
