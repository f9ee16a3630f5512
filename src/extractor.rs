use vstd::prelude::*;

verus! {

/// Vertex positions and their normals, index by index.
pub struct SeparateNormals<P> {
    pub positions: Vec<P>,
    pub normals: Vec<P>,
}

/// An indexed triangle mesh: vertices with normals, and triangles as
/// triples of vertex indices.
pub struct IndexedSeparateNormals<P> {
    pub vertices: SeparateNormals<P>,
    pub faces: Vec<[u32; 3]>,
}

/// A triangle whose indices all name vertices of a buffer of `n` vertices.
pub open spec fn face_in_range(face: [u32; 3], n: nat) -> bool {
    face[0] < n && face[1] < n && face[2] < n
}

/// A triangle with its winding reversed: first and last index swapped.
pub open spec fn reversed(face: [u32; 3]) -> [u32; 3] {
    [face[2], face[1], face[0]]
}

impl<P> IndexedSeparateNormals<P> {
    /// Each position has its normal, and each triangle names existing vertices.
    pub open spec fn wf(&self) -> bool {
        &&& self.vertices.positions@.len() == self.vertices.normals@.len()
        &&& forall|i: int|
            0 <= i < self.faces@.len() ==> face_in_range(
                #[trigger] self.faces@[i],
                self.vertices.positions@.len(),
            )
    }

    /// An empty mesh.
    pub fn new() -> (r: Self)
        ensures
            r.wf(),
            r.vertices.positions@.len() == 0,
            r.vertices.normals@.len() == 0,
            r.faces@.len() == 0,
    {
        IndexedSeparateNormals {
            vertices: SeparateNormals { positions: Vec::new(), normals: Vec::new() },
            faces: Vec::new(),
        }
    }

    /// The number of vertices.
    pub fn vertex_count(&self) -> (r: usize)
        ensures
            r == self.vertices.positions@.len(),
    {
        self.vertices.positions.len()
    }

    /// Appends a vertex and its normal at the same index.
    pub fn push_vertex(&mut self, position: P, normal: P)
        requires
            old(self).wf(),
        ensures
            final(self).wf(),
            final(self).vertices.positions@ == old(self).vertices.positions@.push(position),
            final(self).vertices.normals@ == old(self).vertices.normals@.push(normal),
            final(self).faces@ == old(self).faces@,
    {
        self.vertices.positions.push(position);
        self.vertices.normals.push(normal);
        assert forall|i: int| 0 <= i < self.faces@.len() implies face_in_range(
            #[trigger] self.faces@[i],
            self.vertices.positions@.len(),
        ) by {
            assert(face_in_range(old(self).faces@[i], old(self).vertices.positions@.len()));
        }
    }

    /// Appends a triangle, reversed where its plane normal disagrees with
    /// the averaged normal of its vertices.
    pub fn push_face(&mut self, face: [u32; 3], disagrees: bool)
        requires
            old(self).wf(),
            face_in_range(face, old(self).vertices.positions@.len()),
        ensures
            final(self).wf(),
            final(self).vertices == old(self).vertices,
            final(self).faces@ == old(self).faces@.push(oriented_spec(face, disagrees)),
    {
        let f = oriented_face(face, disagrees);
        self.faces.push(f);
        assert forall|i: int| 0 <= i < self.faces@.len() implies face_in_range(
            #[trigger] self.faces@[i],
            self.vertices.positions@.len(),
        ) by {
            if i < old(self).faces@.len() {
                assert(face_in_range(old(self).faces@[i], old(self).vertices.positions@.len()));
            }
        }
    }
}

pub open spec fn oriented_spec(face: [u32; 3], disagrees: bool) -> [u32; 3] {
    if disagrees {
        reversed(face)
    } else {
        face
    }
}

/// The triangle as stored: reversed once where its plane normal disagrees
/// with its vertices' averaged normal, as given otherwise.
pub fn oriented_face(face: [u32; 3], disagrees: bool) -> (r: [u32; 3])
    ensures
        r == oriented_spec(face, disagrees),
        disagrees ==> r[0] == face[2] && r[1] == face[1] && r[2] == face[0],
        !disagrees ==> r == face,
{
    if disagrees {
        [face[2], face[1], face[0]]
    } else {
        face
    }
}

/// A point or vector in exact arithmetic.
pub struct Vec3i {
    pub x: int,
    pub y: int,
    pub z: int,
}

pub open spec fn sub3(a: Vec3i, b: Vec3i) -> Vec3i {
    Vec3i { x: a.x - b.x, y: a.y - b.y, z: a.z - b.z }
}

pub open spec fn cross3(a: Vec3i, b: Vec3i) -> Vec3i {
    Vec3i { x: a.y * b.z - a.z * b.y, y: a.z * b.x - a.x * b.z, z: a.x * b.y - a.y * b.x }
}

pub open spec fn dot3(a: Vec3i, b: Vec3i) -> int {
    a.x * b.x + a.y * b.y + a.z * b.z
}

/// The plane normal of a triangle, in winding order: `(p1 - p0) x (p2 - p1)`.
pub open spec fn plane_normal(p0: Vec3i, p1: Vec3i, p2: Vec3i) -> Vec3i {
    cross3(sub3(p1, p0), sub3(p2, p1))
}

/// Reversing a triangle negates its plane normal, so a triangle whose plane
/// normal disagrees in sign with a given normal agrees with it once reversed.
pub proof fn lemma_reversal_flips_winding(p0: Vec3i, p1: Vec3i, p2: Vec3i, n: Vec3i)
    ensures
        dot3(n, plane_normal(p2, p1, p0)) == -dot3(n, plane_normal(p0, p1, p2)),
        dot3(n, plane_normal(p0, p1, p2)) < 0 ==> dot3(n, plane_normal(p2, p1, p0)) > 0,
{
    let a = plane_normal(p0, p1, p2);
    let b = plane_normal(p2, p1, p0);
    let u = sub3(p1, p0);
    let v = sub3(p2, p1);
    assert(sub3(p1, p2) == Vec3i { x: -v.x, y: -v.y, z: -v.z });
    assert(sub3(p0, p1) == Vec3i { x: -u.x, y: -u.y, z: -u.z });
    assert((-v.y) * (-u.z) - (-v.z) * (-u.y) == -(u.y * v.z - u.z * v.y)) by (nonlinear_arith);
    assert((-v.z) * (-u.x) - (-v.x) * (-u.z) == -(u.z * v.x - u.x * v.z)) by (nonlinear_arith);
    assert((-v.x) * (-u.y) - (-v.y) * (-u.x) == -(u.x * v.y - u.y * v.x)) by (nonlinear_arith);
    assert(dot3(n, b) == -dot3(n, a)) by (nonlinear_arith)
        requires
            b.x == -a.x && b.y == -a.y && b.z == -a.z,
    ;
}

} // verus!
