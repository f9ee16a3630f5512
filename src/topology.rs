use crate::geom::{
    axis_bit, corner_order, dir_bits, edge_table, face_at, face_corner_bits, AxisKind, CornerKind, EdgeKind,
    FaceKind,
};
use crate::geom::BMask3;
use crate::morton::{is_cell_key, lemma_child_key, MortonKey, CHILD_LIMIT};
use vstd::prelude::*;

verus! {

/// An octree node/cell.
#[derive(Debug, Copy, Clone, PartialEq, Eq, Structural, Hash)]
pub struct OctreeCell(MortonKey);

impl View for OctreeCell {
    type V = nat;

    closed spec fn view(&self) -> nat {
        self.0@
    }
}

impl OctreeCell {
    /// A cell's key always addresses a cell.
    #[verifier::type_invariant]
    spec fn addresses_cell(self) -> bool {
        is_cell_key(self.0@)
    }

    /// The key of this cell.
    pub closed spec fn key_spec(self) -> MortonKey {
        self.0
    }

    /// A cell is its key: cells with equal keys, or equal key values, are equal.
    pub proof fn lemma_view_determines(a: OctreeCell, b: OctreeCell)
        ensures
            a@ == a.key_spec()@,
            a@ == b@ ==> a == b,
            a.key_spec() == b.key_spec() ==> a == b,
    {
        MortonKey::lemma_view_determines(a.0, b.0);
    }

    /// Creates a cell from its key, or `None` where the key addresses no cell.
    pub fn new(key: MortonKey) -> (r: Option<Self>)
        ensures
            r is Some <==> is_cell_key(key@),
            r matches Some(c) ==> c@ == key@ && c.key_spec() == key,
    {
        if key.is_cell() {
            Some(OctreeCell(key))
        } else {
            None
        }
    }

    /// The key of this cell.
    pub fn key(&self) -> (r: MortonKey)
        ensures
            r == self.key_spec(),
            r@ == self@,
            is_cell_key(r@),
    {
        proof {
            use_type_invariant(self);
        }
        self.0
    }

    /// The sub-cell of this cell at the given corner.
    fn sub_cell(&self, corner: CornerKind) -> (r: OctreeCell)
        requires
            self@ <= CHILD_LIMIT,
        ensures
            r@ == self@ * 8 + corner.0@,
    {
        proof {
            use_type_invariant(self);
        }
        let m = corner.0.bits();
        proof {
            lemma_child_key(self@, m as nat);
        }
        OctreeCell(self.0.child(corner.0))
    }

    /// The eight children of this cell, one per corner in corner order.
    pub fn sub_cells(&self) -> (r: [OctreeCell; 8])
        requires
            self@ <= CHILD_LIMIT,
        ensures
            forall|i: int| 0 <= i < 8 ==> (#[trigger] r@[i])@ == self@ * 8 + corner_order()[i],
            forall|i: int| 0 <= i < 8 ==> (#[trigger] r@[i])@ / 8 == self@,
            forall|i: int, j: int| 0 <= i < j < 8 ==> r@[i] != r@[j],
    {
        let c = CornerKind::all();
        let r = [
            self.sub_cell(c[0]),
            self.sub_cell(c[1]),
            self.sub_cell(c[2]),
            self.sub_cell(c[3]),
            self.sub_cell(c[4]),
            self.sub_cell(c[5]),
            self.sub_cell(c[6]),
            self.sub_cell(c[7]),
        ];
        assert forall|i: int| 0 <= i < 8 implies (#[trigger] r@[i])@ / 8 == self@ by {
            lemma_child_key(self@, corner_order()[i] as nat);
        }
        assert forall|i: int, j: int| 0 <= i < j < 8 implies r@[i] != r@[j] by {
            assert(r@[i]@ != r@[j]@);
        }
        r
    }

    /// The faces between face-adjacent pairs of sub-cells: one per edge of
    /// the cube, in the order of `edge_table`.
    pub fn interior_faces(&self) -> (r: [OctreeFace; 12])
        requires
            self@ <= CHILD_LIMIT,
        ensures
            forall|i: int|
                0 <= i < 12 ==> (#[trigger] r@[i]).neighbor_keys() == seq![
                    self@ * 8 + edge_table()[i].0,
                    self@ * 8 + (edge_table()[i].0 | dir_bits(edge_table()[i].1)),
                ],
            forall|i: int|
                0 <= i < 12 ==> axis_bit((#[trigger] r@[i]).normal_spec()) == dir_bits(
                    edge_table()[i].1,
                ),
    {
        let e = EdgeKind::all();
        [
            OctreeFace::from_edge(*self, e[0]),
            OctreeFace::from_edge(*self, e[1]),
            OctreeFace::from_edge(*self, e[2]),
            OctreeFace::from_edge(*self, e[3]),
            OctreeFace::from_edge(*self, e[4]),
            OctreeFace::from_edge(*self, e[5]),
            OctreeFace::from_edge(*self, e[6]),
            OctreeFace::from_edge(*self, e[7]),
            OctreeFace::from_edge(*self, e[8]),
            OctreeFace::from_edge(*self, e[9]),
            OctreeFace::from_edge(*self, e[10]),
            OctreeFace::from_edge(*self, e[11]),
        ]
    }

    /// The edges each shared by four sub-cells: one per face of the cube, in
    /// the order of `FaceKind::all`.
    pub fn interior_edges(&self) -> (r: [Edge; 6])
        requires
            self@ <= CHILD_LIMIT,
        ensures
            forall|i: int|
                0 <= i < 6 ==> (#[trigger] r@[i]).neighbor_keys() == face_corner_bits(
                    face_at(i),
                ).map_values(|c: u8| self@ * 8 + c),
            forall|i: int| 0 <= i < 6 ==> (#[trigger] r@[i]).axis_spec() == face_at(i).normal_axis_spec(),
    {
        let f = FaceKind::all();
        [
            Edge::from_face(self, f[0]),
            Edge::from_face(self, f[1]),
            Edge::from_face(self, f[2]),
            Edge::from_face(self, f[3]),
            Edge::from_face(self, f[4]),
            Edge::from_face(self, f[5]),
        ]
    }

    /// The cell itself where it is a leaf, else its sub-cell at `corner`.
    fn refined(&self, leaf: bool, corner: u8) -> (r: OctreeCell)
        requires
            corner < 8,
            !leaf ==> self@ <= CHILD_LIMIT,
        ensures
            r@ == refined_key(self@, leaf, corner as nat),
    {
        if leaf {
            *self
        } else {
            self.sub_cell(CornerKind(BMask3::new(corner)))
        }
    }

    /// The sub-cells of this cell at the corners of the given face.
    fn face_sub_cells(&self, face: FaceKind) -> (r: [OctreeCell; 4])
        requires
            self@ <= CHILD_LIMIT,
        ensures
            r@.map_values(|c: OctreeCell| c@ as int) == face_corner_bits(face).map_values(
                |c: u8| self@ * 8 + c,
            ),
    {
        let c = face.corners();
        let r = [self.sub_cell(c[0]), self.sub_cell(c[1]), self.sub_cell(c[2]), self.sub_cell(c[3])];
        let ghost bits = face_corner_bits(face);
        assert(c@[0].0@ == bits[0] && c@[1].0@ == bits[1] && c@[2].0@ == bits[2] && c@[3].0@
            == bits[3]);
        assert(r@.map_values(|c: OctreeCell| c@ as int) =~= face_corner_bits(face).map_values(
            |c: u8| self@ * 8 + c,
        ));
        r
    }

    /// The sub-cells of this cell at the two ends of the given edge.
    fn edge_sub_cells(&self, edge: EdgeKind) -> (r: [OctreeCell; 2])
        requires
            self@ <= CHILD_LIMIT,
        ensures
            r@[0]@ == self@ * 8 + edge.start().0@,
            r@[1]@ == self@ * 8 + (edge.start().0@ | dir_bits(edge.dir())),
    {
        let c = edge.endpoints();
        [self.sub_cell(c[0]), self.sub_cell(c[1])]
    }
}

/// The key of a cell where it is a leaf, else of its sub-cell at `corner`.
pub open spec fn refined_key(k: nat, leaf: bool, corner: nat) -> int {
    if leaf {
        k as int
    } else {
        (k * 8 + corner) as int
    }
}

/// The four corners of a cube that lie on the lower face normal to `a`, in
/// increasing order.
pub open spec fn plane_corners(a: AxisKind) -> Seq<u8> {
    match a {
        AxisKind::X => seq![0u8, 2, 4, 6],
        AxisKind::Y => seq![0u8, 1, 4, 5],
        AxisKind::Z => seq![0u8, 1, 2, 3],
    }
}

/// A leaf predicate that gives one answer for each cell.
pub open spec fn leaf_test_deterministic<L: Fn(&OctreeCell) -> bool>(is_leaf: L) -> bool {
    forall|c: OctreeCell, a: bool, b: bool|
        #[trigger] is_leaf.ensures((&c,), a) && #[trigger] is_leaf.ensures((&c,), b) ==> a == b
}

/// A cell counts as a leaf where the predicate says so, or where its
/// children would be deeper than keys reach.
pub open spec fn counts_as_leaf(c: OctreeCell, answer: bool) -> bool {
    answer || c@ > CHILD_LIMIT
}

/// The face between two face-adjacent cells.
#[derive(Debug, Copy, Clone, PartialEq, Eq)]
pub struct OctreeFace {
    normal: AxisKind,
    neighbors: [OctreeCell; 2],
}

impl OctreeFace {
    pub closed spec fn normal_spec(self) -> AxisKind {
        self.normal
    }

    /// The cell on the lower (0) or upper (1) side.
    pub closed spec fn neighbor_cell(self, i: int) -> OctreeCell {
        self.neighbors[i]
    }

    /// The keys of the two cells, the one on the lower side first.
    pub closed spec fn neighbor_keys(self) -> Seq<int> {
        self.neighbors@.map_values(|c: OctreeCell| c@ as int)
    }

    fn from_edge(cell: OctreeCell, edge: EdgeKind) -> (r: OctreeFace)
        requires
            cell@ <= CHILD_LIMIT,
        ensures
            r.neighbor_keys() == seq![
                cell@ * 8 + edge.start().0@,
                cell@ * 8 + (edge.start().0@ | dir_bits(edge.dir())),
            ],
            axis_bit(r.normal) == dir_bits(edge.dir()),
    {
        let normal = edge.axis();
        let neighbors = cell.edge_sub_cells(edge);
        let r = Self { normal, neighbors };
        assert(r.neighbor_keys() =~= seq![
            cell@ * 8 + edge.start().0@,
            cell@ * 8 + (edge.start().0@ | dir_bits(edge.dir())),
        ]);
        r
    }

    /// The faces one level down that make up this face: for each of the four
    /// quarters of the face, the face between the sub-cells that meet there,
    /// where a neighbor that is a leaf stands for its own sub-cells. `None`
    /// where both neighbors are leaves.
    pub fn sub_faces<L: Fn(&OctreeCell) -> bool>(&self, is_leaf: L) -> (r: Option<[OctreeFace; 4]>)
        requires
            forall|c: OctreeCell| #[trigger] is_leaf.requires((&c,)),
            leaf_test_deterministic(is_leaf),
        ensures
            forall|b0: bool, b1: bool|
                #[trigger] is_leaf.ensures((&self.neighbor_cell(0),), b0) && #[trigger] is_leaf.ensures(
                    (&self.neighbor_cell(1),),
                    b1,
                ) ==> {
                    let l0 = counts_as_leaf(self.neighbor_cell(0), b0);
                    let l1 = counts_as_leaf(self.neighbor_cell(1), b1);
                    &&& (r is None <==> l0 && l1)
                    &&& r matches Some(faces) ==> forall|i: int|
                        0 <= i < 4 ==> (#[trigger] faces@[i]).normal_spec() == self.normal_spec()
                            && faces@[i].neighbor_keys() == seq![
                            refined_key(
                                self.neighbor_cell(0)@,
                                l0,
                                (plane_corners(self.normal_spec())[i] + axis_bit(self.normal_spec())) as nat,
                            ),
                            refined_key(
                                self.neighbor_cell(1)@,
                                l1,
                                plane_corners(self.normal_spec())[i] as nat,
                            ),
                        ]
                },
    {
        let n0 = self.neighbors[0];
        let n1 = self.neighbors[1];
        let b0 = is_leaf(&n0);
        let b1 = is_leaf(&n1);
        let l0 = b0 || !n0.key().has_child_keys();
        let l1 = b1 || !n1.key().has_child_keys();
        if l0 && l1 {
            return None;
        }
        let (corners, up): ([u8; 4], u8) = match self.normal {
            AxisKind::X => ([0u8, 2, 4, 6], 1u8),
            AxisKind::Y => ([0u8, 1, 4, 5], 2u8),
            AxisKind::Z => ([0u8, 1, 2, 3], 4u8),
        };
        let normal = self.normal;
        let faces = [
            OctreeFace { normal, neighbors: [n0.refined(l0, corners[0] + up), n1.refined(l1, corners[0])] },
            OctreeFace { normal, neighbors: [n0.refined(l0, corners[1] + up), n1.refined(l1, corners[1])] },
            OctreeFace { normal, neighbors: [n0.refined(l0, corners[2] + up), n1.refined(l1, corners[2])] },
            OctreeFace { normal, neighbors: [n0.refined(l0, corners[3] + up), n1.refined(l1, corners[3])] },
        ];
        assert forall|i: int| 0 <= i < 4 implies (#[trigger] faces@[i]).neighbor_keys() == seq![
            refined_key(n0@, l0, (plane_corners(normal)[i] + axis_bit(normal)) as nat),
            refined_key(n1@, l1, plane_corners(normal)[i] as nat),
        ] by {
            assert(faces@[i].neighbor_keys() =~= seq![
                refined_key(n0@, l0, (plane_corners(normal)[i] + axis_bit(normal)) as nat),
                refined_key(n1@, l1, plane_corners(normal)[i] as nat),
            ]);
        }
        Some(faces)
    }

    /// The axis normal to the face.
    pub fn normal(&self) -> (r: AxisKind)
        ensures
            r == self.normal_spec(),
    {
        self.normal
    }

    /// The two cells on either side of the face.
    pub fn neighbors(&self) -> (r: [OctreeCell; 2])
        ensures
            r@.map_values(|c: OctreeCell| c@ as int) == self.neighbor_keys(),
            r@[0] == self.neighbor_cell(0),
            r@[1] == self.neighbor_cell(1),
    {
        self.neighbors
    }
}

/// The edge shared by four cells.
#[derive(Debug, Copy, Clone, PartialEq, Eq)]
pub struct Edge {
    axis: AxisKind,
    /// The face whose corner winding gives the places of the neighbors
    /// around the edge.
    face: FaceKind,
    neighbors: [OctreeCell; 4],
}

/// For each place `j` around an edge taken from `face`, the corner of the
/// neighbor there that touches the edge, in the lower half along the axis:
/// the place opposite `j`, seen from the neighbor.
pub open spec fn edge_touch_corners(face: FaceKind) -> Seq<u8> {
    match face {
        FaceKind::Left => seq![6u8, 2, 0, 4],
        FaceKind::Right => seq![6u8, 4, 0, 2],
        FaceKind::Bottom => seq![5u8, 4, 0, 1],
        FaceKind::Top => seq![5u8, 1, 0, 4],
        FaceKind::Back => seq![3u8, 1, 0, 2],
        FaceKind::Front => seq![3u8, 2, 0, 1],
    }
}

/// The keys around half `h` of an edge one level down, given which
/// neighbors count as leaves.
pub open spec fn refined_edge_keys(e: Edge, l: Seq<bool>, h: int) -> Seq<int> {
    Seq::new(
        4,
        |j: int|
            refined_key(
                e.neighbor_cell(j)@,
                l[j],
                (edge_touch_corners(e.face_spec())[j] + h * axis_bit(e.axis_spec())) as nat,
            ),
    )
}

/// What `sub_edges` returns, given which neighbors count as leaves.
pub open spec fn sub_edges_outcome(e: Edge, l: Seq<bool>, r: Option<[Edge; 2]>) -> bool {
    &&& (r is None <==> l[0] && l[1] && l[2] && l[3])
    &&& r matches Some(edges) ==> forall|h: int|
        0 <= h < 2 ==> (#[trigger] edges@[h]).axis_spec() == e.axis_spec()
            && edges@[h].face_spec() == e.face_spec() && edges@[h].neighbor_keys()
            == refined_edge_keys(e, l, h)
}

impl Edge {
    /// The edge runs along the normal axis of the face it was taken from.
    #[verifier::type_invariant]
    spec fn runs_along_face_normal(self) -> bool {
        self.axis == self.face.normal_axis_spec()
    }

    pub closed spec fn axis_spec(self) -> AxisKind {
        self.axis
    }

    pub closed spec fn face_spec(self) -> FaceKind {
        self.face
    }

    /// The neighbor at place `i` of the face's winding.
    pub closed spec fn neighbor_cell(self, i: int) -> OctreeCell {
        self.neighbors[i]
    }

    /// The keys of the four cells around the edge.
    pub closed spec fn neighbor_keys(self) -> Seq<int> {
        self.neighbors@.map_values(|c: OctreeCell| c@ as int)
    }

    fn new(axis: AxisKind, face: FaceKind, neighbors: [OctreeCell; 4]) -> (r: Edge)
        requires
            axis == face.normal_axis_spec(),
        ensures
            r.axis == axis,
            r.face == face,
            r.neighbors == neighbors,
    {
        Self { axis, face, neighbors }
    }

    fn from_face(cell: &OctreeCell, face: FaceKind) -> (r: Edge)
        requires
            cell@ <= CHILD_LIMIT,
        ensures
            r.axis == face.normal_axis_spec(),
            r.face == face,
            r.neighbor_keys() == face_corner_bits(face).map_values(|c: u8| cell@ * 8 + c),
    {
        let axis = face.normal_axis();
        let neighbors = cell.face_sub_cells(face);
        Edge::new(axis, face, neighbors)
    }

    /// The two halves of this edge one level down, the lower one along the
    /// axis first: around each, every neighbor is replaced by its sub-cell
    /// that touches the edge there, where it is not a leaf. `None` where all
    /// four neighbors are leaves.
    pub fn sub_edges<L: Fn(&OctreeCell) -> bool>(&self, is_leaf: L) -> (r: Option<[Edge; 2]>)
        requires
            forall|c: OctreeCell| #[trigger] is_leaf.requires((&c,)),
            leaf_test_deterministic(is_leaf),
        ensures
            forall|b0: bool, b1: bool, b2: bool, b3: bool|
                #![trigger is_leaf.ensures((&self.neighbor_cell(0),), b0), is_leaf.ensures((&self.neighbor_cell(1),), b1), is_leaf.ensures((&self.neighbor_cell(2),), b2), is_leaf.ensures((&self.neighbor_cell(3),), b3)]
                is_leaf.ensures((&self.neighbor_cell(0),), b0) && is_leaf.ensures(
                    (&self.neighbor_cell(1),),
                    b1,
                ) && is_leaf.ensures((&self.neighbor_cell(2),), b2) && is_leaf.ensures(
                    (&self.neighbor_cell(3),),
                    b3,
                ) ==> sub_edges_outcome(
                    *self,
                    seq![
                        counts_as_leaf(self.neighbor_cell(0), b0),
                        counts_as_leaf(self.neighbor_cell(1), b1),
                        counts_as_leaf(self.neighbor_cell(2), b2),
                        counts_as_leaf(self.neighbor_cell(3), b3),
                    ],
                    r,
                ),
    {
        proof {
            use_type_invariant(self);
        }
        let n = self.neighbors;
        let b0 = is_leaf(&n[0]);
        let b1 = is_leaf(&n[1]);
        let b2 = is_leaf(&n[2]);
        let b3 = is_leaf(&n[3]);
        let l0 = b0 || !n[0].key().has_child_keys();
        let l1 = b1 || !n[1].key().has_child_keys();
        let l2 = b2 || !n[2].key().has_child_keys();
        let l3 = b3 || !n[3].key().has_child_keys();
        let ghost ls = seq![l0, l1, l2, l3];
        let r = if l0 && l1 && l2 && l3 {
            None
        } else {
            let t: [u8; 4] = match self.face {
                FaceKind::Left => [6u8, 2, 0, 4],
                FaceKind::Right => [6u8, 4, 0, 2],
                FaceKind::Bottom => [5u8, 4, 0, 1],
                FaceKind::Top => [5u8, 1, 0, 4],
                FaceKind::Back => [3u8, 1, 0, 2],
                FaceKind::Front => [3u8, 2, 0, 1],
            };
            let up: u8 = match self.axis {
                AxisKind::X => 1,
                AxisKind::Y => 2,
                AxisKind::Z => 4,
            };
            proof {
                assert(axis_bit(self.axis) == up);
                assert(t@ =~= edge_touch_corners(self.face));
            }
            let lower = Edge::new(
                self.axis,
                self.face,
                [
                    n[0].refined(l0, t[0]),
                    n[1].refined(l1, t[1]),
                    n[2].refined(l2, t[2]),
                    n[3].refined(l3, t[3]),
                ],
            );
            let upper = Edge::new(
                self.axis,
                self.face,
                [
                    n[0].refined(l0, t[0] + up),
                    n[1].refined(l1, t[1] + up),
                    n[2].refined(l2, t[2] + up),
                    n[3].refined(l3, t[3] + up),
                ],
            );
            assert(lower.neighbor_keys() =~= refined_edge_keys(*self, ls, 0));
            assert(upper.neighbor_keys() =~= refined_edge_keys(*self, ls, 1));
            Some([lower, upper])
        };
        assert(sub_edges_outcome(*self, ls, r));
        r
    }

    /// The axis that the edge runs along.
    pub fn axis(&self) -> (r: AxisKind)
        ensures
            r == self.axis_spec(),
    {
        self.axis
    }

    /// The four cells around the edge, in the winding of the face they were
    /// taken from.
    pub fn neighbors(&self) -> (r: [OctreeCell; 4])
        ensures
            r@.map_values(|c: OctreeCell| c@ as int) == self.neighbor_keys(),
            forall|i: int| 0 <= i < 4 ==> #[trigger] r@[i] == self.neighbor_cell(i),
    {
        self.neighbors
    }
}

} // verus!
