use vstd::prelude::*;

verus! {

/// One of the eight corners of a cube, as a set of unit offsets along
/// X (bit 0), Y (bit 1) and Z (bit 2).
#[derive(Debug, Copy, Clone, PartialEq, Eq, Structural)]
pub struct BMask3(u8);

impl View for BMask3 {
    type V = u8;

    closed spec fn view(&self) -> u8 {
        self.0
    }
}

impl BMask3 {
    /// Only the low three bits of a mask are ever set.
    #[verifier::type_invariant]
    spec fn low_bits_only(self) -> bool {
        self.0 < 8
    }

    /// The mask with the given bits.
    pub fn new(bits: u8) -> (r: BMask3)
        requires
            bits < 8,
        ensures
            r@ == bits,
    {
        BMask3(bits)
    }

    pub fn bits(&self) -> (r: u8)
        ensures
            r == self@,
            r < 8,
    {
        proof {
            use_type_invariant(self);
        }
        self.0
    }

    /// Moves along every axis set in `step`.
    pub fn step(&self, step: BMask3) -> (r: BMask3)
        ensures
            r@ == self@ | step@,
    {
        proof {
            use_type_invariant(self);
            use_type_invariant(&step);
        }
        let a = self.0;
        let b = step.0;
        let bits = a | b;
        assert(bits < 8) by (bit_vector)
            requires
                bits == a | b,
                a < 8,
                b < 8,
        ;
        BMask3(bits)
    }

    fn const_eq(&self, rhs: BMask3) -> (r: bool)
        ensures
            r == (self@ == rhs@),
    {
        self.0 == rhs.0
    }
}

/// A unit direction along one axis.
#[derive(Debug, Copy, Clone, PartialEq, Eq, Structural)]
pub enum DirKind {
    X,
    Y,
    Z,
}

/// The single bit of a direction's mask.
pub open spec fn dir_bits(d: DirKind) -> u8 {
    match d {
        DirKind::X => 1,
        DirKind::Y => 2,
        DirKind::Z => 4,
    }
}

/// The bit of an axis in a corner mask.
pub open spec fn axis_bit(a: AxisKind) -> u8 {
    match a {
        AxisKind::X => 1,
        AxisKind::Y => 2,
        AxisKind::Z => 4,
    }
}

impl DirKind {
    /// The axis of the direction's bit, that is the number of trailing zeros
    /// of its mask.
    pub fn axis(&self) -> (r: AxisKind)
        ensures
            dir_bits(*self) == axis_bit(r),
    {
        match self {
            DirKind::X => AxisKind::X,
            DirKind::Y => AxisKind::Y,
            DirKind::Z => AxisKind::Z,
        }
    }

    pub fn to_mask(&self) -> (r: BMask3)
        ensures
            r@ == dir_bits(*self),
    {
        match self {
            DirKind::X => BMask3::new(1),
            DirKind::Y => BMask3::new(2),
            DirKind::Z => BMask3::new(4),
        }
    }
}

/// The mask with the given bits.
pub closed spec fn mask_of(bits: u8) -> BMask3 {
    BMask3(bits)
}

pub proof fn lemma_mask_of(bits: u8)
    ensures
        mask_of(bits)@ == bits,
{
}

impl From<DirKind> for BMask3 {
    fn from(value: DirKind) -> (r: BMask3) {
        value.to_mask()
    }
}

impl vstd::std_specs::convert::FromSpecImpl<DirKind> for BMask3 {
    open spec fn obeys_from_spec() -> bool {
        true
    }

    open spec fn from_spec(v: DirKind) -> BMask3 {
        mask_of(dir_bits(v))
    }
}

#[derive(Debug, Copy, Clone, PartialEq, Eq, Structural)]
pub enum AxisKind {
    X,
    Y,
    Z,
}

impl AxisKind {
    /// The two faces of a cube that are normal to this axis, the lower one first.
    pub fn faces(&self) -> (r: [FaceKind; 2])
        ensures
            r@[0].normal_axis_spec() == *self,
            r@[1].normal_axis_spec() == *self,
            !r@[0].is_upper(),
            r@[1].is_upper(),
    {
        match self {
            AxisKind::X => [FaceKind::Left, FaceKind::Right],
            AxisKind::Y => [FaceKind::Bottom, FaceKind::Top],
            AxisKind::Z => [FaceKind::Back, FaceKind::Front],
        }
    }
}

#[derive(Debug, Copy, Clone, PartialEq, Eq, Structural)]
pub enum FaceKind {
    Left,
    Right,
    Bottom,
    Top,
    Back,
    Front,
}

/// The corners of each face, in their fixed winding order.
pub open spec fn face_corner_bits(f: FaceKind) -> Seq<u8> {
    match f {
        FaceKind::Left => seq![0u8, 4, 6, 2],
        FaceKind::Right => seq![1u8, 3, 7, 5],
        FaceKind::Bottom => seq![0u8, 1, 5, 4],
        FaceKind::Top => seq![2u8, 6, 7, 3],
        FaceKind::Back => seq![0u8, 2, 3, 1],
        FaceKind::Front => seq![4u8, 5, 7, 6],
    }
}

/// The faces of a cube in the order of `FaceKind::all`.
pub open spec fn face_at(i: int) -> FaceKind {
    if i == 0 {
        FaceKind::Left
    } else if i == 1 {
        FaceKind::Right
    } else if i == 2 {
        FaceKind::Bottom
    } else if i == 3 {
        FaceKind::Top
    } else if i == 4 {
        FaceKind::Back
    } else {
        FaceKind::Front
    }
}

/// A corner lies on a face iff its bit on the face's axis matches the side
/// of the face.
pub open spec fn on_face(f: FaceKind, c: u8) -> bool {
    ((c / axis_bit(f.normal_axis_spec())) % 2 == 1) == f.is_upper()
}

impl FaceKind {
    pub open spec fn normal_axis_spec(self) -> AxisKind {
        match self {
            FaceKind::Left | FaceKind::Right => AxisKind::X,
            FaceKind::Bottom | FaceKind::Top => AxisKind::Y,
            FaceKind::Back | FaceKind::Front => AxisKind::Z,
        }
    }

    /// Whether the face lies on the positive side of its axis.
    pub open spec fn is_upper(self) -> bool {
        self is Right || self is Top || self is Front
    }

    /// All six faces, two by two along X, Y and Z.
    pub fn all() -> (r: [FaceKind; 6])
        ensures
            forall|i: int| 0 <= i < 6 ==> #[trigger] r@[i] == face_at(i),
            forall|i: int, j: int| 0 <= i < j < 6 ==> r@[i] != r@[j],
    {
        [
            FaceKind::Left,
            FaceKind::Right,
            FaceKind::Bottom,
            FaceKind::Top,
            FaceKind::Back,
            FaceKind::Front,
        ]
    }

    pub fn normal_axis(&self) -> (r: AxisKind)
        ensures
            r == self.normal_axis_spec(),
    {
        match self {
            FaceKind::Left | FaceKind::Right => AxisKind::X,
            FaceKind::Bottom | FaceKind::Top => AxisKind::Y,
            FaceKind::Back | FaceKind::Front => AxisKind::Z,
        }
    }

    /// The four corners bounding this face, in the winding order of
    /// `face_corner_bits`.
    pub fn corners(&self) -> (r: [CornerKind; 4])
        ensures
            forall|i: int| 0 <= i < 4 ==> (#[trigger] r@[i]).0@ == face_corner_bits(*self)[i],
    {
        let c = match self {
            FaceKind::Left => [0u8, 4, 6, 2],
            FaceKind::Right => [1u8, 3, 7, 5],
            FaceKind::Bottom => [0u8, 1, 5, 4],
            FaceKind::Top => [2u8, 6, 7, 3],
            FaceKind::Back => [0u8, 2, 3, 1],
            FaceKind::Front => [4u8, 5, 7, 6],
        };
        [
            CornerKind(BMask3::new(c[0])),
            CornerKind(BMask3::new(c[1])),
            CornerKind(BMask3::new(c[2])),
            CornerKind(BMask3::new(c[3])),
        ]
    }
}

/// The corners of a face are distinct, all lie on the face, and each differs
/// from the next in a single bit, so that they wind around it.
pub proof fn lemma_face_corners(f: FaceKind)
    ensures
        forall|i: int| 0 <= i < 4 ==> on_face(f, #[trigger] face_corner_bits(f)[i]),
        forall|i: int, j: int|
            0 <= i < j < 4 ==> face_corner_bits(f)[i] != face_corner_bits(f)[j],
        forall|i: int|
            0 <= i < 4 ==> single_bit(
                #[trigger] face_corner_bits(f)[i] ^ face_corner_bits(f)[(i + 1) % 4],
            ),
{
    assert((0u8 ^ 4u8) == 4 && (4u8 ^ 6u8) == 2 && (6u8 ^ 2u8) == 4 && (2u8 ^ 0u8) == 2)
        by (bit_vector);
    assert((1u8 ^ 3u8) == 2 && (3u8 ^ 7u8) == 4 && (7u8 ^ 5u8) == 2 && (5u8 ^ 1u8) == 4)
        by (bit_vector);
    assert((0u8 ^ 1u8) == 1 && (1u8 ^ 5u8) == 4 && (5u8 ^ 4u8) == 1 && (4u8 ^ 0u8) == 4)
        by (bit_vector);
    assert((2u8 ^ 6u8) == 4 && (6u8 ^ 7u8) == 1 && (7u8 ^ 3u8) == 4 && (3u8 ^ 2u8) == 1)
        by (bit_vector);
    assert((0u8 ^ 2u8) == 2 && (2u8 ^ 3u8) == 1 && (3u8 ^ 1u8) == 2 && (1u8 ^ 0u8) == 1)
        by (bit_vector);
    assert((4u8 ^ 5u8) == 1 && (5u8 ^ 7u8) == 2 && (7u8 ^ 6u8) == 1 && (6u8 ^ 4u8) == 2)
        by (bit_vector);
}

/// A mask with exactly one bit set.
pub open spec fn single_bit(m: u8) -> bool {
    m == 1 || m == 2 || m == 4
}

/// A corner of a cube.
#[derive(Debug, Copy, Clone, PartialEq, Eq, Structural)]
pub struct CornerKind(pub BMask3);

impl From<CornerKind> for BMask3 {
    fn from(value: CornerKind) -> (r: BMask3) {
        value.0
    }
}

impl vstd::std_specs::convert::FromSpecImpl<CornerKind> for BMask3 {
    open spec fn obeys_from_spec() -> bool {
        true
    }

    open spec fn from_spec(v: CornerKind) -> BMask3 {
        v.0
    }
}

/// The corner masks in enumeration order: by number of bits set, then by value.
pub open spec fn corner_order() -> Seq<u8> {
    seq![0u8, 1, 2, 4, 3, 5, 6, 7]
}

impl CornerKind {
    /// All eight corners, in the order of `corner_order`.
    pub fn all() -> (r: [CornerKind; 8])
        ensures
            forall|i: int| 0 <= i < 8 ==> (#[trigger] r@[i]).0@ == corner_order()[i],
    {
        [
            CornerKind(BMask3::new(0)),
            CornerKind(BMask3::new(1)),
            CornerKind(BMask3::new(2)),
            CornerKind(BMask3::new(4)),
            CornerKind(BMask3::new(3)),
            CornerKind(BMask3::new(5)),
            CornerKind(BMask3::new(6)),
            CornerKind(BMask3::new(7)),
        ]
    }
}

/// The twelve edges of a cube, as start corner and direction.
pub open spec fn edge_table() -> Seq<(u8, DirKind)> {
    seq![
        (0u8, DirKind::X),
        (0u8, DirKind::Y),
        (0u8, DirKind::Z),
        (1u8, DirKind::Y),
        (1u8, DirKind::Z),
        (2u8, DirKind::X),
        (2u8, DirKind::Z),
        (4u8, DirKind::X),
        (4u8, DirKind::Y),
        (3u8, DirKind::Z),
        (5u8, DirKind::Y),
        (6u8, DirKind::X),
    ]
}

/// An edge of a cube: a start corner and the direction it runs in.
#[derive(Debug, Copy, Clone)]
pub struct EdgeKind(CornerKind, DirKind);

impl EdgeKind {
    /// An edge never starts at the corner opposite the origin.
    #[verifier::type_invariant]
    spec fn starts_below_far_corner(self) -> bool {
        self.0.0.0 != 7
    }

    pub closed spec fn start(self) -> CornerKind {
        self.0
    }

    pub closed spec fn dir(self) -> DirKind {
        self.1
    }

    pub fn new(start: CornerKind, dir: DirKind) -> (r: EdgeKind)
        requires
            start.0@ != 7,
        ensures
            r.start() == start,
            r.dir() == dir,
    {
        EdgeKind(start, dir)
    }

    /// The edge from `start` in direction `dir`, or `None` where `start` is the
    /// corner opposite the origin, from which no edge starts.
    pub fn try_new(start: CornerKind, dir: DirKind) -> (r: Option<EdgeKind>)
        ensures
            r is Some <==> start.0@ != 7,
            r matches Some(e) ==> e.start() == start && e.dir() == dir,
    {
        if start.0.const_eq(BMask3::new(7)) {
            None
        } else {
            Some(EdgeKind::new(start, dir))
        }
    }

    /// The twelve edges of a cube.
    pub fn all() -> (r: [EdgeKind; 12])
        ensures
            forall|i: int|
                0 <= i < 12 ==> (#[trigger] r@[i]).start().0@ == edge_table()[i].0 && r@[i].dir()
                    == edge_table()[i].1,
            forall|i: int| 0 <= i < 12 ==> (#[trigger] r@[i]).is_cube_edge(),
            forall|i: int, j: int|
                0 <= i < j < 12 ==> !(r@[i].start() == r@[j].start() && r@[i].dir() == r@[j].dir()),
    {
        let o = CornerKind(BMask3::new(0));
        let x = CornerKind(BMask3::new(1));
        let y = CornerKind(BMask3::new(2));
        let z = CornerKind(BMask3::new(4));
        let xy = CornerKind(BMask3::new(3));
        let xz = CornerKind(BMask3::new(5));
        let yz = CornerKind(BMask3::new(6));
        let r = [
            EdgeKind::new(o, DirKind::X),
            EdgeKind::new(o, DirKind::Y),
            EdgeKind::new(o, DirKind::Z),
            EdgeKind::new(x, DirKind::Y),
            EdgeKind::new(x, DirKind::Z),
            EdgeKind::new(y, DirKind::X),
            EdgeKind::new(y, DirKind::Z),
            EdgeKind::new(z, DirKind::X),
            EdgeKind::new(z, DirKind::Y),
            EdgeKind::new(xy, DirKind::Z),
            EdgeKind::new(xz, DirKind::Y),
            EdgeKind::new(yz, DirKind::X),
        ];
        assert(forall|c: u8| c < 8 ==> (#[trigger] (c & 1u8) == 0 <==> c % 2 == 0)) by (bit_vector);
        assert(forall|c: u8| c < 8 ==> (#[trigger] (c & 2u8) == 0 <==> (c / 2) % 2 == 0))
            by (bit_vector);
        assert(forall|c: u8| c < 8 ==> (#[trigger] (c & 4u8) == 0 <==> c / 4 == 0)) by (bit_vector);
        r
    }

    /// An edge of the cube proper: its start corner lacks the direction's bit.
    pub open spec fn is_cube_edge(self) -> bool {
        self.start().0@ & dir_bits(self.dir()) == 0
    }

    pub fn axis(&self) -> (r: AxisKind)
        ensures
            dir_bits(self.dir()) == axis_bit(r),
    {
        self.1.axis()
    }

    /// The corners at the two ends of the edge, the start first.
    pub fn endpoints(self) -> (r: [CornerKind; 2])
        ensures
            r@[0] == self.start(),
            r@[1].0@ == self.start().0@ | dir_bits(self.dir()),
    {
        let EdgeKind(start, dir) = self;
        [start, CornerKind(start.0.step(dir.to_mask()))]
    }
}

} // verus!
