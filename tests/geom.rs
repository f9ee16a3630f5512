use dual_contouring::geom::{AxisKind, BMask3, CornerKind, DirKind, EdgeKind, FaceKind};

#[test]
fn dir_to_axis() {
    assert_eq!(DirKind::X.axis(), AxisKind::X);
    assert_eq!(DirKind::Y.axis(), AxisKind::Y);
    assert_eq!(DirKind::Z.axis(), AxisKind::Z);
}

#[test]
fn axis_faces() {
    assert_eq!(AxisKind::X.faces(), [FaceKind::Left, FaceKind::Right]);
    assert_eq!(AxisKind::Y.faces(), [FaceKind::Bottom, FaceKind::Top]);
    assert_eq!(AxisKind::Z.faces(), [FaceKind::Back, FaceKind::Front]);
}

#[test]
fn face_normal_axis() {
    assert_eq!(FaceKind::Left.normal_axis(), AxisKind::X);
    assert_eq!(FaceKind::Right.normal_axis(), AxisKind::X);
    assert_eq!(FaceKind::Bottom.normal_axis(), AxisKind::Y);
    assert_eq!(FaceKind::Top.normal_axis(), AxisKind::Y);
    assert_eq!(FaceKind::Back.normal_axis(), AxisKind::Z);
    assert_eq!(FaceKind::Front.normal_axis(), AxisKind::Z);
}

#[test]
fn mask_step_ors_bits() {
    let m = BMask3::new(1).step(BMask3::new(4));
    assert_eq!(m.bits(), 5);
    assert_eq!(BMask3::new(3).step(BMask3::new(3)).bits(), 3);
    assert_eq!(DirKind::Y.to_mask().bits(), 2);
    assert_eq!(DirKind::Z.to_mask().bits(), 4);
}

fn corner_bits(c: [CornerKind; 4]) -> [u8; 4] {
    [c[0].0.bits(), c[1].0.bits(), c[2].0.bits(), c[3].0.bits()]
}

#[test]
fn face_corner_winding() {
    assert_eq!(corner_bits(FaceKind::Left.corners()), [0, 4, 6, 2]);
    assert_eq!(corner_bits(FaceKind::Right.corners()), [1, 3, 7, 5]);
    assert_eq!(corner_bits(FaceKind::Bottom.corners()), [0, 1, 5, 4]);
    assert_eq!(corner_bits(FaceKind::Top.corners()), [2, 6, 7, 3]);
    assert_eq!(corner_bits(FaceKind::Back.corners()), [0, 2, 3, 1]);
    assert_eq!(corner_bits(FaceKind::Front.corners()), [4, 5, 7, 6]);
}

#[test]
fn all_corners_in_order() {
    let all = CornerKind::all();
    let bits: Vec<u8> = all.iter().map(|c| c.0.bits()).collect();
    assert_eq!(bits, vec![0, 1, 2, 4, 3, 5, 6, 7]);
}

#[test]
fn edge_endpoints_and_axis() {
    let e = EdgeKind::new(CornerKind(BMask3::new(2)), DirKind::Z);
    let [a, b] = e.endpoints();
    assert_eq!(a.0.bits(), 2);
    assert_eq!(b.0.bits(), 6);
    assert_eq!(e.axis(), AxisKind::Z);
}

#[test]
fn twelve_distinct_cube_edges() {
    let all = EdgeKind::all();
    let mut seen: Vec<(u8, u8)> = Vec::new();
    for e in all.iter() {
        let [a, b] = e.endpoints();
        let (a, b) = (a.0.bits(), b.0.bits());
        assert_ne!(a, b);
        assert_eq!((a ^ b).count_ones(), 1);
        assert!(!seen.contains(&(a, b)));
        seen.push((a, b));
    }
    assert_eq!(seen.len(), 12);
}

#[test]
fn edge_from_far_corner_is_refused() {
    assert!(EdgeKind::try_new(CornerKind(BMask3::new(7)), DirKind::X).is_none());
    let e = EdgeKind::try_new(CornerKind(BMask3::new(3)), DirKind::Z).expect("an edge");
    let [a, b] = e.endpoints();
    assert_eq!((a.0.bits(), b.0.bits()), (3, 7));
}

#[test]
fn masks_from_kinds() {
    assert_eq!(BMask3::from(DirKind::X).bits(), 1);
    assert_eq!(BMask3::from(DirKind::Z).bits(), 4);
    assert_eq!(BMask3::from(CornerKind(BMask3::new(6))).bits(), 6);
}
