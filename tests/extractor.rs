use dual_contouring::extractor::{oriented_face, IndexedSeparateNormals};
use dual_contouring::is_valid_resolution;
use glam::{vec3, Vec3};

fn plane_normal(p: [Vec3; 3]) -> Vec3 {
    (p[1] - p[0]).cross(p[2] - p[1])
}

#[test]
fn reversed_face_agrees_with_normals() {
    let mut mesh: IndexedSeparateNormals<Vec3> = IndexedSeparateNormals::new();
    let up = vec3(0.0, 0.0, 1.0);
    mesh.push_vertex(vec3(0.0, 0.0, 0.0), up);
    mesh.push_vertex(vec3(0.0, 1.0, 0.0), up);
    mesh.push_vertex(vec3(1.0, 0.0, 0.0), up);
    let face = [0u32, 1, 2];
    let pos = &mesh.vertices.positions;
    let avg = (up + up + up) / 3.0;
    let disagrees = avg.dot(plane_normal([pos[0], pos[1], pos[2]])) < 0.0;
    assert!(disagrees);
    mesh.push_face(face, disagrees);
    let stored = mesh.faces[0];
    assert_eq!(stored, [2, 1, 0]);
    let p = &mesh.vertices.positions;
    let n = plane_normal([p[stored[0] as usize], p[stored[1] as usize], p[stored[2] as usize]]);
    assert!(avg.dot(n) > 0.0);
}

#[test]
fn agreeing_face_is_kept() {
    assert_eq!(oriented_face([4, 5, 6], false), [4, 5, 6]);
    assert_eq!(oriented_face([4, 5, 6], true), [6, 5, 4]);
}

#[test]
fn buffers_stay_aligned() {
    let mut mesh: IndexedSeparateNormals<u32> = IndexedSeparateNormals::new();
    assert_eq!(mesh.vertex_count(), 0);
    mesh.push_vertex(10, 11);
    mesh.push_vertex(20, 21);
    assert_eq!(mesh.vertex_count(), 2);
    assert_eq!(mesh.vertices.positions, vec![10, 20]);
    assert_eq!(mesh.vertices.normals, vec![11, 21]);
    mesh.push_face([0, 1, 1], false);
    assert_eq!(mesh.faces, vec![[0, 1, 1]]);
}

#[test]
fn resolutions() {
    assert!(is_valid_resolution(1));
    assert!(is_valid_resolution(64));
    assert!(is_valid_resolution(1 << 31));
    assert!(!is_valid_resolution(0));
    assert!(!is_valid_resolution(48));
    assert!(!is_valid_resolution(u32::MAX));
}
