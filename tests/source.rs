use dual_contouring::source::{
    classify_segment, find_intersection, BisectStep, Bisection, ClassifySegment, Endpoint,
    FindIntersectionError, Reading, Sample,
};
use glam::{vec3, Vec3};
use std::cell::Cell;

fn reading(v: f32, epsilon: f32) -> Reading<f32> {
    Reading {
        value: v,
        near_zero: v.abs() <= epsilon,
        negative: v.is_sign_negative(),
    }
}

fn run(
    field: impl Fn(Vec3) -> f32,
    start: Vec3,
    end: Vec3,
    epsilon: f32,
    max_iter: usize,
    midpoints: &Cell<usize>,
) -> Result<Sample<Vec3, f32>, FindIntersectionError<Vec3, f32>> {
    let sample = |p: Vec3| reading(field(p), epsilon);
    let midpoint = |a: Vec3, b: Vec3| {
        midpoints.set(midpoints.get() + 1);
        ((a + b) / 2.0, (a - b).length_squared() <= epsilon * epsilon)
    };
    find_intersection(&sample, &midpoint, start, end, max_iter)
}

#[test]
fn bisection_finds_half() {
    let n = Cell::new(0);
    let r = run(|p| p.x - 0.5, Vec3::ZERO, vec3(1.0, 0.0, 0.0), 0.001, 32, &n);
    let s = r.ok().expect("a root");
    assert!((s.point.x - 0.5).abs() <= 0.001);
    assert!(((s.point.x - 0.5) - s.value).abs() <= 0.001);
}

#[test]
fn start_on_surface_is_immediate() {
    let n = Cell::new(0);
    let r = run(|p| p.x, Vec3::ZERO, vec3(1.0, 0.0, 0.0), 0.001, 32, &n);
    let s = r.ok().expect("endpoint");
    assert_eq!(s.point, Vec3::ZERO);
    assert_eq!(s.value, 0.0);
    assert_eq!(n.get(), 0);
}

#[test]
fn end_on_surface_is_immediate() {
    let n = Cell::new(0);
    let r = run(|p| p.x - 1.0, Vec3::ZERO, vec3(1.0, 0.0, 0.0), 0.001, 32, &n);
    let s = r.ok().expect("endpoint");
    assert_eq!(s.point, vec3(1.0, 0.0, 0.0));
    assert_eq!(s.value, 0.0);
    assert_eq!(n.get(), 0);
}

#[test]
fn both_ends_near_zero_is_indeterminate() {
    let n = Cell::new(0);
    let r = run(|p| p.x, Vec3::ZERO, vec3(0.0005, 0.0, 0.0), 0.001, 32, &n);
    assert!(matches!(r, Err(FindIntersectionError::Indeterminate)));
}

#[test]
fn no_sign_change_is_no_solution() {
    let n = Cell::new(0);
    let r = run(|p| p.x - 5.0, Vec3::ZERO, vec3(1.0, 0.0, 0.0), 0.001, 32, &n);
    assert!(matches!(r, Err(FindIntersectionError::NoSolution)));
    assert_eq!(n.get(), 0);
}

#[test]
fn budget_exhausted_gives_best_midpoint() {
    let n = Cell::new(0);
    let r = run(|p| p.x - 0.3, Vec3::ZERO, vec3(1.0, 0.0, 0.0), 0.001, 2, &n);
    match r {
        Err(FindIntersectionError::IterLimit(s)) => {
            assert_eq!(s.point, vec3(0.375, 0.0, 0.0));
            assert!((s.value - 0.075).abs() < 1e-6);
        }
        _ => panic!("expected the iteration limit"),
    }
    let r = run(|p| p.x - 0.3, Vec3::ZERO, vec3(1.0, 0.0, 0.0), 0.001, 0, &n);
    assert!(matches!(r, Err(FindIntersectionError::IterLimit(_))));
}

#[test]
fn resampling_the_result_reproduces_its_value() {
    let field = |p: Vec3| p.x * p.x - 0.2;
    let n = Cell::new(0);
    let s = run(field, Vec3::ZERO, vec3(1.0, 0.0, 0.0), 0.001, 32, &n)
        .ok()
        .expect("a root");
    assert!((field(s.point) - s.value).abs() <= 0.001);
    assert!(s.value.abs() <= 0.001 || (s.point.x * s.point.x - 0.2).abs() < 0.01);
}

#[test]
fn classify_each_case() {
    let e = 0.001;
    assert!(matches!(
        classify_segment(reading(0.0, e), reading(1.0, e)),
        ClassifySegment::Intersects(Endpoint::Start, v) if v == 0.0
    ));
    assert!(matches!(
        classify_segment(reading(1.0, e), reading(0.0005, e)),
        ClassifySegment::Intersects(Endpoint::End, v) if v == 0.0005
    ));
    assert!(matches!(
        classify_segment(reading(0.0, e), reading(0.0005, e)),
        ClassifySegment::Indeterminate
    ));
    assert!(matches!(
        classify_segment(reading(-1.0, e), reading(2.0, e)),
        ClassifySegment::ChangesSign(a, b) if a == -1.0 && b == 2.0
    ));
    assert!(matches!(
        classify_segment(reading(1.0, e), reading(2.0, e)),
        ClassifySegment::NoSolution
    ));
}

#[test]
fn endpoint_reports_are_exclusive() {
    let e = 0.001;
    for &(a, b) in &[(0.0f32, 1.0f32), (1.0, 0.0), (0.0, 0.0), (1.0, -1.0), (0.0005, -0.0005)] {
        let c = classify_segment(reading(a, e), reading(b, e));
        match c {
            ClassifySegment::Intersects(Endpoint::Start, _) => assert!(b.abs() > e),
            ClassifySegment::Intersects(Endpoint::End, _) => assert!(a.abs() > e),
            _ => {}
        }
    }
}

#[test]
fn has_sign_change_cases() {
    assert!(ClassifySegment::ChangesSign(1.0f32, -1.0).has_sign_change());
    assert!(ClassifySegment::Intersects(Endpoint::End, 0.0f32).has_sign_change());
    assert!(!ClassifySegment::<f32>::NoSolution.has_sign_change());
    assert!(!ClassifySegment::<f32>::Indeterminate.has_sign_change());
}

#[test]
fn bisection_steps() {
    let mut b = Bisection::new(2, 0.0f32, 1.0f32, true, false);
    assert_eq!(b.step(0.5, false, false, true), BisectStep::NarrowStart);
    assert_eq!(b.iteration, 1);
    assert_eq!((b.start, b.end), (0.5, 1.0));
    assert_eq!(b.step(0.75, false, false, false), BisectStep::NarrowEnd);
    assert_eq!(b.iteration, 2);
    assert_eq!((b.start, b.end), (0.5, 0.75));
    assert_eq!(b.step(0.625, false, false, false), BisectStep::IterLimit);
    assert_eq!((b.start, b.end), (0.5, 0.75));
    let mut c = Bisection::new(5, 0.0f32, 1.0f32, true, false);
    assert_eq!(c.step(0.5, true, false, false), BisectStep::Converged);
    assert_eq!(c.step(0.5, false, true, false), BisectStep::Converged);
    let mut d = Bisection::new(5, 0.0f32, 1.0f32, true, true);
    assert_eq!(d.step(0.5, false, false, false), BisectStep::NoSolution);
}

#[test]
fn no_budget_gives_first_midpoint() {
    let n = Cell::new(0);
    let r = run(|p| p.x - 0.5, Vec3::ZERO, vec3(1.0, 0.0, 0.0), 0.001, 0, &n);
    match r {
        Err(FindIntersectionError::IterLimit(s)) => {
            assert_eq!(s.point, vec3(0.5, 0.0, 0.0));
            assert_eq!(s.value, 0.0);
        }
        _ => panic!("expected the iteration limit"),
    }
    assert_eq!(n.get(), 1);
}

#[test]
fn sample_from_source() {
    let s = Sample::from_source(&|p: Vec3| reading(p.y + 1.0, 0.001), vec3(0.0, 2.0, 0.0));
    assert_eq!(s.value, 3.0);
    assert_eq!(s.point, vec3(0.0, 2.0, 0.0));
}
