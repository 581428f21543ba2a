use geo_plot::geometry::{
    Coordinate, Geometry, GeometryCollection, Line, LineString, MultiLineString, MultiPoint,
    MultiPolygon, Point, Polygon,
};
use geo_plot::plot::{render, unzip};
use geo_plot::surface::{DrawCall, Primitive, Surface};

fn c(x: f64, y: f64) -> Coordinate<f64> {
    Coordinate { x, y }
}

fn ring(pts: &[(f64, f64)]) -> LineString<f64> {
    LineString(pts.iter().map(|&(x, y)| c(x, y)).collect())
}

fn square() -> Polygon<f64> {
    Polygon {
        exterior: ring(&[(0.0, 0.0), (4.0, 0.0), (4.0, 4.0), (0.0, 4.0), (0.0, 0.0)]),
        interiors: vec![ring(&[(1.0, 1.0), (2.0, 1.0), (2.0, 2.0), (1.0, 1.0)])],
    }
}

fn triangle() -> Polygon<f64> {
    Polygon {
        exterior: ring(&[(10.0, 10.0), (12.0, 10.0), (11.0, 13.0), (10.0, 10.0)]),
        interiors: vec![],
    }
}

fn check(call: &DrawCall<f64, &str>, kind: Primitive, xs: &[f64], ys: &[f64], style: &str) {
    assert_eq!(call.kind, kind);
    assert_eq!(call.xs, xs.to_vec());
    assert_eq!(call.ys, ys.to_vec());
    assert_eq!(call.style, style);
}

#[test]
fn new_surface_is_empty() {
    let s: Surface<f64, &str> = Surface::new();
    assert_eq!(s.len(), 0);
    assert!(s.calls().is_empty());
}

#[test]
fn coordinate_issues_one_point_set() {
    let mut s = Surface::new();
    c(1.5, -2.0).plot(&mut s, "red");
    assert_eq!(s.len(), 1);
    check(&s.calls()[0], Primitive::PointSet, &[1.5], &[-2.0], "red");
}

#[test]
fn point_issues_one_point_set() {
    let mut s = Surface::new();
    render(&Geometry::Point(Point(c(3.0, 4.0))), &mut s, "p");
    assert_eq!(s.len(), 1);
    check(&s.calls()[0], Primitive::PointSet, &[3.0], &[4.0], "p");
}

#[test]
fn line_issues_start_then_end() {
    let mut s = Surface::new();
    let l = Line { start: c(1.0, 2.0), end: c(3.0, 5.0) };
    render(&Geometry::Line(l), &mut s, "l");
    assert_eq!(s.len(), 1);
    check(&s.calls()[0], Primitive::LinePath, &[1.0, 3.0], &[2.0, 5.0], "l");
}

#[test]
fn line_string_keeps_vertex_order() {
    let mut s = Surface::new();
    let ls = ring(&[(5.0, 1.0), (-1.0, 2.0), (3.0, 7.0)]);
    render(&Geometry::LineString(ls), &mut s, "ls");
    assert_eq!(s.len(), 1);
    check(&s.calls()[0], Primitive::LinePath, &[5.0, -1.0, 3.0], &[1.0, 2.0, 7.0], "ls");
}

#[test]
fn empty_line_string_still_issues_a_call() {
    let mut s = Surface::new();
    render(&Geometry::LineString(LineString(vec![])), &mut s, "e");
    assert_eq!(s.len(), 1);
    check(&s.calls()[0], Primitive::LinePath, &[], &[], "e");
}

#[test]
fn polygon_draws_exterior_only() {
    let mut s = Surface::new();
    render(&Geometry::Polygon(square()), &mut s, "sq");
    assert_eq!(s.len(), 1);
    check(
        &s.calls()[0],
        Primitive::LinePath,
        &[0.0, 4.0, 4.0, 0.0, 0.0],
        &[0.0, 0.0, 4.0, 4.0, 0.0],
        "sq",
    );
    assert!(!s.calls()[0].xs.contains(&1.0));
    assert!(!s.calls()[0].xs.contains(&2.0));
}

#[test]
fn multi_point_one_marker_per_point() {
    let mut s = Surface::new();
    let mp = MultiPoint(vec![Point(c(1.0, 1.0)), Point(c(2.0, 3.0))]);
    render(&Geometry::MultiPoint(mp), &mut s, "m");
    assert_eq!(s.len(), 2);
    check(&s.calls()[0], Primitive::PointSet, &[1.0], &[1.0], "m");
    check(&s.calls()[1], Primitive::PointSet, &[2.0], &[3.0], "m");
}

#[test]
fn multi_line_string_one_path_per_member() {
    let mut s = Surface::new();
    let mls = MultiLineString(vec![ring(&[(0.0, 0.0), (1.0, 1.0)]), ring(&[(7.0, 8.0)])]);
    render(&Geometry::MultiLineString(mls), &mut s, "m");
    assert_eq!(s.len(), 2);
    check(&s.calls()[0], Primitive::LinePath, &[0.0, 1.0], &[0.0, 1.0], "m");
    check(&s.calls()[1], Primitive::LinePath, &[7.0], &[8.0], "m");
}

#[test]
fn multi_polygon_is_its_members_in_order() {
    let mut whole = Surface::new();
    render(&Geometry::MultiPolygon(MultiPolygon(vec![square(), triangle()])), &mut whole, "mp");
    let mut parts = Surface::new();
    square().plot(&mut parts, "mp");
    triangle().plot(&mut parts, "mp");
    assert_eq!(whole.len(), 2);
    assert_eq!(parts.len(), 2);
    for (a, b) in whole.calls().iter().zip(parts.calls().iter()) {
        check(a, b.kind, &b.xs, &b.ys, b.style);
    }
    assert_eq!(whole.calls()[1].xs, vec![10.0, 12.0, 11.0, 10.0]);
}

#[test]
fn empty_multi_polygon_issues_nothing() {
    let mut s: Surface<f64, &str> = Surface::new();
    MultiPolygon(vec![]).plot(&mut s, "x");
    assert_eq!(s.len(), 0);
}

#[test]
fn collection_of_simple_kinds_in_member_order() {
    let mut s = Surface::new();
    let gc = GeometryCollection(vec![
        Geometry::Point(Point(c(1.0, 2.0))),
        Geometry::Line(Line { start: c(0.0, 0.0), end: c(1.0, 0.0) }),
        Geometry::LineString(ring(&[(5.0, 5.0), (6.0, 6.0), (7.0, 5.0)])),
        Geometry::Polygon(triangle()),
    ]);
    render(&Geometry::GeometryCollection(gc), &mut s, "gc");
    assert_eq!(s.len(), 4);
    check(&s.calls()[0], Primitive::PointSet, &[1.0], &[2.0], "gc");
    check(&s.calls()[1], Primitive::LinePath, &[0.0, 1.0], &[0.0, 0.0], "gc");
    check(&s.calls()[2], Primitive::LinePath, &[5.0, 6.0, 7.0], &[5.0, 6.0, 5.0], "gc");
    check(
        &s.calls()[3],
        Primitive::LinePath,
        &[10.0, 12.0, 11.0, 10.0],
        &[10.0, 10.0, 13.0, 10.0],
        "gc",
    );
}

#[test]
fn nested_collections_carry_the_style_everywhere() {
    let inner = GeometryCollection(vec![
        Geometry::MultiPoint(MultiPoint(vec![Point(c(1.0, 1.0)), Point(c(2.0, 2.0))])),
        Geometry::MultiPolygon(MultiPolygon(vec![square()])),
    ]);
    let outer = GeometryCollection(vec![
        Geometry::Line(Line { start: c(9.0, 9.0), end: c(8.0, 8.0) }),
        Geometry::GeometryCollection(inner),
        Geometry::Point(Point(c(0.5, 0.5))),
    ]);
    let mut s = Surface::new();
    render(&Geometry::GeometryCollection(outer), &mut s, "style");
    assert_eq!(s.len(), 5);
    assert!(s.calls().iter().all(|call| call.style == "style"));
    let kinds: Vec<Primitive> = s.calls().iter().map(|call| call.kind).collect();
    assert_eq!(
        kinds,
        vec![
            Primitive::LinePath,
            Primitive::PointSet,
            Primitive::PointSet,
            Primitive::LinePath,
            Primitive::PointSet,
        ]
    );
    check(&s.calls()[4], Primitive::PointSet, &[0.5], &[0.5], "style");
}

#[test]
fn render_appends_after_existing_calls() {
    let mut s = Surface::new();
    c(0.0, 0.0).plot(&mut s, "first");
    render(&Geometry::Polygon(triangle()), &mut s, "second");
    assert_eq!(s.len(), 2);
    check(&s.calls()[0], Primitive::PointSet, &[0.0], &[0.0], "first");
    assert_eq!(s.calls()[1].style, "second");
    let calls = s.into_calls();
    assert_eq!(calls.len(), 2);
}

#[test]
fn unzip_splits_coordinates_in_order() {
    let (xs, ys) = unzip(&vec![c(1.0, -1.0), c(2.0, -2.0), c(3.0, -3.0)]);
    assert_eq!(xs, vec![1.0, 2.0, 3.0]);
    assert_eq!(ys, vec![-1.0, -2.0, -3.0]);
    let (ex, ey) = unzip::<f64>(&vec![]);
    assert!(ex.is_empty() && ey.is_empty());
}

#[test]
fn integer_coordinates_and_styles() {
    let mut s: Surface<i32, u8> = Surface::new();
    render(&Geometry::Line(Line { start: Coordinate { x: 1, y: 2 }, end: Coordinate { x: 3, y: 4 } }), &mut s, 9);
    assert_eq!(s.calls()[0].xs, vec![1, 3]);
    assert_eq!(s.calls()[0].ys, vec![2, 4]);
    assert_eq!(s.calls()[0].style, 9);
}
