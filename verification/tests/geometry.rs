use gis_core::coordinate::Coordinate;
use gis_core::map_object::MapObject;
use gis_core::objects::{Layer, Line, Multiline, Point, Polygon, Text};

fn coord(x: i32, y: i32) -> Coordinate {
    Coordinate::new(x, y)
}

fn unit_square_ring() -> Vec<Coordinate> {
    vec![coord(0, 0), coord(1, 0), coord(1, 1), coord(0, 1), coord(0, 0)]
}

#[test]
fn distance_symmetric() {
    let a = coord(1, 2);
    let b = coord(4, 6);
    assert_eq!(a.distance_to(&b), 5);
    assert_eq!(a.distance_to(&b), b.distance_to(&a));
    let c = coord(-7, 3);
    assert_eq!(a.distance_to(&c), c.distance_to(&a));
}

#[test]
fn distance_to_self_is_zero() {
    let a = coord(-31, 17);
    assert_eq!(a.distance_to(&a), 0);
}

#[test]
fn distance_floors_irrational_values() {
    let a = coord(0, 0);
    let b = coord(1, 1);
    assert_eq!(a.distance_to(&b), 1);
    let d = a.distance_to(&coord(10, 10));
    assert_eq!(d, 14);
    let exact = (200f64).sqrt();
    assert!((d as f64) <= exact && exact < (d + 1) as f64);
}

#[test]
fn line_with_equal_endpoints_fails() {
    let a = coord(2, 3);
    let r = Line::new(a, a);
    assert!(r.is_err());
    assert_eq!(r.err().unwrap(), "Line must have distinct points");
}

#[test]
fn line_with_distinct_endpoints_succeeds() {
    let a = coord(0, 0);
    let b = coord(3, 4);
    let l = Line::new(a, b).unwrap();
    assert_eq!(l.length(), a.distance_to(&b));
    assert_eq!(l.length(), 5);
    let ar = l.area();
    assert_eq!(ar.num, 0);
}

#[test]
fn line_centroid_is_midpoint() {
    let l = Line::new(coord(0, 0), coord(3, 4)).unwrap();
    let c = l.centroid();
    assert_eq!((c.x_num, c.y_num, c.den), (3, 4, 2));
    let cx = c.x_num as f64 / c.den as f64;
    let cy = c.y_num as f64 / c.den as f64;
    assert!((cx - 1.5).abs() < 1e-9);
    assert!((cy - 2.0).abs() < 1e-9);
}

#[test]
fn multiline_empty_fails() {
    let r = Multiline::new(Vec::new());
    assert!(r.is_err());
    assert_eq!(r.err().unwrap(), "Multiline must contain at least one line");
}

#[test]
fn multiline_length_sums_segments() {
    let l1 = Line::new(coord(0, 0), coord(3, 4)).unwrap();
    let l2 = Line::new(coord(3, 4), coord(6, 8)).unwrap();
    let m = Multiline::new(vec![l1, l2]).unwrap();
    assert_eq!(m.length(), 10);
    assert_eq!(m.area().num, 0);
}

#[test]
fn multiline_centroid_is_weighted_midpoint_average() {
    let l1 = Line::new(coord(0, 0), coord(3, 4)).unwrap();
    let l2 = Line::new(coord(3, 4), coord(6, 8)).unwrap();
    let m = Multiline::new(vec![l1, l2]).unwrap();
    let c = m.centroid();
    // both segments have length 5: x numerator 5*(0+3) + 5*(3+6), denominator 2*10
    assert_eq!((c.x_num, c.y_num, c.den), (60, 80, 20));
    assert!((c.x_num as f64 / c.den as f64 - 3.0).abs() < 1e-9);
    assert!((c.y_num as f64 / c.den as f64 - 4.0).abs() < 1e-9);
}

#[test]
fn polygon_too_few_points_fails() {
    let ring = vec![coord(0, 0), coord(1, 0), coord(0, 0)];
    let r = Polygon::new(ring);
    assert!(r.is_err());
    assert_eq!(r.err().unwrap(), "Polygon must have at least 4 points");
}

#[test]
fn polygon_open_ring_fails() {
    let ring = vec![coord(0, 0), coord(1, 0), coord(1, 1), coord(0, 1)];
    let r = Polygon::new(ring);
    assert!(r.is_err());
    assert_eq!(r.err().unwrap(), "Polygon must be closed");
}

#[test]
fn polygon_closed_ring_succeeds() {
    assert!(Polygon::new(unit_square_ring()).is_ok());
}

#[test]
fn unit_square_area_is_one() {
    let p = Polygon::new(unit_square_ring()).unwrap();
    let a = p.area();
    assert_eq!((a.num, a.den), (2, 2));
    let value = a.num as f64 / a.den as f64;
    assert!((value - 1.0).abs() < 1e-9);
}

#[test]
fn unit_square_perimeter_is_four() {
    let p = Polygon::new(unit_square_ring()).unwrap();
    assert_eq!(p.length(), 4);
}

#[test]
fn unit_square_centroid_is_center() {
    let p = Polygon::new(unit_square_ring()).unwrap();
    let c = p.centroid();
    assert_eq!((c.x_num, c.y_num, c.den), (3, 3, 6));
    assert!((c.x_num as f64 / c.den as f64 - 0.5).abs() < 1e-9);
    assert!((c.y_num as f64 / c.den as f64 - 0.5).abs() < 1e-9);
}

#[test]
fn polygon_add_point_extends_ring() {
    let mut p = Polygon::new(unit_square_ring()).unwrap();
    p.add_point(coord(0, 0));
    assert_eq!(p.length(), 4);
}

#[test]
fn polygon_hole_does_not_change_area() {
    let outer = vec![coord(0, 0), coord(10, 0), coord(10, 10), coord(0, 10), coord(0, 0)];
    let hole = vec![coord(2, 2), coord(4, 2), coord(4, 4), coord(2, 4), coord(2, 2)];
    let plain = Polygon::new(outer.clone()).unwrap();
    let holed = Polygon::new(outer).unwrap().with_holes(vec![hole]);
    let a0 = plain.area();
    let a1 = holed.area();
    assert_eq!((a0.num, a0.den), (a1.num, a1.den));
    assert_eq!(a1.num, 200);
}

#[test]
fn point_metrics_are_degenerate() {
    let p = Point::new(7, -9);
    assert_eq!(p.area().num, 0);
    assert_eq!(p.length(), 0);
    let c = p.centroid();
    assert_eq!((c.x_num, c.y_num, c.den), (7, -9, 1));
}

#[test]
fn text_metrics_are_degenerate() {
    let t = Text::new(5, 6, "station");
    assert_eq!(t.area().num, 0);
    assert_eq!(t.length(), 0);
    let c = t.centroid();
    assert_eq!((c.x_num, c.y_num, c.den), (5, 6, 1));
}

#[test]
fn text_content_and_position() {
    let t = Text::new(5, 6, "station");
    assert_eq!(t.content(), "station");
    assert_eq!(*t.position(), Coordinate::new(5, 6));
}

#[test]
fn text_properties_set_get_override() {
    let mut t = Text::new(0, 0, "label");
    assert!(t.get_property("color").is_none());
    t.set_property("color", "red");
    assert_eq!(t.get_property("color").unwrap().as_str(), "red");
    t.set_property("color", "blue");
    assert_eq!(t.get_property("color").unwrap().as_str(), "blue");
    t.set_property("size", "12");
    assert_eq!(t.get_property("color").unwrap().as_str(), "blue");
    assert_eq!(t.get_property("size").unwrap().as_str(), "12");
    assert!(t.get_property("font").is_none());
}

#[test]
fn text_with_property_builds() {
    let t = Text::new(0, 0, "label").with_property("color", "red").with_property("kind", "halt");
    assert_eq!(t.get_property("color").unwrap().as_str(), "red");
    assert_eq!(t.get_property("kind").unwrap().as_str(), "halt");
}

#[test]
fn layer_starts_empty_and_visible() {
    let layer = Layer::new("base");
    assert_eq!(layer.name(), "base");
    assert!(layer.is_visible());
    assert_eq!(layer.geometry_count(), 0);
    assert!(layer.get_geometry(0).is_none());
}

#[test]
fn layer_change_visibility_flips() {
    let mut layer = Layer::new("base");
    layer.change_visibility();
    assert!(!layer.is_visible());
    layer.change_visibility();
    assert!(layer.is_visible());
}

#[test]
fn layer_remove_out_of_range_returns_none() {
    let mut layer = Layer::new("base");
    layer.add_geometry(MapObject::Point(Point::new(1, 2)));
    let removed = layer.remove_geometry(5);
    assert!(removed.is_none());
    assert_eq!(layer.geometry_count(), 1);
}

#[test]
fn layer_remove_shifts_indices() {
    let mut layer = Layer::new("base");
    layer.add_geometry(MapObject::Point(Point::new(1, 1)));
    layer.add_geometry(MapObject::Point(Point::new(2, 2)));
    layer.add_geometry(MapObject::Point(Point::new(3, 3)));
    let removed = layer.remove_geometry(1);
    match removed {
        Some(MapObject::Point(p)) => assert_eq!(p.coordinate, coord(2, 2)),
        _ => panic!("expected the middle point"),
    }
    assert_eq!(layer.geometry_count(), 2);
    match layer.get_geometry(1) {
        Some(MapObject::Point(p)) => assert_eq!(p.coordinate, coord(3, 3)),
        _ => panic!("expected the shifted point"),
    }
}

#[test]
fn layer_duplicate_is_isolated() {
    let mut layer = Layer::new("base");
    let line = Line::new(coord(0, 0), coord(3, 4)).unwrap();
    layer.add_geometry(MapObject::Line(line));
    let mut copy = layer.duplicate();
    copy.add_geometry(MapObject::Point(Point::new(9, 9)));
    assert_eq!(copy.geometry_count(), 2);
    assert_eq!(layer.geometry_count(), 1);
    let removed = copy.remove_geometry(0);
    assert!(removed.is_some());
    assert_eq!(copy.geometry_count(), 1);
    assert_eq!(layer.geometry_count(), 1);
    match layer.get_geometry(0) {
        Some(MapObject::Line(l)) => {
            assert_eq!(l.start, coord(0, 0));
            assert_eq!(l.end, coord(3, 4));
        },
        _ => panic!("expected the original line"),
    }
}

#[test]
fn layer_line_total_length_five() {
    let mut layer = Layer::new("measurements");
    let line = Line::new(coord(0, 0), coord(3, 4)).unwrap();
    assert_eq!(line.length(), 5);
    layer.add_geometry(MapObject::Line(line));
    assert_eq!(layer.total_length(), 5);
}

#[test]
fn layer_multiline_total_length_ten() {
    let l1 = Line::new(coord(0, 0), coord(3, 4)).unwrap();
    let l2 = Line::new(coord(3, 4), coord(6, 8)).unwrap();
    let m = Multiline::new(vec![l1, l2]).unwrap();
    assert_eq!(m.length(), 10);
    let mut layer = Layer::new("measurements");
    layer.add_geometry(MapObject::Multiline(m));
    assert_eq!(layer.total_length(), 10);
}

#[test]
fn layer_total_area_sums_polygons() {
    let mut layer = Layer::new("parcels");
    layer.add_geometry(MapObject::Polygon(Polygon::new(unit_square_ring()).unwrap()));
    let big = vec![coord(0, 0), coord(3, 0), coord(3, 3), coord(0, 3), coord(0, 0)];
    layer.add_geometry(MapObject::Polygon(Polygon::new(big).unwrap()));
    layer.add_geometry(MapObject::Point(Point::new(1, 1)));
    let a = layer.total_area();
    assert_eq!((a.num, a.den), (20, 2));
    assert!((a.num as f64 / a.den as f64 - 10.0).abs() < 1e-9);
}

#[test]
fn layer_centroids_in_insertion_order() {
    let mut layer = Layer::new("mixed");
    layer.add_geometry(MapObject::Point(Point::new(4, 5)));
    layer.add_geometry(MapObject::Line(Line::new(coord(0, 0), coord(2, 2)).unwrap()));
    let cs = layer.centroids();
    assert_eq!(cs.len(), 2);
    assert_eq!((cs[0].x_num, cs[0].y_num, cs[0].den), (4, 5, 1));
    assert_eq!((cs[1].x_num, cs[1].y_num, cs[1].den), (2, 2, 2));
}

#[test]
fn clockwise_square_centroid_keeps_sign() {
    let ring = vec![coord(0, 0), coord(0, 1), coord(1, 1), coord(1, 0), coord(0, 0)];
    let p = Polygon::new(ring).unwrap();
    let a = p.area();
    assert_eq!((a.num, a.den), (2, 2));
    let c = p.centroid();
    assert!((c.x_num as f64 / c.den as f64 - 0.5).abs() < 1e-9);
    assert!((c.y_num as f64 / c.den as f64 - 0.5).abs() < 1e-9);
}
