use hexagon_gl::geometry::{color_attribute, expand, position_attribute, vertex_stride_bytes};
use hexagon_gl::{AttributeLayout, DrawCall, Geometry, GeometryError, Scene, Topology};

#[test]
fn hexagon_fan_makes_six_triangles() {
    let g = Geometry::hexagon_fan();
    let t = g.triangles();
    assert_eq!(t.len(), 6);
    assert_eq!(t, vec![(6, 0, 1), (6, 1, 2), (6, 2, 3), (6, 3, 4), (6, 4, 5), (6, 5, 0)]);
    for (a, b, c) in t {
        assert!(a <= 6 && b <= 6 && c <= 6);
    }
}

#[test]
fn hexagon_fan_indices_are_in_range() {
    let g = Geometry::hexagon_fan();
    assert_eq!(g.vertex_count, 7);
    assert_eq!(g.indices, Some(vec![6, 0, 1, 2, 3, 4, 5, 0]));
    assert!(g.indices.unwrap().iter().all(|&i| i <= 6));
}

#[test]
fn hexagon_draw_call() {
    let g = Geometry::hexagon_fan();
    assert_eq!(g.draw_call(), DrawCall { topology: Topology::TriangleFan, count: 8, indexed: true });
}

#[test]
fn triangle_draws_three_vertices_without_indices() {
    let g = Geometry::triangle();
    assert_eq!(g.draw_call(), DrawCall { topology: Topology::Triangles, count: 3, indexed: false });
    assert_eq!(g.triangles(), vec![(0, 1, 2)]);
}

#[test]
fn list_expansion_drops_partial_triple() {
    assert_eq!(expand(Topology::Triangles, &vec![0, 1, 2, 3, 4, 5, 6]), vec![(0, 1, 2), (3, 4, 5)]);
    assert!(expand(Topology::Triangles, &vec![0, 1]).is_empty());
}

#[test]
fn fan_of_fewer_than_three_is_empty() {
    assert!(expand(Topology::TriangleFan, &vec![]).is_empty());
    assert!(expand(Topology::TriangleFan, &vec![4, 2]).is_empty());
    assert_eq!(expand(Topology::TriangleFan, &vec![4, 2, 9]), vec![(4, 2, 9)]);
}

#[test]
fn geometry_accepts_valid_indices() {
    let g = Geometry::new(4, Some(vec![0, 1, 2, 3]), Topology::TriangleFan).unwrap();
    assert_eq!(g.triangles(), vec![(0, 1, 2), (0, 2, 3)]);
    let g = Geometry::new(6, None, Topology::Triangles).unwrap();
    assert_eq!(g.triangles(), vec![(0, 1, 2), (3, 4, 5)]);
}

#[test]
fn geometry_rejects_index_past_last_vertex() {
    let r = Geometry::new(7, Some(vec![6, 0, 7, 2, 9]), Topology::TriangleFan);
    assert_eq!(r.unwrap_err(), GeometryError::IndexOutOfRange { position: 2, index: 7 });
}

#[test]
fn geometry_with_no_vertices_rejects_any_index() {
    let r = Geometry::new(0, Some(vec![0]), Topology::Triangles);
    assert_eq!(r.unwrap_err(), GeometryError::IndexOutOfRange { position: 0, index: 0 });
    assert!(Geometry::new(0, Some(vec![]), Topology::Triangles).is_ok());
}

#[test]
fn interleaved_layout() {
    assert_eq!(vertex_stride_bytes(), 24);
    assert_eq!(
        position_attribute(3),
        AttributeLayout { location: 3, components: 2, stride_bytes: 24, offset_bytes: 0 }
    );
    assert_eq!(
        color_attribute(1),
        AttributeLayout { location: 1, components: 4, stride_bytes: 24, offset_bytes: 8 }
    );
}

#[test]
fn scene_configurations() {
    let s = Scene::animated_hexagon();
    assert!(s.loop_enabled);
    assert_eq!(s.draw_call(), DrawCall { topology: Topology::TriangleFan, count: 8, indexed: true });
    let s = Scene::static_triangle();
    assert!(!s.loop_enabled);
    assert_eq!(s.draw_call(), DrawCall { topology: Topology::Triangles, count: 3, indexed: false });
}
