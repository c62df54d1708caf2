use instanced_scene::axis::Axis;
use instanced_scene::shape::Shape;
use instanced_scene::topology::Topology;

#[test]
fn axis_numbers() {
    assert_eq!(Axis::from_index(0), Some(Axis::X));
    assert_eq!(Axis::from_index(1), Some(Axis::Y));
    assert_eq!(Axis::from_index(2), Some(Axis::Z));
    assert_eq!(Axis::from_index(3), None);
    assert_eq!(Axis::from_index(usize::MAX), None);
    assert_eq!(Axis::Z.index(), 2);
}

#[test]
fn axis_rotation_rows_follow_right_hand_rule() {
    assert_eq!(Axis::X.rotation_rows(), (1, 2));
    assert_eq!(Axis::Y.rotation_rows(), (2, 0));
    assert_eq!(Axis::Z.rotation_rows(), (0, 1));
}

#[test]
fn topology_accepts() {
    assert!(Topology::Points.accepts(1));
    assert!(!Topology::Points.accepts(0));
    assert!(Topology::LineStrip.accepts(2));
    assert!(!Topology::LineStrip.accepts(1));
    assert!(Topology::LinesList.accepts(4));
    assert!(!Topology::LinesList.accepts(3));
    assert!(Topology::TrianglesList.accepts(3));
    assert!(!Topology::TrianglesList.accepts(4));
    assert!(Topology::TriangleStrip.accepts(4));
    assert!(!Topology::TriangleStrip.accepts(2));
    assert!(Topology::TriangleFan.accepts(5));
    assert!(Topology::LineLoop.accepts(2));
}

#[test]
fn shape_from_vertices() {
    let s = Shape::from_vertices(vec![[0i32, 1], [1, 0], [1, 1], [0, 0]], Topology::TriangleStrip);
    assert_eq!(s.vertex_count(), 4);
    assert_eq!(s.ref_index(), Topology::TriangleStrip);
    assert_eq!(s.get_id(), 0);
    assert_eq!(s.ref_vertices()[2], [1, 1]);
    let s = s.with_id(3);
    assert_eq!(s.get_id(), 3);
    assert_eq!(s.vertex_count(), 4);
}

#[test]
fn shape_vertices_mutate_in_place() {
    let mut s = Shape::from_vertices(vec![0u32; 6], Topology::LineStrip);
    for (i, v) in s.mut_vertices().iter_mut().enumerate() {
        *v = i as u32;
    }
    assert_eq!(s.vertex_count(), 6);
    assert_eq!(s.update_vbo(), &[0, 1, 2, 3, 4, 5]);
}
