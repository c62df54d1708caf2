use instanced_scene::axis::Axis;
use instanced_scene::buffer::BufferObject;
use instanced_scene::draw::DrawCall;
use instanced_scene::instance_group::InstanceGroup;
use instanced_scene::shape::Shape;
use instanced_scene::shape_group::ShapeGroup;
use instanced_scene::topology::Topology;

type Mat = [[f32; 4]; 4];

const IDENTITY: Mat = [
    [1.0, 0.0, 0.0, 0.0],
    [0.0, 1.0, 0.0, 0.0],
    [0.0, 0.0, 1.0, 0.0],
    [0.0, 0.0, 0.0, 1.0],
];

/// The row-blending composition `R' = R_axis(ang) * R`, on the rows that the
/// library picks for the axis.
fn rotated(m: Mat, axis: Axis, ang: f32) -> Mat {
    let (p, q) = axis.rotation_rows();
    let (c, s) = (ang.cos(), ang.sin());
    let mut r = m;
    for i in 0..4 {
        r[p][i] = m[p][i] * c - m[q][i] * s;
        r[q][i] = m[p][i] * s + m[q][i] * c;
    }
    r
}

fn quad() -> Shape<[f32; 3]> {
    Shape::from_vertices(
        vec![[-1.0, 1.0, 0.0], [1.0, 1.0, 0.0], [-1.0, -1.0, 0.0], [1.0, -1.0, 0.0]],
        Topology::TriangleStrip,
    )
}

fn close_to(a: &Mat, b: &Mat, eps: f32) -> bool {
    (0..4).all(|i| (0..4).all(|j| (a[i][j] - b[i][j]).abs() <= eps))
}

#[test]
fn single_instance_half_turn() {
    for axis in [Axis::X, Axis::Y, Axis::Z] {
        let mut g = InstanceGroup::new(quad(), vec![IDENTITY]);
        assert_eq!(g.len(), 1);
        g.for_each_attribute_mut(&|m: Mat| rotated(m, axis, std::f32::consts::PI));
        let m = g.get(0);
        let (p, q) = axis.rotation_rows();
        let mut expected = IDENTITY;
        expected[p][p] = -1.0;
        expected[q][q] = -1.0;
        assert!(close_to(m, &expected, 1e-5), "{:?}", m);
        let call = g.draw();
        assert_eq!(call.instance_count, 1);
        assert_eq!(call.vertex_count, 4);
    }
}

#[test]
fn right_hand_rule_quarter_turn_about_z() {
    let m = rotated(IDENTITY, Axis::Z, std::f32::consts::FRAC_PI_2);
    assert!((m[0][1] + 1.0).abs() < 1e-6 && (m[1][0] - 1.0).abs() < 1e-6);
}

#[test]
fn full_turn_in_equal_steps_returns_to_identity() {
    for n in [4usize, 8, 360] {
        for axis in [Axis::X, Axis::Y, Axis::Z] {
            let theta = 2.0 * std::f32::consts::PI / n as f32;
            let mut b = BufferObject::new(vec![IDENTITY; 3]);
            for _ in 0..n {
                b.for_each_mut(&|m: Mat| rotated(m, axis, theta));
            }
            for m in b.ref_data() {
                assert!(close_to(m, &IDENTITY, 1e-4), "n = {}, {:?}", n, m);
            }
        }
    }
}

#[test]
fn many_small_rotations_keep_rows_unit() {
    let mut m = IDENTITY;
    let mut seed: u32 = 12345;
    for _ in 0..10_000 {
        seed = seed.wrapping_mul(1103515245).wrapping_add(12345);
        let axis = Axis::from_index((seed >> 16) as usize % 3).unwrap();
        let ang = ((seed >> 8) % 1000) as f32 / 1000.0 * 0.02 - 0.01;
        m = rotated(m, axis, ang);
    }
    for row in m.iter().take(3) {
        let norm = (row[0] * row[0] + row[1] * row[1] + row[2] * row[2]).sqrt();
        assert!((norm - 1.0).abs() <= 1e-3, "{}", norm);
    }
}

#[test]
fn zero_rotation_changes_nothing() {
    let start: Mat = rotated(rotated(IDENTITY, Axis::X, 0.3), Axis::Y, 1.1);
    let mut b = BufferObject::new(vec![start, IDENTITY]);
    for axis in [Axis::X, Axis::Y, Axis::Z] {
        b.for_each_mut(&|m: Mat| rotated(m, axis, 0.0));
    }
    assert_eq!(b.ref_data(), &[start, IDENTITY]);
}

fn group_of_three() -> ShapeGroup<u8, u32> {
    let mut g = ShapeGroup::default();
    g.push((Shape::from_vertices(vec![1u8, 2, 3], Topology::TrianglesList), BufferObject::new(vec![7u32])));
    g.push((
        Shape::from_vertices(vec![1u8, 2], Topology::LineStrip).with_id(2),
        BufferObject::new(vec![1u32, 2, 3, 4]),
    ));
    g.push((Shape::from_vertices(vec![9u8; 6], Topology::LinesList).with_id(1), BufferObject::new(vec![0u32; 2])));
    g
}

#[test]
fn draw_calls_follow_push_order() {
    let mut g = group_of_three();
    let expected = vec![
        DrawCall { member: 0, draw_id: 0, index_type: Topology::TrianglesList, vertex_count: 3, instance_count: 1 },
        DrawCall { member: 1, draw_id: 2, index_type: Topology::LineStrip, vertex_count: 2, instance_count: 4 },
        DrawCall { member: 2, draw_id: 1, index_type: Topology::LinesList, vertex_count: 6, instance_count: 2 },
    ];
    assert_eq!(g.draw(), expected);
    g.iter_mut_transforms(1)[0] = 50;
    assert_eq!(g.draw(), expected);
    assert_eq!(g.draw(), expected);
}

#[test]
fn group_rotate_reaches_every_member() {
    let mut g = group_of_three();
    g.rotate_axis(&|x: u32| x + 100);
    assert_eq!(g.iter_transforms(0), &[107]);
    assert_eq!(g.iter_transforms(1), &[101, 102, 103, 104]);
    assert_eq!(g.iter_transforms(2), &[100, 100]);
    assert_eq!(g.len(), 3);
}

#[test]
fn group_vertices_mutate_and_upload() {
    let mut g = group_of_three();
    g.mut_vertices(2)[5] = 0;
    g.update_vbo(2);
    assert_eq!(g.iter_shapes()[2].ref_vertices(), &[9, 9, 9, 9, 9, 0]);
    g.update_buffers();
    assert_eq!(g.iter_shapes().len(), 3);
}

#[test]
fn instance_group_set_and_draw() {
    let mut g = InstanceGroup::new(Shape::from_vertices(vec![0u8; 3], Topology::TrianglesList).with_id(4), vec![1u16; 5]);
    g.set(4, 9);
    assert_eq!(*g.get(4), 9);
    g.mut_data()[0] = 2;
    assert_eq!(g.ref_data(), &[2, 1, 1, 1, 9]);
    assert_eq!(g.ref_shape().get_id(), 4);
    let call = g.draw();
    assert_eq!(
        call,
        DrawCall { member: 0, draw_id: 4, index_type: Topology::TrianglesList, vertex_count: 3, instance_count: 5 }
    );
}
