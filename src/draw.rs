use vstd::prelude::*;
use crate::buffer::BufferObject;
use crate::shape::Shape;
use crate::topology::Topology;

verus! {

/// One instanced draw call: the shape of member `member` of a group, drawn
/// with program `draw_id`, its `vertex_count` vertices as the per-vertex
/// stream and `instance_count` attribute records as the per-instance stream.
#[derive(Clone, Copy, Debug, PartialEq, Eq, Structural)]
pub struct DrawCall {
    pub member: usize,
    pub draw_id: usize,
    pub index_type: Topology,
    pub vertex_count: usize,
    pub instance_count: usize,
}

/// The draw call for member `k`, with shape `s` and instance buffer `b`.
pub open spec fn call_of<V, T>(k: int, s: Shape<V>, b: BufferObject<T>) -> DrawCall {
    DrawCall {
        member: k as usize,
        draw_id: s.draw_id() as usize,
        index_type: s.topology(),
        vertex_count: s@.len() as usize,
        instance_count: b@.len() as usize,
    }
}

/// The draw calls for the pairs `(shapes[k], buffers[k])`, one per pair, in
/// order.
pub open spec fn draw_plan<V, T>(shapes: Seq<Shape<V>>, buffers: Seq<BufferObject<T>>) -> Seq<DrawCall> {
    Seq::new(shapes.len(), |k: int| call_of(k, shapes[k], buffers[k]))
}

/// The draw call for member `k`, with shape `s` and instance buffer `b`.
pub fn make_call<V, T>(k: usize, s: &Shape<V>, b: &BufferObject<T>) -> (r: DrawCall)
    ensures
        r == call_of(k as int, *s, *b),
{
    DrawCall {
        member: k,
        draw_id: s.get_id(),
        index_type: s.ref_index(),
        vertex_count: s.vertex_count(),
        instance_count: b.len(),
    }
}

} // verus!
