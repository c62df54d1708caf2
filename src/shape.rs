use vstd::prelude::*;
use crate::buffer::BufferObject;
use crate::topology::{accepts, Topology};

verus! {

/// Static geometry: a vertex list of fixed length mirrored to the device, the
/// topology that assembles it into primitives, and the id of the draw call
/// (the shader program) that draws it.
pub struct Shape<V> {
    vertices: BufferObject<V>,
    index_type: Topology,
    id: usize,
}

impl<V> View for Shape<V> {
    type V = Seq<V>;

    /// The vertices.
    closed spec fn view(&self) -> Seq<V> {
        self.vertices@
    }
}

impl<V> Shape<V> {
    /// Well-formedness: the vertex buffer is well formed and its length is
    /// compatible with the topology.
    pub closed spec fn wf(&self) -> bool {
        &&& self.vertices.wf()
        &&& accepts(self.index_type, self.vertices@.len())
    }

    /// The topology.
    pub closed spec fn topology(&self) -> Topology {
        self.index_type
    }

    /// The draw-call id.
    pub closed spec fn draw_id(&self) -> nat {
        self.id as nat
    }

    /// The vertex buffer, with its device side.
    pub closed spec fn buffer(&self) -> BufferObject<V> {
        self.vertices
    }

    /// A shape with draw-call id 0 made of `vertices`, uploaded whole.
    pub fn from_vertices(vertices: Vec<V>, index_type: Topology) -> (r: Self)
        requires
            accepts(index_type, vertices@.len()),
        ensures
            r.wf(),
            r@ == vertices@,
            r.topology() == index_type,
            r.draw_id() == 0,
            r.buffer().spec_is_synced(),
    {
        Shape { vertices: BufferObject::new(vertices), index_type, id: 0 }
    }

    /// This shape, drawn by the draw call `id`.
    pub fn with_id(self, id: usize) -> (r: Self)
        ensures
            r@ == self@,
            r.topology() == self.topology(),
            r.draw_id() == id,
            r.buffer() == self.buffer(),
            self.wf() ==> r.wf(),
    {
        Shape { id, ..self }
    }

    /// The vertices, read-only.
    pub fn ref_vertices(&self) -> (r: &[V])
        ensures
            r@ == self@,
    {
        self.vertices.ref_data()
    }

    /// The vertices, for in-place mutation; their number cannot change, and
    /// the device copy goes stale.
    pub fn mut_vertices(&mut self) -> (r: &mut [V])
        requires
            old(self).wf(),
        ensures
            r@ == old(self)@,
            final(self)@ == final(r)@,
            final(r)@.len() == r@.len() ==> final(self).wf(),
            final(self).topology() == old(self).topology(),
            final(self).draw_id() == old(self).draw_id(),
            !final(self).buffer().spec_is_synced(),
    {
        self.vertices.mut_data()
    }

    /// The number of vertices.
    pub fn vertex_count(&self) -> (r: usize)
        ensures
            r == self@.len(),
    {
        self.vertices.len()
    }

    /// The topology.
    pub fn ref_index(&self) -> (r: Topology)
        ensures
            r == self.topology(),
    {
        self.index_type
    }

    /// The draw-call id.
    pub fn get_id(&self) -> (r: usize)
        ensures
            r == self.draw_id(),
    {
        self.id
    }

    /// Re-uploads every vertex, unconditionally; the result is what is to be
    /// written to the device.
    pub fn update_vbo(&mut self) -> (r: &[V])
        requires
            old(self).wf(),
        ensures
            final(self).wf(),
            final(self)@ == old(self)@,
            final(self).topology() == old(self).topology(),
            final(self).draw_id() == old(self).draw_id(),
            final(self).buffer().device_view() == old(self)@,
            final(self).buffer().spec_is_synced(),
            r@ == old(self)@,
    {
        self.vertices.update_buffer()
    }
}

} // verus!
