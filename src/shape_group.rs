use vstd::prelude::*;
use crate::buffer::BufferObject;
use crate::draw::{call_of, draw_plan, make_call, DrawCall};
use crate::shape::Shape;

verus! {

/// An ordered collection of (shape, attribute buffer) pairs, drawn together
/// in the order they were pushed. Members are independent of each other.
pub struct ShapeGroup<V, T> {
    shapes: Vec<Shape<V>>,
    transforms: Vec<BufferObject<T>>,
}

impl<V, T> ShapeGroup<V, T> {
    /// The shapes of the members, in push order.
    pub closed spec fn shapes(&self) -> Seq<Shape<V>> {
        self.shapes@
    }

    /// The attribute buffers of the members, in push order.
    pub closed spec fn buffers(&self) -> Seq<BufferObject<T>> {
        self.transforms@
    }

    /// Well-formedness: one buffer per shape, each shape and buffer well formed.
    pub closed spec fn wf(&self) -> bool {
        &&& self.shapes@.len() == self.transforms@.len()
        &&& forall|k: int| 0 <= k < self.shapes@.len() ==> (#[trigger] self.shapes@[k]).wf()
        &&& forall|k: int| 0 <= k < self.transforms@.len() ==> (#[trigger] self.transforms@[k]).wf()
    }

    /// An empty group.
    pub fn new() -> (r: Self)
        ensures
            r.wf(),
            r.shapes().len() == 0,
            r.buffers().len() == 0,
    {
        ShapeGroup { shapes: Vec::new(), transforms: Vec::new() }
    }

    /// Appends a member.
    pub fn push(&mut self, obj: (Shape<V>, BufferObject<T>))
        requires
            old(self).wf(),
            obj.0.wf(),
            obj.1.wf(),
        ensures
            final(self).wf(),
            final(self).shapes() == old(self).shapes().push(obj.0),
            final(self).buffers() == old(self).buffers().push(obj.1),
    {
        let (shape, buffer) = obj;
        self.shapes.push(shape);
        self.transforms.push(buffer);
        proof {
            assert forall|k: int| 0 <= k < self.shapes@.len() implies (#[trigger] self.shapes@[k]).wf() by {
                if k < old(self).shapes@.len() {
                    assert(self.shapes@[k] == old(self).shapes@[k]);
                }
            }
            assert forall|k: int| 0 <= k < self.transforms@.len() implies (#[trigger] self.transforms@[k]).wf() by {
                if k < old(self).transforms@.len() {
                    assert(self.transforms@[k] == old(self).transforms@[k]);
                }
            }
        }
    }

    /// The number of members.
    pub fn len(&self) -> (r: usize)
        requires
            self.wf(),
        ensures
            r == self.shapes().len(),
            r == self.buffers().len(),
    {
        self.shapes.len()
    }

    /// The shapes, in push order.
    pub fn iter_shapes(&self) -> (r: &[Shape<V>])
        ensures
            r@ == self.shapes(),
    {
        self.shapes.as_slice()
    }

    /// The attributes of member `index`, read-only.
    pub fn iter_transforms(&self, index: usize) -> (r: &[T])
        requires
            self.wf(),
            index < self.shapes().len(),
        ensures
            r@ == self.buffers()[index as int]@,
    {
        self.transforms[index].ref_data()
    }

    /// Uploads every member's attribute buffer, unconditionally.
    pub fn update_buffers(&mut self)
        requires
            old(self).wf(),
        ensures
            final(self).wf(),
            final(self).shapes() == old(self).shapes(),
            final(self).buffers().len() == old(self).buffers().len(),
            forall|k: int|
                0 <= k < old(self).buffers().len() ==> {
                    &&& (#[trigger] final(self).buffers()[k])@ == old(self).buffers()[k]@
                    &&& final(self).buffers()[k].spec_device_len() == old(self).buffers()[k].spec_device_len()
                    &&& final(self).buffers()[k].device_view() == old(self).buffers()[k]@
                    &&& final(self).buffers()[k].spec_is_synced()
                },
    {
        let n = self.transforms.len();
        let mut k: usize = 0;
        while k < n
            invariant
                self.wf(),
                n == self.transforms@.len(),
                0 <= k <= n,
                self.shapes@ == old(self).shapes@,
                self.transforms@.len() == old(self).transforms@.len(),
                forall|j: int| k <= j < n ==> self.transforms@[j] == old(self).transforms@[j],
                forall|j: int|
                    0 <= j < k ==> {
                        &&& (#[trigger] self.transforms@[j])@ == old(self).transforms@[j]@
                        &&& self.transforms@[j].spec_device_len() == old(self).transforms@[j].spec_device_len()
                        &&& self.transforms@[j].device_view() == old(self).transforms@[j]@
                        &&& self.transforms@[j].spec_is_synced()
                    },
            decreases n - k,
        {
            self.transforms[k].update_buffer();
            k = k + 1;
        }
    }
    /// The attributes of member `index`, for in-place mutation.
    pub fn iter_mut_transforms(&mut self, index: usize) -> (r: &mut [T])
        requires
            old(self).wf(),
            index < old(self).shapes().len(),
        ensures
            r@ == old(self).buffers()[index as int]@,
            final(self).shapes() == old(self).shapes(),
            final(self).buffers().len() == old(self).buffers().len(),
            final(self).buffers()[index as int]@ == final(r)@,
            final(self).buffers()[index as int].spec_device_len()
                == old(self).buffers()[index as int].spec_device_len(),
            forall|j: int|
                0 <= j < old(self).buffers().len() && j != index ==> #[trigger] final(self).buffers()[j]
                    == old(self).buffers()[j],
            final(r)@.len() == r@.len() ==> final(self).wf(),
    {
        self.transforms[index].mut_data()
    }

    /// The vertices of member `index`, for in-place mutation.
    pub fn mut_vertices(&mut self, index: usize) -> (r: &mut [V])
        requires
            old(self).wf(),
            index < old(self).shapes().len(),
        ensures
            r@ == old(self).shapes()[index as int]@,
            final(self).buffers() == old(self).buffers(),
            final(self).shapes().len() == old(self).shapes().len(),
            final(self).shapes()[index as int]@ == final(r)@,
            final(self).shapes()[index as int].topology() == old(self).shapes()[index as int].topology(),
            final(self).shapes()[index as int].draw_id() == old(self).shapes()[index as int].draw_id(),
            forall|j: int|
                0 <= j < old(self).shapes().len() && j != index ==> #[trigger] final(self).shapes()[j]
                    == old(self).shapes()[j],
            final(r)@.len() == r@.len() ==> final(self).wf(),
    {
        self.shapes[index].mut_vertices()
    }

    /// Re-uploads every vertex of member `index`; what is to be written to the
    /// device is then that shape's `ref_vertices()`.
    pub fn update_vbo(&mut self, index: usize)
        requires
            old(self).wf(),
            index < old(self).shapes().len(),
        ensures
            final(self).wf(),
            final(self).buffers() == old(self).buffers(),
            final(self).shapes().len() == old(self).shapes().len(),
            final(self).shapes()[index as int]@ == old(self).shapes()[index as int]@,
            final(self).shapes()[index as int].topology() == old(self).shapes()[index as int].topology(),
            final(self).shapes()[index as int].draw_id() == old(self).shapes()[index as int].draw_id(),
            final(self).shapes()[index as int].buffer().spec_is_synced(),
            forall|j: int|
                0 <= j < old(self).shapes().len() && j != index ==> #[trigger] final(self).shapes()[j]
                    == old(self).shapes()[j],
            final(self).shapes()[index as int].buffer().device_view() == old(self).shapes()[index as int]@,
    {
        self.shapes[index].update_vbo();
        proof {
            assert forall|k: int| 0 <= k < self.shapes@.len() implies (#[trigger] self.shapes@[k]).wf() by {
                if k != index {
                    assert(self.shapes@[k] == old(self).shapes@[k]);
                }
            }
        }
    }

    /// Applies `f` to every attribute record of every member (a group-wide
    /// rotation, for one), each record independently of the others.
    pub fn rotate_axis<F: Fn(T) -> T>(&mut self, f: &F)
        where
            T: Copy,
        requires
            old(self).wf(),
            forall|x: T| f.requires((x,)),
        ensures
            final(self).wf(),
            final(self).shapes() == old(self).shapes(),
            final(self).buffers().len() == old(self).buffers().len(),
            forall|k: int|
                0 <= k < old(self).buffers().len() ==> {
                    &&& (#[trigger] final(self).buffers()[k])@.len() == old(self).buffers()[k]@.len()
                    &&& final(self).buffers()[k].spec_device_len() == old(self).buffers()[k].spec_device_len()
                    &&& forall|i: int|
                        0 <= i < old(self).buffers()[k]@.len() ==> f.ensures(
                            (old(self).buffers()[k]@[i],),
                            #[trigger] final(self).buffers()[k]@[i],
                        )
                },
    {
        let n = self.transforms.len();
        let mut k: usize = 0;
        while k < n
            invariant
                self.wf(),
                n == self.transforms@.len(),
                0 <= k <= n,
                forall|x: T| f.requires((x,)),
                self.shapes@ == old(self).shapes@,
                self.transforms@.len() == old(self).transforms@.len(),
                forall|j: int| k <= j < n ==> self.transforms@[j] == old(self).transforms@[j],
                forall|j: int|
                    0 <= j < k ==> {
                        &&& (#[trigger] self.transforms@[j])@.len() == old(self).transforms@[j]@.len()
                        &&& self.transforms@[j].spec_device_len() == old(self).transforms@[j].spec_device_len()
                        &&& forall|i: int|
                            0 <= i < old(self).transforms@[j]@.len() ==> f.ensures(
                                (old(self).transforms@[j]@[i],),
                                #[trigger] self.transforms@[j]@[i],
                            )
                    },
            decreases n - k,
        {
            self.transforms[k].for_each_mut(f);
            k = k + 1;
        }
    }

    /// The draw pass: uploads each member's attributes and describes its one
    /// instanced draw call, member by member in push order. The attributes to
    /// be written for member `k` are then `iter_transforms(k)`.
    pub fn draw(&mut self) -> (r: Vec<DrawCall>)
        requires
            old(self).wf(),
        ensures
            final(self).wf(),
            final(self).shapes() == old(self).shapes(),
            final(self).buffers().len() == old(self).buffers().len(),
            forall|k: int|
                0 <= k < old(self).buffers().len() ==> {
                    &&& (#[trigger] final(self).buffers()[k])@ == old(self).buffers()[k]@
                    &&& final(self).buffers()[k].spec_device_len() == old(self).buffers()[k].spec_device_len()
                    &&& final(self).buffers()[k].device_view() == old(self).buffers()[k]@
                    &&& final(self).buffers()[k].spec_is_synced()
                },
            r@ == draw_plan(old(self).shapes(), old(self).buffers()),
    {
        self.update_buffers();
        let n = self.shapes.len();
        let mut calls: Vec<DrawCall> = Vec::new();
        let mut k: usize = 0;
        while k < n
            invariant
                self.wf(),
                n == self.shapes@.len(),
                0 <= k <= n,
                self.shapes@ == old(self).shapes@,
                forall|j: int| 0 <= j < n ==> (#[trigger] self.transforms@[j])@ == old(self).transforms@[j]@,
                calls@.len() == k,
                forall|j: int| 0 <= j < k ==> #[trigger] calls@[j] == call_of(j, self.shapes@[j], old(self).transforms@[j]),
            decreases n - k,
        {
            let c = make_call(k, &self.shapes[k], &self.transforms[k]);
            calls.push(c);
            k = k + 1;
        }
        assert(calls@ =~= draw_plan(old(self).shapes(), old(self).buffers()));
        calls
    }
}

/// An empty group.
impl<V, T> Default for ShapeGroup<V, T> {
    fn default() -> (r: Self)
        ensures
            r.wf(),
            r.shapes().len() == 0,
            r.buffers().len() == 0,
    {
        ShapeGroup::new()
    }
}

/// The draw pass issues one call per member, in push order: for a group whose
/// members were pushed as `pairs`, the calls are exactly those of `pairs[0]`,
/// `pairs[1]`, ... in that order. The plan depends on the members' shapes and
/// attribute counts alone, which a draw pass does not change, so every pass
/// over the same members issues the same sequence.
pub proof fn lemma_draw_order<V, T>(
    shapes: Seq<Shape<V>>,
    buffers: Seq<BufferObject<T>>,
    later_buffers: Seq<BufferObject<T>>,
)
    requires
        shapes.len() == buffers.len(),
        later_buffers.len() == buffers.len(),
        forall|k: int| 0 <= k < buffers.len() ==> (#[trigger] later_buffers[k])@.len() == buffers[k]@.len(),
    ensures
        draw_plan(shapes, buffers).len() == shapes.len(),
        forall|k: int|
            0 <= k < shapes.len() ==> (#[trigger] draw_plan(shapes, buffers)[k]).member == k as usize
                && draw_plan(shapes, buffers)[k] == call_of(k, shapes[k], buffers[k]),
        draw_plan(shapes, later_buffers) == draw_plan(shapes, buffers),
{
    assert(draw_plan(shapes, later_buffers) =~= draw_plan(shapes, buffers));
}

/// Pushing a member onto a group appends that member's call to the end of the
/// draw plan and leaves the calls of the earlier members as they were.
pub proof fn lemma_push_appends_call<V, T>(
    shapes: Seq<Shape<V>>,
    buffers: Seq<BufferObject<T>>,
    s: Shape<V>,
    b: BufferObject<T>,
)
    requires
        shapes.len() == buffers.len(),
    ensures
        draw_plan(shapes.push(s), buffers.push(b)) == draw_plan(shapes, buffers).push(
            call_of(shapes.len() as int, s, b),
        ),
{
    assert(draw_plan(shapes.push(s), buffers.push(b)) =~= draw_plan(shapes, buffers).push(
        call_of(shapes.len() as int, s, b),
    ));
}

} // verus!
