use vstd::prelude::*;
use crate::buffer::BufferObject;
use crate::draw::{call_of, make_call, DrawCall};
use crate::shape::Shape;

verus! {

/// One shape drawn once per record of one attribute buffer.
pub struct InstanceGroup<V, T> {
    shape: Shape<V>,
    transforms: BufferObject<T>,
}

impl<V, T> View for InstanceGroup<V, T> {
    type V = Seq<T>;

    /// The per-instance attributes.
    closed spec fn view(&self) -> Seq<T> {
        self.transforms@
    }
}

impl<V, T> InstanceGroup<V, T> {
    /// Well-formedness: the shape and the attribute buffer are well formed.
    pub closed spec fn wf(&self) -> bool {
        self.shape.wf() && self.transforms.wf()
    }

    /// The shape.
    pub closed spec fn shape(&self) -> Shape<V> {
        self.shape
    }

    /// The attribute buffer, with its device side.
    pub closed spec fn buffer(&self) -> BufferObject<T> {
        self.transforms
    }

    /// Binds `shape` to a new attribute buffer holding `transforms`, one record
    /// per instance.
    pub fn new(shape: Shape<V>, transforms: Vec<T>) -> (r: Self)
        requires
            shape.wf(),
        ensures
            r.wf(),
            r.shape() == shape,
            r@ == transforms@,
            r.buffer().spec_device_len() == transforms@.len(),
    {
        InstanceGroup { shape, transforms: BufferObject::new(transforms) }
    }

    /// The number of instances.
    pub fn len(&self) -> (r: usize)
        ensures
            r == self@.len(),
    {
        self.transforms.len()
    }

    /// The attributes of instance `index`.
    pub fn get(&self, index: usize) -> (r: &T)
        requires
            index < self@.len(),
        ensures
            *r == self@[index as int],
    {
        self.transforms.get(index)
    }

    /// Replaces the attributes of instance `index`.
    pub fn set(&mut self, index: usize, value: T)
        requires
            old(self).wf(),
            index < old(self)@.len(),
        ensures
            final(self).wf(),
            final(self)@ == old(self)@.update(index as int, value),
            final(self).shape() == old(self).shape(),
            final(self).buffer().spec_device_len() == old(self).buffer().spec_device_len(),
    {
        self.transforms.set(index, value);
    }

    /// The shape, read-only.
    pub fn ref_shape(&self) -> (r: &Shape<V>)
        ensures
            *r == self.shape(),
    {
        &self.shape
    }

    /// The attributes of every instance, read-only.
    pub fn ref_data(&self) -> (r: &[T])
        ensures
            r@ == self@,
    {
        self.transforms.ref_data()
    }

    /// The attributes of every instance, for in-place mutation.
    pub fn mut_data(&mut self) -> (r: &mut [T])
        requires
            old(self).wf(),
        ensures
            r@ == old(self)@,
            final(self)@ == final(r)@,
            final(r)@.len() == r@.len() ==> final(self).wf(),
            final(self).shape() == old(self).shape(),
            final(self).buffer().spec_device_len() == old(self).buffer().spec_device_len(),
    {
        self.transforms.mut_data()
    }

    /// Applies `f` to the attributes of every instance, each independently of
    /// the others.
    pub fn for_each_attribute_mut<F: Fn(T) -> T>(&mut self, f: &F)
        where
            T: Copy,
        requires
            old(self).wf(),
            forall|x: T| f.requires((x,)),
        ensures
            final(self).wf(),
            final(self)@.len() == old(self)@.len(),
            forall|i: int|
                0 <= i < old(self)@.len() ==> f.ensures((old(self)@[i],), #[trigger] final(self)@[i]),
            final(self).shape() == old(self).shape(),
            final(self).buffer().spec_device_len() == old(self).buffer().spec_device_len(),
    {
        self.transforms.for_each_mut(f);
    }

    /// Uploads the attributes and describes the one instanced draw call of
    /// this group: the shape's vertices once per instance. The attributes to
    /// be written to the device are then [`InstanceGroup::ref_data`].
    pub fn draw(&mut self) -> (r: DrawCall)
        requires
            old(self).wf(),
        ensures
            final(self).wf(),
            final(self)@ == old(self)@,
            final(self).shape() == old(self).shape(),
            final(self).buffer().spec_is_synced(),
            final(self).buffer().device_view() == old(self)@,
            final(self).buffer().spec_device_len() == old(self).buffer().spec_device_len(),
            r == call_of(0, old(self).shape(), old(self).buffer()),
    {
        self.transforms.update_buffer();
        make_call(0, &self.shape, &self.transforms)
    }
}

} // verus!
