use vstd::prelude::*;

verus! {

/// A CPU-resident array of elements mirrored into a device-side buffer of the
/// same, fixed length.
///
/// The CPU mirror is the one source of truth. The device side is written only
/// by [`BufferObject::update_buffer`], which hands out the mirror to be uploaded
/// whole; between a mutation and the next upload the device copy is stale.
/// The model keeps what the device holds as of the last upload, and the
/// length that the device storage was allocated with.
pub struct BufferObject<T> {
    data: Vec<T>,
    device_len: usize,
    synced: bool,
    device: Ghost<Seq<T>>,
}

impl<T> View for BufferObject<T> {
    type V = Seq<T>;

    /// The elements of the CPU mirror.
    closed spec fn view(&self) -> Seq<T> {
        self.data@
    }
}

impl<T> BufferObject<T> {
    /// Well-formedness: the device storage has the mirror's length, and an
    /// up-to-date device copy equals the mirror.
    pub closed spec fn wf(&self) -> bool {
        &&& self.device_len == self.data@.len()
        &&& self.device@.len() == self.data@.len()
        &&& self.synced ==> self.device@ == self.data@
    }

    /// The number of elements that the device storage was allocated for.
    pub closed spec fn spec_device_len(&self) -> nat {
        self.device_len as nat
    }

    /// What the device buffer holds, as of the last upload.
    pub closed spec fn device_view(&self) -> Seq<T> {
        self.device@
    }

    /// Whether the device copy is known to equal the mirror.
    pub closed spec fn spec_is_synced(&self) -> bool {
        self.synced
    }

    /// Allocates device storage for `initial` and fills both sides with it.
    pub fn new(initial: Vec<T>) -> (r: Self)
        ensures
            r.wf(),
            r@ == initial@,
            r.spec_device_len() == initial@.len(),
            r.device_view() == initial@,
            r.spec_is_synced(),
    {
        let device_len = initial.len();
        let ghost contents = initial@;
        BufferObject { data: initial, device_len, synced: true, device: Ghost(contents) }
    }

    /// The number of elements in the mirror.
    pub fn len(&self) -> (r: usize)
        ensures
            r == self@.len(),
    {
        self.data.len()
    }

    /// The number of elements that the device storage holds.
    pub fn device_len(&self) -> (r: usize)
        requires
            self.wf(),
        ensures
            r == self.spec_device_len(),
            r == self@.len(),
    {
        self.device_len
    }

    /// Whether the device copy is up to date with the mirror.
    pub fn is_synced(&self) -> (r: bool)
        ensures
            r == self.spec_is_synced(),
    {
        self.synced
    }

    /// The element at `index` of the mirror.
    pub fn get(&self, index: usize) -> (r: &T)
        requires
            index < self@.len(),
        ensures
            *r == self@[index as int],
    {
        &self.data[index]
    }

    /// Replaces the element at `index` of the mirror; the device copy goes stale.
    pub fn set(&mut self, index: usize, value: T)
        requires
            old(self).wf(),
            index < old(self)@.len(),
        ensures
            final(self).wf(),
            final(self)@ == old(self)@.update(index as int, value),
            final(self).spec_device_len() == old(self).spec_device_len(),
            final(self).device_view() == old(self).device_view(),
            !final(self).spec_is_synced(),
    {
        self.data.set(index, value);
        self.synced = false;
    }

    /// The whole mirror, read-only.
    pub fn ref_data(&self) -> (r: &[T])
        ensures
            r@ == self@,
    {
        self.data.as_slice()
    }

    /// The whole mirror, for in-place mutation of its elements; the device
    /// copy goes stale. A slice cannot change its length, so the buffer stays
    /// well formed (stated over the slice's final length, which the verifier
    /// does not track for slices).
    pub fn mut_data(&mut self) -> (r: &mut [T])
        requires
            old(self).wf(),
        ensures
            r@ == old(self)@,
            final(self)@ == final(r)@,
            final(r)@.len() == r@.len() ==> final(self).wf(),
            final(self).spec_device_len() == old(self).spec_device_len(),
            final(self).device_view() == old(self).device_view(),
            !final(self).spec_is_synced(),
    {
        self.synced = false;
        self.data.as_mut_slice()
    }

    /// Applies `f` to every element of the mirror with index in `lo..hi`,
    /// each independently of the others; the device copy goes stale.
    pub fn for_each_in<F: Fn(T) -> T>(&mut self, lo: usize, hi: usize, f: &F)
        where
            T: Copy,
        requires
            old(self).wf(),
            lo <= hi <= old(self)@.len(),
            forall|x: T| f.requires((x,)),
        ensures
            final(self).wf(),
            final(self)@.len() == old(self)@.len(),
            forall|i: int|
                0 <= i < old(self)@.len() && !(lo <= i < hi) ==> final(self)@[i] == old(self)@[i],
            forall|i: int|
                lo <= i < hi ==> f.ensures((old(self)@[i],), #[trigger] final(self)@[i]),
            final(self).spec_device_len() == old(self).spec_device_len(),
            final(self).device_view() == old(self).device_view(),
            lo < hi ==> !final(self).spec_is_synced(),
            lo == hi ==> final(self).spec_is_synced() == old(self).spec_is_synced(),
    {
        if lo < hi {
            self.synced = false;
        }
        let mut i = lo;
        while i < hi
            invariant
                self.wf(),
                lo <= i <= hi <= old(self)@.len(),
                self@.len() == old(self)@.len(),
                self.device_len == old(self).device_len,
                self.device@ == old(self).device@,
                self.synced == (old(self).synced && lo == hi),
                forall|x: T| f.requires((x,)),
                forall|j: int|
                    0 <= j < old(self)@.len() && !(lo <= j < i) ==> self@[j] == old(self)@[j],
                forall|j: int| lo <= j < i ==> f.ensures((old(self)@[j],), #[trigger] self@[j]),
            decreases hi - i,
        {
            let x = self.data[i];
            let y = f(x);
            self.data.set(i, y);
            i = i + 1;
        }
    }

    /// Applies `f` to every element of the mirror, each independently of the
    /// others; the device copy goes stale unless the buffer is empty.
    pub fn for_each_mut<F: Fn(T) -> T>(&mut self, f: &F)
        where
            T: Copy,
        requires
            old(self).wf(),
            forall|x: T| f.requires((x,)),
        ensures
            final(self).wf(),
            final(self)@.len() == old(self)@.len(),
            forall|i: int|
                0 <= i < old(self)@.len() ==> f.ensures((old(self)@[i],), #[trigger] final(self)@[i]),
            final(self).spec_device_len() == old(self).spec_device_len(),
            final(self).device_view() == old(self).device_view(),
            old(self)@.len() > 0 ==> !final(self).spec_is_synced(),
    {
        let n = self.data.len();
        self.for_each_in(0, n, f);
    }

    /// Uploads the mirror: the device copy becomes the mirror, unconditionally
    /// and whole. The result is what is to be written to the device storage.
    pub fn update_buffer(&mut self) -> (r: &[T])
        requires
            old(self).wf(),
        ensures
            final(self).wf(),
            final(self)@ == old(self)@,
            final(self).spec_device_len() == old(self).spec_device_len(),
            final(self).device_view() == old(self)@,
            final(self).spec_is_synced(),
            r@ == old(self)@,
    {
        self.synced = true;
        self.device = Ghost(self.data@);
        self.data.as_slice()
    }
}

/// The CPU mirror and the device storage always have the same length: every
/// well-formed buffer (which `new` makes and every method keeps) has it, and
/// the device copy is as long as the mirror too.
pub proof fn lemma_mirror_matches_device<T>(b: &BufferObject<T>)
    requires
        b.wf(),
    ensures
        b.spec_device_len() == b@.len(),
        b.device_view().len() == b@.len(),
        b.spec_is_synced() ==> b.device_view() == b@,
{
}

} // verus!
