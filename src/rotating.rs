//! The in-place rotating buffer: the unconsumed tail of the contents is
//! rotated to the front of the one storage array it lives in.
use vstd::prelude::*;

use crate::rotate::{rotate_prefix_right, rotated_right};
use crate::stream::StreamBuffer;

verus! {

/// A buffer of `S` elements whose first `len()` elements are its contents.
///
/// New data is written into the region after the contents
/// (`get_append_only`), then counted in (`add_len`). Once a prefix of the
/// contents has been consumed, `rotate_right_and_resize_at` moves what is left
/// to the front of the storage, so that the next write lands right after it.
#[derive(Debug, Clone, Copy)]
pub struct RotatingBuffer<T: Default + Copy, const S: usize> {
    inner_length: usize,
    pub inner: [T; S],
}

impl<T: Default + Copy, const S: usize> View for RotatingBuffer<T, S> {
    type V = Seq<T>;

    /// The contents: the first `len()` elements of the storage.
    closed spec fn view(&self) -> Seq<T> {
        self.inner@.subrange(0, self.inner_length as int)
    }
}

impl<T: Default + Copy, const S: usize> RotatingBuffer<T, S> {
    /// All `S` elements of the storage, the contents first.
    pub closed spec fn storage(&self) -> Seq<T> {
        self.inner@
    }

    /// The length never exceeds the capacity.
    pub closed spec fn wf(&self) -> bool {
        self.inner_length <= S
    }

    /// An empty buffer whose storage holds `T::default()` everywhere.
    pub fn new() -> (r: RotatingBuffer<T, S>)
        ensures
            r.wf(),
            r@ == Seq::<T>::empty(),
            forall|i: int| 0 <= i < S ==> call_ensures(T::default, (), #[trigger] r.storage()[i]),
    {
        RotatingBuffer { inner: [T::default(); S], inner_length: 0 }
    }

    /// The contents, as one contiguous slice.
    pub fn as_slice(&self) -> (r: &[T])
        requires
            self.wf(),
        ensures
            r@ == self@,
    {
        vstd::slice::slice_subrange(self.inner.as_slice(), 0, self.inner_length)
    }

    /// The writable region: the storage after the contents. What is written
    /// there is written into the storage; the contents stay as they are.
    pub fn get_append_only(&mut self) -> (r: &mut [T])
        requires
            old(self).wf(),
        ensures
            r@ == old(self).storage().subrange(old(self)@.len() as int, S as int),
            r@.len() + old(self)@.len() == S,
            final(self).wf(),
            final(self)@ == old(self)@,
            final(self).storage() == old(self)@ + final(r)@,
    {
        let len = self.inner_length;
        let all: &mut [T] = &mut self.inner;
        let (_, tail) = all.split_at_mut(len);
        tail
    }

    /// Whether the contents are empty.
    pub fn is_empty(&self) -> (r: bool)
        requires
            self.wf(),
        ensures
            r == (self@.len() == 0),
    {
        self.inner_length == 0
    }

    /// The number of elements in the contents.
    pub fn len(&self) -> (r: usize)
        requires
            self.wf(),
        ensures
            r == self@.len(),
            r <= S,
    {
        self.inner_length
    }

    /// The size of the storage.
    pub fn capacity(&self) -> (r: usize)
        ensures
            r == S,
    {
        S
    }

    /// Makes the first `new_len` elements of the storage the contents.
    pub fn resize(&mut self, new_len: usize)
        requires
            old(self).wf(),
            new_len <= S,
        ensures
            final(self).wf(),
            final(self).storage() == old(self).storage(),
            final(self)@ == old(self).storage().subrange(0, new_len as int),
            final(self)@.len() == new_len,
    {
        self.inner_length = new_len;
    }

    /// Counts `new_len` more elements of the storage into the contents (those
    /// just written into the writable region) and returns the new length.
    pub fn add_len(&mut self, new_len: usize) -> (r: usize)
        requires
            old(self).wf(),
            old(self)@.len() + new_len <= S,
        ensures
            final(self).wf(),
            final(self).storage() == old(self).storage(),
            r == old(self)@.len() + new_len,
            final(self)@ == old(self).storage().subrange(0, r as int),
    {
        self.resize(self.inner_length + new_len);
        self.inner_length
    }

    /// Rotates the contents right by `k` in place, then keeps only the `k`
    /// elements that moved to the front: the last `k` elements of the old
    /// contents, in their order. The elements before them follow in the
    /// storage, and the storage after the old contents is untouched.
    pub fn rotate_right_and_resize(&mut self, k: usize)
        requires
            old(self).wf(),
            k <= old(self)@.len(),
        ensures
            final(self).wf(),
            final(self).storage() == rotated_right(old(self)@, k as int) + old(self).storage().subrange(
                old(self)@.len() as int,
                S as int,
            ),
            final(self)@ == old(self)@.subrange(old(self)@.len() - k, old(self)@.len() as int),
    {
        rotate_prefix_right(&mut self.inner, self.inner_length, k);
        self.inner_length = k;
        proof {
            assert(self@ =~= old(self)@.subrange(old(self)@.len() - k, old(self)@.len() as int));
        }
    }

    /// Drops the first `index` elements of the contents, which have been
    /// consumed, and keeps the rest at the front of the storage: the same as
    /// `rotate_right_and_resize(len() - index)`.
    pub fn rotate_right_and_resize_at(&mut self, index: usize)
        requires
            old(self).wf(),
            index <= old(self)@.len(),
        ensures
            final(self).wf(),
            final(self).storage() == rotated_right(old(self)@, old(self)@.len() - index)
                + old(self).storage().subrange(old(self)@.len() as int, S as int),
            final(self)@ == old(self)@.subrange(index as int, old(self)@.len() as int),
            index == old(self)@.len() ==> final(self)@.len() == 0,
    {
        self.rotate_right_and_resize(self.inner_length - index);
    }
}

impl<T: Default + Copy, const S: usize> Default for RotatingBuffer<T, S> {
    fn default() -> (r: Self)
        ensures
            r.wf(),
            r@ == Seq::<T>::empty(),
    {
        Self::new()
    }
}

impl<T: Default + Copy, const S: usize> StreamBuffer<T> for RotatingBuffer<T, S> {
    open spec fn valid(&self) -> bool {
        self.wf()
    }

    open spec fn write_offset(&self) -> nat {
        self@.len()
    }

    open spec fn writable_len(&self) -> nat {
        (S - self@.len()) as nat
    }

    open spec fn retain_limit(&self) -> nat {
        S as nat
    }

    fn writable_region(&mut self) -> (r: &mut [T]) {
        self.get_append_only()
    }

    fn contents(&self) -> (r: &[T]) {
        self.as_slice()
    }

    fn length(&self) -> (r: usize) {
        self.len()
    }

    fn commit(&mut self, n: usize) -> (r: usize) {
        self.add_len(n)
    }

    fn retain_from(&mut self, index: usize) {
        self.rotate_right_and_resize_at(index)
    }

    fn retain_capacity(&self) -> (r: usize) {
        S
    }
}

/// Whatever operations a buffer has been through, its length stays between
/// zero and its capacity: every constructor establishes `wf` and every
/// operation keeps it.
pub proof fn length_within_capacity<T: Default + Copy, const S: usize>(b: RotatingBuffer<T, S>)
    requires
        b.wf(),
    ensures
        0 <= b@.len() <= S,
        b@ == b.storage().subrange(0, b@.len() as int),
{
}

} // verus!
