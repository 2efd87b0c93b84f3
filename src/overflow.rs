//! The overflow-region buffer: the storage is split into a primary region of
//! `S - R` elements, which each write fills, and `R` elements of overflow in
//! front of it, which hold the unconsumed tail between two writes.
use vstd::prelude::*;

use crate::stream::StreamBuffer;

verus! {

/// A buffer of `S` elements, of which `R` are set aside to hold a retained
/// tail, so that the writable region always has `S - R` elements.
///
/// After `overflow_at` the retained tail sits at the front of the storage and
/// the writable region follows it; `resize` then counts the written elements
/// in, after the retained ones.
#[derive(Debug, Clone, Copy)]
pub struct OverflowBuffer<T: Default + Copy, const S: usize, const R: usize> {
    inner_length: usize,
    overflow_length: usize,
    inner: [T; S],
}

impl<T: Default + Copy, const S: usize, const R: usize> View for OverflowBuffer<T, S, R> {
    type V = Seq<T>;

    /// The contents: the first `len()` elements of the storage.
    closed spec fn view(&self) -> Seq<T> {
        self.inner@.subrange(0, self.inner_length as int)
    }
}

impl<T: Default + Copy, const S: usize, const R: usize> OverflowBuffer<T, S, R> {
    /// All `S` elements of the storage, the contents first.
    pub closed spec fn storage(&self) -> Seq<T> {
        self.inner@
    }

    /// How many elements at the front of the storage were retained by the
    /// last `overflow_at` and not yet counted over by `resize`.
    pub closed spec fn retained(&self) -> nat {
        self.overflow_length as nat
    }

    /// The overflow region fits in the storage, the retained elements fit in
    /// the overflow region and are part of the contents, and the contents fit
    /// in the storage.
    pub closed spec fn wf(&self) -> bool {
        &&& R <= S
        &&& self.overflow_length <= R
        &&& self.overflow_length <= self.inner_length <= S
    }

    /// An empty buffer whose storage holds `T::default()` everywhere.
    pub fn new() -> (r: OverflowBuffer<T, S, R>)
        requires
            R <= S,
        ensures
            r.wf(),
            r@ == Seq::<T>::empty(),
            r.retained() == 0,
            forall|i: int|
                0 <= i < S ==> call_ensures(T::default, (), #[trigger] r.storage()[i]),
    {
        OverflowBuffer { inner: [T::default(); S], inner_length: 0, overflow_length: 0 }
    }

    /// The contents, as one contiguous slice.
    pub fn as_slice(&self) -> (r: &[T])
        requires
            self.wf(),
        ensures
            r@ == self@,
    {
        vstd::slice::slice_subrange(self.inner.as_slice(), 0, self.inner_length)
    }

    /// The writable region: the `S - R` elements of storage right after the
    /// retained ones. What is written there is written into the storage.
    pub fn get_append_only(&mut self) -> (r: &mut [T])
        requires
            old(self).wf(),
        ensures
            r@ == old(self).storage().subrange(
                old(self).retained() as int,
                old(self).retained() + S - R,
            ),
            r@.len() == S - R,
            final(self).wf(),
            final(self)@.len() == old(self)@.len(),
            final(self).retained() == old(self).retained(),
            final(self).storage() == old(self).storage().subrange(0, old(self).retained() as int)
                + final(r)@ + old(self).storage().subrange(
                old(self).retained() + S - R,
                S as int,
            ),
    {
        let start = self.overflow_length;
        let all: &mut [T] = &mut self.inner;
        let (_, rest) = all.split_at_mut(start);
        let (region, _) = rest.split_at_mut(S - R);
        region
    }

    /// Whether the contents are empty.
    pub fn is_empty(&self) -> (r: bool)
        requires
            self.wf(),
        ensures
            r == (self@.len() == 0),
    {
        self.inner_length == 0
    }

    /// The number of elements in the contents.
    pub fn len(&self) -> (r: usize)
        requires
            self.wf(),
        ensures
            r == self@.len(),
            r <= S,
    {
        self.inner_length
    }

    /// The size of the whole storage, overflow region included.
    pub fn capacity(&self) -> (r: usize)
        ensures
            r == S,
    {
        S
    }

    /// The size of the writable region.
    pub fn primary_capacity(&self) -> (r: usize)
        requires
            self.wf(),
        ensures
            r == S - R,
    {
        S - R
    }

    /// The size of the overflow region: how much `overflow_at` can retain.
    pub fn overflow_capacity(&self) -> (r: usize)
        ensures
            r == R,
    {
        R
    }

    /// Counts `new_len` elements just written into the writable region into
    /// the contents, after the retained ones, which stop being set apart.
    pub fn resize(&mut self, new_len: usize)
        requires
            old(self).wf(),
            new_len <= S - R,
        ensures
            final(self).wf(),
            final(self).storage() == old(self).storage(),
            final(self).retained() == 0,
            final(self)@.len() == old(self).retained() + new_len,
            final(self)@ == old(self).storage().subrange(0, final(self)@.len() as int),
    {
        self.inner_length = self.overflow_length + new_len;
        self.overflow_length = 0;
    }

    /// Drops the first `index` elements of the contents, which have been
    /// consumed, and retains the rest: the storage is replaced by a fresh one
    /// of `T::default()` whose front holds the retained elements.
    pub fn overflow_at(&mut self, index: usize)
        requires
            old(self).wf(),
            index <= old(self)@.len(),
            old(self)@.len() - index <= R,
        ensures
            final(self).wf(),
            final(self)@ == old(self)@.subrange(index as int, old(self)@.len() as int),
            final(self).retained() == old(self)@.len() - index,
            forall|i: int|
                final(self)@.len() <= i < S ==> call_ensures(
                    T::default,
                    (),
                    #[trigger] final(self).storage()[i],
                ),
            index == old(self)@.len() ==> final(self)@.len() == 0,
    {
        let k: usize = self.inner_length - index;
        let mut fresh: [T; S] = [T::default(); S];
        let mut i: usize = 0;
        while i < k
            invariant
                self == old(self),
                self.wf(),
                k == self.inner_length - index,
                index <= self.inner_length,
                i <= k,
                forall|j: int| 0 <= j < i ==> fresh@[j] == self.inner@[index + j],
                forall|j: int|
                    i <= j < S ==> call_ensures(T::default, (), #[trigger] fresh@[j]),
            decreases k - i,
        {
            fresh[i] = self.inner[index + i];
            i = i + 1;
        }
        self.inner = fresh;
        self.inner_length = k;
        self.overflow_length = k;
        proof {
            assert(self@ =~= old(self)@.subrange(index as int, old(self)@.len() as int));
        }
    }
}

impl<T: Default + Copy, const S: usize, const R: usize> StreamBuffer<T> for OverflowBuffer<
    T,
    S,
    R,
> {
    open spec fn valid(&self) -> bool {
        self.wf()
    }

    open spec fn write_offset(&self) -> nat {
        self.retained()
    }

    open spec fn writable_len(&self) -> nat {
        (S - R) as nat
    }

    open spec fn retain_limit(&self) -> nat {
        R as nat
    }

    fn writable_region(&mut self) -> (r: &mut [T]) {
        self.get_append_only()
    }

    fn contents(&self) -> (r: &[T]) {
        self.as_slice()
    }

    fn length(&self) -> (r: usize) {
        self.len()
    }

    fn commit(&mut self, n: usize) -> (r: usize) {
        self.resize(n);
        self.inner_length
    }

    fn retain_from(&mut self, index: usize) {
        self.overflow_at(index)
    }

    fn retain_capacity(&self) -> (r: usize) {
        R
    }
}

/// Whatever operations a buffer has been through, its length stays within
/// the primary and overflow regions together, and what it retains leaves
/// room for a whole writable region after it.
pub proof fn length_within_capacity<T: Default + Copy, const S: usize, const R: usize>(
    b: OverflowBuffer<T, S, R>,
)
    requires
        b.wf(),
    ensures
        0 <= b@.len() <= (S - R) + R,
        b.retained() <= b@.len(),
        b.retained() + (S - R) <= S,
        b@ == b.storage().subrange(0, b@.len() as int),
{
}

} // verus!
