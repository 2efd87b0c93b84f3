//! The interface that both buffer layouts offer to a stream-consuming loop:
//! write into a region, count what was written in, read the contents, and
//! keep the unconsumed tail for the next round.
use vstd::prelude::*;

verus! {

/// A fixed-capacity buffer that a stream is read into chunk by chunk.
pub trait StreamBuffer<T>: View<V = Seq<T>> + Sized {
    /// The buffer's invariant.
    spec fn valid(&self) -> bool;

    /// How many elements at the front of the storage precede the writable
    /// region.
    spec fn write_offset(&self) -> nat;

    /// The size of the writable region.
    spec fn writable_len(&self) -> nat;

    /// The longest tail that `retain_from` can keep.
    spec fn retain_limit(&self) -> nat;

    /// The region that the next chunk is written into.
    fn writable_region(&mut self) -> (r: &mut [T])
        requires
            old(self).valid(),
        ensures
            r@.len() == old(self).writable_len(),
            final(self).valid(),
            final(self)@.len() == old(self)@.len(),
            final(self).write_offset() == old(self).write_offset(),
            final(self).writable_len() == old(self).writable_len(),
            final(self).retain_limit() == old(self).retain_limit(),
    ;

    /// The contents, as one contiguous slice.
    fn contents(&self) -> (r: &[T])
        requires
            self.valid(),
        ensures
            r@ == self@,
    ;

    /// The number of elements in the contents.
    fn length(&self) -> (r: usize)
        requires
            self.valid(),
        ensures
            r == self@.len(),
    ;

    /// Counts the first `n` elements of the writable region in: the contents
    /// then end where they end. Returns the new length.
    fn commit(&mut self, n: usize) -> (r: usize)
        requires
            old(self).valid(),
            n <= old(self).writable_len(),
        ensures
            final(self).valid(),
            r == old(self).write_offset() + n,
            final(self)@.len() == r,
            final(self).retain_limit() == old(self).retain_limit(),
    ;

    /// Drops the first `index` elements of the contents and keeps the rest,
    /// in order, as the new contents.
    fn retain_from(&mut self, index: usize)
        requires
            old(self).valid(),
            index <= old(self)@.len(),
            old(self)@.len() - index <= old(self).retain_limit(),
        ensures
            final(self).valid(),
            final(self)@ == old(self)@.subrange(index as int, old(self)@.len() as int),
            final(self).write_offset() == final(self)@.len(),
            final(self).retain_limit() == old(self).retain_limit(),
    ;

    /// The longest tail that `retain_from` can keep.
    fn retain_capacity(&self) -> (r: usize)
        requires
            self.valid(),
        ensures
            r == self.retain_limit(),
    ;
}

} // verus!
