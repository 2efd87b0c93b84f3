//! In-place rotation of an array prefix, by three reversals.
use vstd::prelude::*;

verus! {

/// `s` rotated right by `k`: its last `k` elements, then the others, each run
/// in its original order.
pub open spec fn rotated_right<T>(s: Seq<T>, k: int) -> Seq<T>
    recommends
        0 <= k <= s.len(),
{
    s.subrange(s.len() - k, s.len() as int) + s.subrange(0, s.len() - k)
}

/// Reverses `a[lo..hi]` in place, leaving the rest of `a` as it was.
fn reverse_range<T: Copy, const N: usize>(a: &mut [T; N], lo: usize, hi: usize)
    requires
        lo <= hi <= N,
    ensures
        forall|i: int|
            #![trigger final(a)@[i]]
            0 <= i < N ==> final(a)@[i] == if lo <= i < hi {
                old(a)@[lo + hi - 1 - i]
            } else {
                old(a)@[i]
            },
{
    let half: usize = (hi - lo) / 2;
    let mut d: usize = 0;
    while d < half
        invariant
            lo <= hi <= N,
            half == (hi - lo) / 2,
            d <= half,
            forall|i: int|
                #![trigger a@[i]]
                0 <= i < N ==> a@[i] == if (lo <= i < lo + d || hi - d <= i < hi) {
                    old(a)@[lo + hi - 1 - i]
                } else {
                    old(a)@[i]
                },
        decreases half - d,
    {
        let i: usize = lo + d;
        let j: usize = hi - 1 - d;
        let x: T = a[i];
        a[i] = a[j];
        a[j] = x;
        d = d + 1;
    }
}

/// Rotates `a[0..len]` right by `k` in place: its last `k` elements move to the
/// front, the other `len - k` follow them. `a[len..]` stays as it was.
pub fn rotate_prefix_right<T: Copy, const N: usize>(a: &mut [T; N], len: usize, k: usize)
    requires
        k <= len <= N,
    ensures
        final(a)@ == rotated_right(old(a)@.subrange(0, len as int), k as int) + old(a)@.subrange(
            len as int,
            N as int,
        ),
{
    let ghost a0 = a@;
    reverse_range(a, 0, len);
    let ghost a1 = a@;
    reverse_range(a, 0, k);
    let ghost a2 = a@;
    reverse_range(a, k, len);
    let ghost a3 = a@;
    assert forall|i: int| 0 <= i < N implies a3[i] == if i < k {
        a0[len - k + i]
    } else if i < len {
        a0[i - k]
    } else {
        a0[i]
    } by {
        if i < k {
            assert(a3[i] == a2[i]);
            assert(a2[i] == a1[k - 1 - i]);
        } else if i < len {
            assert(a3[i] == a2[k + len - 1 - i]);
            assert(a2[k + len - 1 - i] == a1[k + len - 1 - i]);
        }
    }
    assert(a@ =~= rotated_right(a0.subrange(0, len as int), k as int) + a0.subrange(
        len as int,
        N as int,
    ));
}

} // verus!
