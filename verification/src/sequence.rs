//! The list every access pattern starts from.
use vstd::prelude::*;

verus! {

/// Number of elements in a starting list.
pub const LENGTH: usize = 10;

/// Position of the only element that a pattern ever changes.
pub const TARGET: usize = 7;

/// The elements `1, 2, ..., 10`.
pub open spec fn counting() -> Seq<i32> {
    seq![1i32, 2i32, 3i32, 4i32, 5i32, 6i32, 7i32, 8i32, 9i32, 10i32]
}

/// Ten zeros.
pub open spec fn zeros() -> Seq<i32> {
    Seq::new(LENGTH as nat, |i: int| 0i32)
}

/// A fresh list holding `1, 2, ..., 10`.
pub fn counting_list() -> (list: Vec<i32>)
    ensures
        list@ == counting(),
{
    vec![1, 2, 3, 4, 5, 6, 7, 8, 9, 10]
}

/// A fresh list of ten zeros.
pub fn zeroed_list() -> (list: Vec<i32>)
    ensures
        list@ == zeros(),
{
    vec![0; LENGTH]
}

/// Whether two lists hold the same elements in the same order.
pub fn same_list(a: &Vec<i32>, b: &Vec<i32>) -> (same: bool)
    ensures
        same == (a@ == b@),
{
    if a.len() != b.len() {
        return false;
    }
    let mut i: usize = 0;
    while i < a.len()
        invariant
            a.len() == b.len(),
            i <= a.len(),
            forall|k: int| 0 <= k < i ==> a@[k] == b@[k],
        decreases a.len() - i,
    {
        if a[i] != b[i] {
            return false;
        }
        i += 1;
    }
    assert(a@ =~= b@);
    true
}

} // verus!
