//! The three direct patterns in their smallest form, each adding one to the
//! element at `TARGET`.
use vstd::prelude::*;
use crate::rule::Rule;
use crate::sequence::TARGET;

verus! {

/// Adds one to the target of the caller's list through an exclusive borrow.
pub fn modify_list_mutable(vec: &mut Vec<i32>)
    requires
        Rule::Increment.fits(old(vec)@),
    ensures
        final(vec)@ == Rule::Increment.applied(old(vec)@),
{
    if vec.len() > TARGET {
        vec[TARGET] += 1;
    }
}

/// Reads the caller's list through a shared borrow and adds one to the
/// target of a copy.
pub fn modify_list_immutable(vec: &Vec<i32>) -> (new_vec: Vec<i32>)
    requires
        Rule::Increment.fits(vec@),
    ensures
        new_vec@ == Rule::Increment.applied(vec@),
{
    let mut new_vec = vec.clone();
    if new_vec.len() > TARGET {
        new_vec[TARGET] += 1;
    }
    new_vec
}

/// Takes the list over, adds one to its target and gives it back.
pub fn modify_list_ownership(vec: Vec<i32>) -> (new_vec: Vec<i32>)
    requires
        Rule::Increment.fits(vec@),
    ensures
        new_vec@ == Rule::Increment.applied(vec@),
{
    let mut new_vec = vec;
    if new_vec.len() > TARGET {
        new_vec[TARGET] += 1;
    }
    new_vec
}

} // verus!
