//! The three direct patterns: an exclusive borrow, a shared borrow with a
//! copy, and a transfer of ownership. Each stores `MARKER` at `TARGET`.
use vstd::prelude::*;
use crate::outcome::Observation;
use crate::rule::MARKER;
use crate::rule::Rule;
use crate::sequence::TARGET;

verus! {

/// Changes the caller's list through an exclusive borrow.
pub fn modify_list_mut(vec: &mut Vec<i32>)
    ensures
        final(vec)@ == Rule::Overwrite.applied(old(vec)@),
{
    if vec.len() > TARGET {
        vec[TARGET] = MARKER;
    }
}

/// Runs the exclusive-borrow pattern on `numbers`: the caller's own list
/// shows the change once the borrow has ended.
pub fn case_mutable(numbers: Vec<i32>) -> (seen: Observation)
    ensures
        seen.before@ == numbers@,
        seen.after@ == Rule::Overwrite.applied(numbers@),
{
    let mut numbers = numbers;
    let before = numbers.clone();
    modify_list_mut(&mut numbers);
    Observation { before, after: numbers }
}

/// Reads the caller's list through a shared borrow and changes a copy.
pub fn modify_list_immutable(vec: &Vec<i32>) -> (new_vec: Vec<i32>)
    ensures
        new_vec@ == Rule::Overwrite.applied(vec@),
{
    let mut new_vec = vec.clone();
    if new_vec.len() > TARGET {
        new_vec[TARGET] = MARKER;
    }
    new_vec
}

/// Runs the shared-borrow pattern on `numbers`. `before` is the caller's
/// list itself, handed back after the call: it holds what it held before.
pub fn case_immutable(numbers: Vec<i32>) -> (seen: Observation)
    ensures
        seen.before@ == numbers@,
        seen.after@ == Rule::Overwrite.applied(numbers@),
{
    let modified_numbers = modify_list_immutable(&numbers);
    Observation { before: numbers, after: modified_numbers }
}

/// Takes the list over, changes it and gives it back.
pub fn modify_list_owned(vec: Vec<i32>) -> (new_vec: Vec<i32>)
    ensures
        new_vec@ == Rule::Overwrite.applied(vec@),
{
    let mut vec = vec;
    if vec.len() > TARGET {
        vec[TARGET] = MARKER;
    }
    vec
}

/// Runs the ownership-transfer pattern on `numbers`. `before` is a copy made
/// ahead of the transfer, after which the list given away cannot be named.
pub fn case_owned(numbers: Vec<i32>) -> (seen: Observation)
    ensures
        seen.before@ == numbers@,
        seen.after@ == Rule::Overwrite.applied(numbers@),
{
    let before = numbers.clone();
    let new_numbers = modify_list_owned(numbers);
    Observation { before, after: new_numbers }
}

} // verus!
