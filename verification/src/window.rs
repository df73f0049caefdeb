//! What a pattern does with a window into a guarded cell, once the cell has
//! said whether the window opens.
use vstd::prelude::*;
use crate::outcome::CaseError;
use crate::rule::Rule;
use crate::sequence::TARGET;

verus! {

/// A list as a write window found it when it opened and as the window left
/// it when it closed, and whether the rule could be carried out on it.
#[derive(Debug)]
pub struct Window {
    pub found: Vec<i32>,
    pub left: Vec<i32>,
    pub done: bool,
}

/// Carries `rule` out through a write window. `list` is the list that the
/// open window gives access to, or `None` where the cell refused to open it.
/// Where the rule's image of the target is no `i32`, the list stays as it
/// was and `done` is false.
pub fn write_through(rule: Rule, list: Option<&mut Vec<i32>>) -> (outcome: Result<
    Window,
    CaseError,
>)
    ensures
        list is None ==> outcome == Err::<Window, CaseError>(CaseError::LockUnavailable),
        list matches Some(inside) ==> outcome matches Ok(window) && window.found@ == inside@
            && window.left@ == rule.applied(inside@) && window.done == rule.fits(inside@)
            && final(inside)@ == window.left@,
{
    match list {
        Some(inside) => {
            let found = inside.clone();
            let done = rule.rewrite(inside);
            let left = inside.clone();
            Ok(Window { found, left, done })
        },
        None => Err(CaseError::LockUnavailable),
    }
}

/// Copies the list that a read window shows. `list` is that list, or `None`
/// where the cell refused to open the window.
pub fn read_through(list: Option<&Vec<i32>>) -> (outcome: Result<Vec<i32>, CaseError>)
    ensures
        list is None ==> outcome == Err::<Vec<i32>, CaseError>(CaseError::LockUnavailable),
        list matches Some(inside) ==> outcome matches Ok(copy) && copy@ == inside@,
{
    match list {
        Some(inside) => Ok(inside.clone()),
        None => Err(CaseError::LockUnavailable),
    }
}

/// What the library's part gives once the guard has done its own: where a
/// write window found the list that was put behind the guard, and a later
/// read shows what that window left, the list read is the list put in with
/// the rule carried out: the same length, and the same elements away from
/// the target. That the window finds that list and that the read shows it
/// rests on the guard, and is no part of this statement.
pub proof fn lemma_read_after_window(rule: Rule, placed: Seq<i32>, window: Window, after: Seq<i32>)
    requires
        window.left@ == rule.applied(window.found@),
        window.found@ == placed,
        after == window.left@,
    ensures
        after == rule.applied(placed),
        after.len() == placed.len(),
        forall|i: int| 0 <= i < placed.len() && i != TARGET ==> after[i] == placed[i],
{
}

} // verus!
