//! The patterns that store or share a list without changing it: a box, and
//! reference-counted handles for one thread and for several.
use vstd::prelude::*;
use std::rc::Rc;
use std::sync::Arc;

verus! {

/// Calls `Rc::clone`, which gives another handle to the allocation that
/// `handle` points to: the two are the same value to every reader.
#[verifier::external_body]
pub(crate) fn rc_share<T>(handle: &Rc<T>) -> (twin: Rc<T>)
    ensures
        twin == *handle,
{
    Rc::clone(handle)
}

/// Calls `Arc::clone`, which gives another handle to the allocation that
/// `handle` points to: the two are the same value to every reader.
#[verifier::external_body]
pub(crate) fn arc_share<T>(handle: &Arc<T>) -> (twin: Arc<T>)
    ensures
        twin == *handle,
{
    Arc::clone(handle)
}

/// Stores the list in one owned heap allocation.
pub fn case_box(numbers: Vec<i32>) -> (stored: Box<Vec<i32>>)
    ensures
        stored@ == numbers@,
{
    Box::new(numbers)
}

/// Shares the list between two read-only handles of one thread. Both show
/// the list as it was given; neither gives a way to change it.
pub fn case_rc(numbers: Vec<i32>) -> (handles: (Rc<Vec<i32>>, Rc<Vec<i32>>))
    ensures
        handles.0@ == numbers@,
        handles.1@ == numbers@,
{
    let numbers = Rc::new(numbers);
    let shared = rc_share(&numbers);
    (numbers, shared)
}

/// Shares the list between two read-only handles that may live on different
/// threads: the first stays with the caller, the second goes to a worker.
/// Both show the list as it was given.
pub fn case_arc(numbers: Vec<i32>) -> (handles: (Arc<Vec<i32>>, Arc<Vec<i32>>))
    ensures
        handles.0@ == numbers@,
        handles.1@ == handles.0@,
{
    let numbers = Arc::new(numbers);
    let numbers_clone = arc_share(&numbers);
    (numbers, numbers_clone)
}

/// What a thread that holds `handle` observes: a copy of the shared list.
pub fn read_shared(handle: &Arc<Vec<i32>>) -> (seen: Vec<i32>)
    ensures
        seen@ == handle@,
{
    (**handle).clone()
}

/// Reading is the same on every thread: whatever lists the caller and a
/// worker read through the two handles that `case_arc` made for `numbers`,
/// the two lists are equal, and equal to `numbers`.
pub proof fn lemma_worker_reads_what_caller_reads(
    numbers: Vec<i32>,
    handles: (Arc<Vec<i32>>, Arc<Vec<i32>>),
    on_caller: Vec<i32>,
    on_worker: Vec<i32>,
)
    requires
        case_arc.ensures((numbers,), handles),
        read_shared.ensures((&handles.0,), on_caller),
        read_shared.ensures((&handles.1,), on_worker),
    ensures
        on_worker@ == on_caller@,
        on_caller@ == numbers@,
{
}

} // verus!
