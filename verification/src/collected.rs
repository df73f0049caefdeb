//! The pattern that changes a list held in a cell of the `gc` crate's
//! collected heap, through one of several handles to that cell.
//!
//! What a collected cell holds can change through any handle to it, so no
//! contract here speaks of a cell's contents. A contract speaks of the list
//! that an open window gave access to, as it was found and as it was left.
use vstd::prelude::*;
use gc::Gc;
use gc::GcCell;
use gc::GcCellRef;
use gc::GcCellRefMut;
use crate::outcome::CaseError;
use crate::rule::Rule;
use crate::sequence::same_list;
use crate::window::read_through;
use crate::window::write_through;
use crate::window::Window;

verus! {

/// `gc::Gc`, a handle to an allocation of the collected heap. Nothing
/// inside it is visible to a contract.
#[verifier::external_type_specification]
#[verifier::external_body]
#[verifier::reject_recursive_types(T)]
pub struct ExGc<T: ?Sized + 'static>(Gc<T>);

/// `gc::GcCell`, a cell for the collected heap that counts its borrows at
/// run time. Nothing inside it is visible to a contract.
#[verifier::external_type_specification]
#[verifier::external_body]
#[verifier::reject_recursive_types(T)]
pub struct ExGcCell<T: ?Sized + 'static>(GcCell<T>);

/// `gc::GcCellRef`, an open read window into a `GcCell`.
#[verifier::external_type_specification]
#[verifier::external_body]
#[verifier::reject_recursive_types(T)]
pub struct ExGcCellRef<'a, T: ?Sized + 'static>(GcCellRef<'a, T>);

/// Holds a `gc::GcCellRefMut`, the open write window into a `GcCell` of a
/// list. The outside type is bound by the crate's `Trace`, so it is kept in
/// this field rather than declared.
#[verifier::external_body]
struct HeapWindow<'a> {
    window: GcCellRefMut<'a, Vec<i32>>,
}

/// Calls `Clone::clone` of `Gc`, which gives another handle to the same
/// allocation; it panics where the allocation's count of handles would
/// overflow. Nothing is claimed of the handle.
#[verifier::external_body]
fn heap_share(handle: &Gc<GcCell<Vec<i32>>>) -> (twin: Gc<GcCell<Vec<i32>>>) {
    handle.clone()
}

/// Calls `GcCell::try_borrow_mut` on the cell behind `handle`, which opens
/// the write window unless the cell is borrowed already; `None` stands for
/// its error. Nothing is claimed of which of the two comes back.
#[verifier::external_body]
fn heap_write<'a>(handle: &'a Gc<GcCell<Vec<i32>>>) -> (window: Option<HeapWindow<'a>>) {
    match handle.try_borrow_mut() {
        Ok(window) => Some(HeapWindow { window }),
        Err(_) => None,
    }
}

/// Calls `GcCell::try_borrow` on the cell behind `handle`, which opens a
/// read window unless the write window is open; `None` stands for its error.
/// It panics where the cell's count of read windows would overflow. Nothing
/// is claimed of which of the two comes back.
#[verifier::external_body]
fn heap_read<'a>(handle: &'a Gc<GcCell<Vec<i32>>>) -> (window: Option<GcCellRef<'a, Vec<i32>>>) {
    match handle.try_borrow() {
        Ok(window) => Some(window),
        Err(_) => None,
    }
}

/// Calls `DerefMut::deref_mut` of `GcCellRefMut`: the list that the write
/// window gives access to. Nothing is claimed of what the list holds.
#[verifier::external_body]
fn heap_written<'a, 'b>(window: &'a mut HeapWindow<'b>) -> (list: &'a mut Vec<i32>) {
    &mut *window.window
}

/// Calls `Deref::deref` of `GcCellRef`: the list that the read window
/// shows. Nothing is claimed of what the list holds.
#[verifier::external_body]
fn heap_shown<'a, 'b>(window: &'a GcCellRef<'b, Vec<i32>>) -> (list: &'a Vec<i32>) {
    &**window
}

/// What the collected-heap pattern observed: the list read through the
/// first handle before the change, the write window that the second handle
/// opened, and the list read through the first handle after it.
#[derive(Debug)]
pub struct HeapReport {
    pub before: Vec<i32>,
    pub window: Window,
    pub after: Vec<i32>,
}

/// Opens a read window of the cell behind `handle` and copies the list
/// inside. Fails with `LockUnavailable` where the write window is open.
pub fn read_collected(handle: &Gc<GcCell<Vec<i32>>>) -> (outcome: Result<Vec<i32>, CaseError>)
    ensures
        outcome matches Err(error) ==> error == CaseError::LockUnavailable,
{
    let window = heap_read(handle);
    let list = match &window {
        Some(open) => Some(heap_shown(open)),
        None => None,
    };
    read_through(list)
}

/// Opens the write window of the cell behind `vec`, doubles the target of the
/// list inside, and closes the window. A target whose double is no `i32`
/// stays as it is, and `done` is then false. Fails with `LockUnavailable`,
/// leaving the list untouched, where the cell is borrowed already.
pub fn modify_list_gc(vec: Gc<GcCell<Vec<i32>>>) -> (outcome: Result<Window, CaseError>)
    ensures
        outcome matches Ok(window) ==> window.left@ == Rule::Double.applied(window.found@)
            && window.done == Rule::Double.fits(window.found@),
        outcome matches Err(error) ==> error == CaseError::LockUnavailable,
{
    let mut borrow_mut = heap_write(&vec);
    let list = match &mut borrow_mut {
        Some(open) => Some(heap_written(open)),
        None => None,
    };
    write_through(Rule::Double, list)
}

/// Runs the collected-heap pattern on the cell behind `vec`: reads the list
/// through that handle, doubles its target through a second handle to the
/// same cell, and reads the list through the first handle again. A report
/// is given only of a run in which the window found the list that was read
/// before and the later read showed what the window left. Fails with
/// `LockUnavailable` where a window does not open or the cell shows another
/// list.
pub fn case_gc(vec: Gc<GcCell<Vec<i32>>>) -> (outcome: Result<HeapReport, CaseError>)
    ensures
        outcome matches Ok(report) ==> report.window.found@ == report.before@
            && report.window.left@ == Rule::Double.applied(report.before@) && report.window.done
            == Rule::Double.fits(report.before@) && report.after@ == report.window.left@,
        outcome matches Err(error) ==> error == CaseError::LockUnavailable,
{
    let before = match read_collected(&vec) {
        Ok(list) => list,
        Err(error) => { return Err(error); },
    };
    let window = match modify_list_gc(heap_share(&vec)) {
        Ok(window) => window,
        Err(error) => { return Err(error); },
    };
    let after = match read_collected(&vec) {
        Ok(after) => after,
        Err(error) => { return Err(error); },
    };
    if same_list(&window.found, &before) && same_list(&after, &window.left) {
        Ok(HeapReport { before, window, after })
    } else {
        Err(CaseError::LockUnavailable)
    }
}

} // verus!
