//! The patterns that change a list held in a guarded cell, where the right
//! to write is checked while the program runs: `RefCell` for one thread,
//! `Mutex` for several.
//!
//! What a guarded cell holds can change behind any shared reference to it,
//! so no contract here speaks of a cell's contents. A contract speaks of the
//! list that an open window gave access to, as it was found and as it was
//! left, and of the list that a lock was made with.
use vstd::prelude::*;
use std::cell::Ref;
use std::cell::RefCell;
use std::cell::RefMut;
use std::sync::Arc;
use std::sync::Mutex;
use std::sync::MutexGuard;
use crate::outcome::CaseError;
use crate::rule::Rule;
use crate::sequence::same_list;
use crate::shared::arc_share;
use crate::window::read_through;
use crate::window::write_through;
use crate::window::Window;

verus! {

/// `std::cell::RefCell`, a cell of one thread that counts its borrows at
/// run time. Nothing inside it is visible to a contract.
#[verifier::external_type_specification]
#[verifier::external_body]
#[verifier::reject_recursive_types(T)]
pub struct ExRefCell<T: ?Sized>(RefCell<T>);

/// `std::cell::Ref`, an open read window into a `RefCell`.
#[verifier::external_type_specification]
#[verifier::external_body]
#[verifier::reject_recursive_types(T)]
pub struct ExRef<'b, T: ?Sized>(Ref<'b, T>);

/// `std::cell::RefMut`, the open write window into a `RefCell`.
#[verifier::external_type_specification]
#[verifier::external_body]
#[verifier::reject_recursive_types(T)]
pub struct ExRefMut<'b, T: ?Sized + 'b>(RefMut<'b, T>);

/// `std::sync::Mutex`, a lock around a value shared between threads.
/// Nothing inside it is visible to a contract.
#[verifier::external_type_specification]
#[verifier::external_body]
#[verifier::reject_recursive_types(T)]
pub struct ExMutex<T: ?Sized>(Mutex<T>);

/// `std::sync::MutexGuard`, the open window into a locked `Mutex`.
#[verifier::external_type_specification]
#[verifier::external_body]
#[verifier::reject_recursive_types(T)]
pub struct ExMutexGuard<'a, T: ?Sized + 'a>(MutexGuard<'a, T>);

/// Calls `RefCell::new`. Nothing is claimed of the cell.
#[verifier::external_body]
fn cell_new(list: Vec<i32>) -> (cell: RefCell<Vec<i32>>) {
    RefCell::new(list)
}

/// Calls `RefCell::try_borrow_mut`, which opens the write window unless the
/// cell is borrowed already; `None` stands for its error. Nothing is claimed
/// of which of the two comes back.
#[verifier::external_body]
fn cell_write<'a>(cell: &'a RefCell<Vec<i32>>) -> (window: Option<RefMut<'a, Vec<i32>>>) {
    match cell.try_borrow_mut() {
        Ok(window) => Some(window),
        Err(_) => None,
    }
}

/// Calls `RefCell::try_borrow`, which opens a read window unless the write
/// window is open; `None` stands for its error. Nothing is claimed of which
/// of the two comes back.
#[verifier::external_body]
fn cell_read<'a>(cell: &'a RefCell<Vec<i32>>) -> (window: Option<Ref<'a, Vec<i32>>>) {
    match cell.try_borrow() {
        Ok(window) => Some(window),
        Err(_) => None,
    }
}

/// Calls `DerefMut::deref_mut` of `RefMut`: the list that the write window
/// gives access to. Nothing is claimed of what the list holds.
#[verifier::external_body]
fn cell_written<'a, 'b>(window: &'a mut RefMut<'b, Vec<i32>>) -> (list: &'a mut Vec<i32>) {
    &mut **window
}

/// Calls `Deref::deref` of `Ref`: the list that the read window shows.
/// Nothing is claimed of what the list holds.
#[verifier::external_body]
fn cell_shown<'a, 'b>(window: &'a Ref<'b, Vec<i32>>) -> (list: &'a Vec<i32>) {
    &**window
}

/// The list that a lock was made with. This is a fact of the lock's making
/// and stays what it is: it is never what the lock holds now, which can
/// change behind any handle, and no window speaks of it.
pub uninterp spec fn lock_made_with(lock: Mutex<Vec<i32>>) -> Seq<i32>;

/// Calls `Mutex::new`, which makes a new lock around the list given: the
/// lock was made with that list.
#[verifier::external_body]
fn lock_new(list: Vec<i32>) -> (lock: Mutex<Vec<i32>>)
    ensures
        lock_made_with(lock) == list@,
{
    Mutex::new(list)
}

/// Calls `Mutex::try_lock`, which takes the lock unless it is held or
/// poisoned, and never waits; `None` stands for either error. Nothing is
/// claimed of which comes back.
#[verifier::external_body]
fn lock_open<'a>(lock: &'a Mutex<Vec<i32>>) -> (window: Option<MutexGuard<'a, Vec<i32>>>) {
    match lock.try_lock() {
        Ok(window) => Some(window),
        Err(_) => None,
    }
}

/// Calls `DerefMut::deref_mut` of `MutexGuard`: the list that the held lock
/// gives access to. Nothing is claimed of what the list holds.
#[verifier::external_body]
fn lock_held<'a, 'b>(window: &'a mut MutexGuard<'b, Vec<i32>>) -> (list: &'a mut Vec<i32>) {
    &mut **window
}

/// Calls `Deref::deref` of `MutexGuard`: the list that the held lock shows.
/// Nothing is claimed of what the list holds.
#[verifier::external_body]
fn lock_shown<'a, 'b>(window: &'a MutexGuard<'b, Vec<i32>>) -> (list: &'a Vec<i32>) {
    &**window
}

/// What the runtime-checked cell pattern observed: the write window, and the
/// list read after the window had closed.
#[derive(Debug)]
pub struct CellReport {
    pub window: Window,
    pub after: Vec<i32>,
}

/// Opens the write window of `cell`, stores `MARKER` at the target of the
/// list inside, and closes the window. Fails with `LockUnavailable`, leaving
/// the list untouched, where the cell is borrowed already.
pub fn write_in_cell(cell: &RefCell<Vec<i32>>) -> (outcome: Result<Window, CaseError>)
    ensures
        outcome matches Ok(window) ==> window.left@ == Rule::Overwrite.applied(window.found@)
            && window.done,
        outcome matches Err(error) ==> error == CaseError::LockUnavailable,
{
    let mut window = cell_write(cell);
    let list = match &mut window {
        Some(open) => Some(cell_written(open)),
        None => None,
    };
    write_through(Rule::Overwrite, list)
}

/// Opens a read window of `cell` and copies the list inside. Fails with
/// `LockUnavailable` where the write window is open.
pub fn read_in_cell(cell: &RefCell<Vec<i32>>) -> (outcome: Result<Vec<i32>, CaseError>)
    ensures
        outcome matches Err(error) ==> error == CaseError::LockUnavailable,
{
    let window = cell_read(cell);
    let list = match &window {
        Some(open) => Some(cell_shown(open)),
        None => None,
    };
    read_through(list)
}

/// Runs the runtime-checked cell pattern on `numbers`: puts the list in a
/// cell, changes it through the write window, and reads it once that window
/// has closed. A report is given only of a run in which the window found the
/// list that was put in and the later read showed what the window left.
/// Fails with `LockUnavailable` where a window does not open or the cell
/// shows another list.
pub fn case_refcell(numbers: Vec<i32>) -> (outcome: Result<CellReport, CaseError>)
    ensures
        outcome matches Ok(report) ==> report.window.found@ == numbers@ && report.window.left@
            == Rule::Overwrite.applied(numbers@) && report.window.done && report.after@
            == report.window.left@,
        outcome matches Err(error) ==> error == CaseError::LockUnavailable,
{
    let placed = numbers.clone();
    let numbers = cell_new(numbers);
    let window = match write_in_cell(&numbers) {
        Ok(window) => window,
        Err(error) => { return Err(error); },
    };
    let after = match read_in_cell(&numbers) {
        Ok(after) => after,
        Err(error) => { return Err(error); },
    };
    if same_list(&window.found, &placed) && same_list(&after, &window.left) {
        Ok(CellReport { window, after })
    } else {
        Err(CaseError::LockUnavailable)
    }
}

/// Takes the lock, stores `MARKER` at the target of the list inside, and
/// gives the lock back. Fails with `LockUnavailable`, leaving the list
/// untouched, where the lock is held or poisoned.
pub fn write_under_lock(lock: &Mutex<Vec<i32>>) -> (outcome: Result<Window, CaseError>)
    ensures
        outcome matches Ok(window) ==> window.left@ == Rule::Overwrite.applied(window.found@)
            && window.done,
        outcome matches Err(error) ==> error == CaseError::LockUnavailable,
{
    let mut window = lock_open(lock);
    let list = match &mut window {
        Some(open) => Some(lock_held(open)),
        None => None,
    };
    write_through(Rule::Overwrite, list)
}

/// Takes the lock, copies the list inside, and gives the lock back. Fails
/// with `LockUnavailable` where the lock is held or poisoned.
pub fn read_under_lock(lock: &Mutex<Vec<i32>>) -> (outcome: Result<Vec<i32>, CaseError>)
    ensures
        outcome matches Err(error) ==> error == CaseError::LockUnavailable,
{
    let window = lock_open(lock);
    let list = match &window {
        Some(open) => Some(lock_shown(open)),
        None => None,
    };
    read_through(list)
}

/// Sets the lock pattern up on `numbers`: puts the list behind a lock and
/// gives two handles to that one lock, the first for the caller and the
/// second for a worker. The lock was made with `numbers`; what is read or
/// written through it afterwards is the lock's own business.
pub fn case_mutex(numbers: Vec<i32>) -> (handles: (Arc<Mutex<Vec<i32>>>, Arc<Mutex<Vec<i32>>>))
    ensures
        handles.1 == handles.0,
        lock_made_with(*handles.0) == numbers@,
{
    let numbers = Arc::new(lock_new(numbers));
    let cloned = arc_share(&numbers);
    (numbers, cloned)
}

} // verus!
