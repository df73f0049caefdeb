use gc::Gc;
use gc::GcCell;
use ownership_patterns::collected::case_gc;
use ownership_patterns::collected::modify_list_gc;
use ownership_patterns::collected::read_collected;
use ownership_patterns::guarded::case_mutex;
use ownership_patterns::guarded::case_refcell;
use ownership_patterns::guarded::read_in_cell;
use ownership_patterns::guarded::read_under_lock;
use ownership_patterns::guarded::write_in_cell;
use ownership_patterns::guarded::write_under_lock;
use ownership_patterns::outcome::joined;
use ownership_patterns::outcome::CaseError;
use ownership_patterns::sequence::counting_list;
use ownership_patterns::shared::case_arc;
use ownership_patterns::shared::case_box;
use ownership_patterns::shared::case_rc;
use ownership_patterns::shared::read_shared;
use std::cell::RefCell;
use std::rc::Rc;
use std::sync::Arc;
use std::sync::Mutex;
use tokio::runtime::Runtime;

#[test]
fn case_box_stores_the_list_unchanged() {
    let stored = case_box(counting_list());
    assert_eq!(*stored, vec![1, 2, 3, 4, 5, 6, 7, 8, 9, 10]);
}

#[test]
fn case_rc_gives_two_handles_to_one_list() {
    let (numbers, shared) = case_rc(counting_list());
    assert_eq!(*numbers, vec![1, 2, 3, 4, 5, 6, 7, 8, 9, 10]);
    assert_eq!(*shared, vec![1, 2, 3, 4, 5, 6, 7, 8, 9, 10]);
    assert!(Rc::ptr_eq(&numbers, &shared));
    assert_eq!(Rc::strong_count(&numbers), 2);
}

#[test]
fn case_arc_gives_two_handles_to_one_list() {
    let (numbers, numbers_clone) = case_arc(counting_list());
    assert!(Arc::ptr_eq(&numbers, &numbers_clone));
    assert_eq!(Arc::strong_count(&numbers), 2);
    assert_eq!(read_shared(&numbers), vec![1, 2, 3, 4, 5, 6, 7, 8, 9, 10]);
    assert_eq!(read_shared(&numbers_clone), vec![1, 2, 3, 4, 5, 6, 7, 8, 9, 10]);
}

#[test]
fn a_worker_reads_what_the_caller_reads() {
    let (numbers, numbers_clone) = case_arc(counting_list());
    let pool = Runtime::new().unwrap();
    let worker = pool.spawn_blocking(move || read_shared(&numbers_clone));
    let on_worker = joined(pool.block_on(worker).ok());
    assert_eq!(on_worker, Ok(read_shared(&numbers)));
    assert_eq!(on_worker, Ok(vec![1, 2, 3, 4, 5, 6, 7, 8, 9, 10]));
}

#[test]
fn a_failed_worker_is_a_join_failure() {
    let (_numbers, numbers_clone) = case_arc(vec![1, 2, 3]);
    let pool = Runtime::new().unwrap();
    let worker = pool.spawn_blocking(move || {
        let seen = read_shared(&numbers_clone);
        if seen.len() < 8 {
            panic!("list too short for this worker");
        }
        seen
    });
    assert_eq!(joined(pool.block_on(worker).ok()), Err(CaseError::WorkerJoinFailure));
}

#[test]
fn case_refcell_marks_the_list_in_the_cell() {
    let report = case_refcell(counting_list()).unwrap();
    assert!(report.window.done);
    assert_eq!(report.window.found, vec![1, 2, 3, 4, 5, 6, 7, 8, 9, 10]);
    assert_eq!(report.window.left, vec![1, 2, 3, 4, 5, 6, 7, 42, 9, 10]);
    assert_eq!(report.after, vec![1, 2, 3, 4, 5, 6, 7, 42, 9, 10]);
}

#[test]
fn case_refcell_leaves_a_short_list_alone() {
    let report = case_refcell(vec![1, 2, 3]).unwrap();
    assert_eq!(report.window.found, vec![1, 2, 3]);
    assert_eq!(report.window.left, vec![1, 2, 3]);
    assert_eq!(report.after, vec![1, 2, 3]);
}

#[test]
fn write_in_cell_changes_what_the_cell_holds() {
    let cell = RefCell::new(counting_list());
    let window = write_in_cell(&cell).unwrap();
    assert_eq!(window.found, vec![1, 2, 3, 4, 5, 6, 7, 8, 9, 10]);
    assert_eq!(window.left, vec![1, 2, 3, 4, 5, 6, 7, 42, 9, 10]);
    assert_eq!(*cell.borrow(), vec![1, 2, 3, 4, 5, 6, 7, 42, 9, 10]);
    assert_eq!(read_in_cell(&cell), Ok(vec![1, 2, 3, 4, 5, 6, 7, 42, 9, 10]));
}

#[test]
fn write_in_cell_fails_while_the_cell_is_read() {
    let cell = RefCell::new(counting_list());
    let reader = cell.borrow();
    assert_eq!(write_in_cell(&cell).unwrap_err(), CaseError::LockUnavailable);
    assert_eq!(*reader, vec![1, 2, 3, 4, 5, 6, 7, 8, 9, 10]);
}

#[test]
fn overlapping_write_windows_fail_at_run_time() {
    let cell = RefCell::new(counting_list());
    let writer = cell.borrow_mut();
    assert_eq!(write_in_cell(&cell).unwrap_err(), CaseError::LockUnavailable);
    assert_eq!(read_in_cell(&cell), Err(CaseError::LockUnavailable));
    drop(writer);
    assert!(write_in_cell(&cell).is_ok());
}

#[test]
fn read_in_cell_shares_with_other_readers() {
    let cell = RefCell::new(vec![4, 5, 6]);
    let reader = cell.borrow();
    assert_eq!(read_in_cell(&cell), Ok(vec![4, 5, 6]));
    assert_eq!(*reader, vec![4, 5, 6]);
}

#[test]
fn a_worker_writes_under_the_lock_exactly_once() {
    let (numbers, cloned) = case_mutex(counting_list());
    assert!(Arc::ptr_eq(&numbers, &cloned));
    let pool = Runtime::new().unwrap();
    let worker = pool.spawn_blocking(move || write_under_lock(&cloned));
    let window = joined(pool.block_on(worker).ok()).unwrap().unwrap();
    assert_eq!(window.found, vec![1, 2, 3, 4, 5, 6, 7, 8, 9, 10]);
    assert_eq!(window.left, vec![1, 2, 3, 4, 5, 6, 7, 42, 9, 10]);
    assert_eq!(read_under_lock(&numbers), Ok(vec![1, 2, 3, 4, 5, 6, 7, 42, 9, 10]));
}

#[test]
fn many_workers_never_tear_the_target() {
    let (numbers, _cloned) = case_mutex(counting_list());
    let pool = Runtime::new().unwrap();
    let mut workers = Vec::new();
    for _ in 0..8 {
        let handle = Arc::clone(&numbers);
        workers.push(pool.spawn_blocking(move || write_under_lock(&handle)));
    }
    let mut wrote = 0;
    let mut found_unmarked = 0;
    for worker in workers {
        match joined(pool.block_on(worker).ok()).unwrap() {
            Ok(window) => {
                wrote += 1;
                if window.found[7] == 8 {
                    found_unmarked += 1;
                } else {
                    assert_eq!(window.found, vec![1, 2, 3, 4, 5, 6, 7, 42, 9, 10]);
                }
                assert_eq!(window.left, vec![1, 2, 3, 4, 5, 6, 7, 42, 9, 10]);
            }
            Err(error) => assert_eq!(error, CaseError::LockUnavailable),
        }
    }
    assert!(wrote >= 1);
    assert_eq!(found_unmarked, 1);
    assert_eq!(read_under_lock(&numbers), Ok(vec![1, 2, 3, 4, 5, 6, 7, 42, 9, 10]));
}

#[test]
fn case_mutex_puts_the_given_list_behind_the_lock() {
    let (numbers, cloned) = case_mutex(counting_list());
    assert_eq!(read_under_lock(&numbers), Ok(vec![1, 2, 3, 4, 5, 6, 7, 8, 9, 10]));
    assert_eq!(read_under_lock(&cloned), Ok(vec![1, 2, 3, 4, 5, 6, 7, 8, 9, 10]));
    let (other, _) = case_mutex(vec![5, 4]);
    assert_eq!(read_under_lock(&other), Ok(vec![5, 4]));
    let (empty, _) = case_mutex(Vec::new());
    assert_eq!(read_under_lock(&empty), Ok(Vec::new()));
}

#[test]
fn case_mutex_starts_afresh_on_every_run() {
    for _ in 0..3 {
        let (numbers, cloned) = case_mutex(counting_list());
        assert!(!numbers.is_poisoned());
        let window = write_under_lock(&cloned).unwrap();
        assert_eq!(window.found, vec![1, 2, 3, 4, 5, 6, 7, 8, 9, 10]);
        assert_eq!(read_under_lock(&numbers), Ok(vec![1, 2, 3, 4, 5, 6, 7, 42, 9, 10]));
    }
}

#[test]
fn a_held_lock_is_unavailable() {
    let lock = Mutex::new(counting_list());
    let held = lock.lock().unwrap();
    assert_eq!(write_under_lock(&lock).unwrap_err(), CaseError::LockUnavailable);
    assert_eq!(read_under_lock(&lock), Err(CaseError::LockUnavailable));
    assert_eq!(*held, vec![1, 2, 3, 4, 5, 6, 7, 8, 9, 10]);
    drop(held);
    assert!(write_under_lock(&lock).is_ok());
}

#[test]
fn a_poisoned_lock_is_unavailable() {
    let (numbers, cloned) = case_mutex(counting_list());
    let pool = Runtime::new().unwrap();
    let worker = pool.spawn_blocking(move || {
        let _held = cloned.lock().unwrap();
        panic!("worker fails while it holds the lock");
    });
    assert_eq!(joined(pool.block_on(worker).ok()), Err(CaseError::WorkerJoinFailure));
    assert!(numbers.is_poisoned());
    assert_eq!(write_under_lock(&numbers).unwrap_err(), CaseError::LockUnavailable);
    assert_eq!(read_under_lock(&numbers), Err(CaseError::LockUnavailable));
}

#[test]
fn case_gc_doubles_the_target_through_the_second_handle() {
    let report = case_gc(Gc::new(GcCell::new(counting_list()))).unwrap();
    assert!(report.window.done);
    assert_eq!(report.before, vec![1, 2, 3, 4, 5, 6, 7, 8, 9, 10]);
    assert_eq!(report.window.found, vec![1, 2, 3, 4, 5, 6, 7, 8, 9, 10]);
    assert_eq!(report.window.left, vec![1, 2, 3, 4, 5, 6, 7, 16, 9, 10]);
    assert_eq!(report.after, vec![1, 2, 3, 4, 5, 6, 7, 16, 9, 10]);
    assert_eq!(report.after[7], 16);
}

#[test]
fn case_gc_is_seen_through_the_callers_handle() {
    let vec = Gc::new(GcCell::new(counting_list()));
    let report = case_gc(vec.clone()).unwrap();
    assert_eq!(report.after, vec![1, 2, 3, 4, 5, 6, 7, 16, 9, 10]);
    assert_eq!(*vec.borrow(), vec![1, 2, 3, 4, 5, 6, 7, 16, 9, 10]);
    let again = case_gc(vec.clone()).unwrap();
    assert_eq!(again.before, vec![1, 2, 3, 4, 5, 6, 7, 16, 9, 10]);
    assert_eq!(again.after, vec![1, 2, 3, 4, 5, 6, 7, 32, 9, 10]);
}

#[test]
fn case_gc_says_when_the_target_cannot_double() {
    let report = case_gc(Gc::new(GcCell::new(vec![0, 0, 0, 0, 0, 0, 0, -1_073_741_825]))).unwrap();
    assert!(!report.window.done);
    assert_eq!(report.before, vec![0, 0, 0, 0, 0, 0, 0, -1_073_741_825]);
    assert_eq!(report.window.left, report.before);
    assert_eq!(report.after, report.before);
}

#[test]
fn case_gc_leaves_a_short_list_alone() {
    let report = case_gc(Gc::new(GcCell::new(vec![1, 2, 3]))).unwrap();
    assert!(report.window.done);
    assert_eq!(report.before, vec![1, 2, 3]);
    assert_eq!(report.after, vec![1, 2, 3]);
}

#[test]
fn case_gc_fails_while_the_cell_is_written() {
    let vec = Gc::new(GcCell::new(counting_list()));
    let writer = vec.borrow_mut();
    assert_eq!(case_gc(vec.clone()).unwrap_err(), CaseError::LockUnavailable);
    drop(writer);
    assert_eq!(*vec.borrow(), vec![1, 2, 3, 4, 5, 6, 7, 8, 9, 10]);
}

#[test]
fn case_gc_fails_while_the_cell_is_read() {
    let vec = Gc::new(GcCell::new(counting_list()));
    let reader = vec.borrow();
    assert_eq!(case_gc(vec.clone()).unwrap_err(), CaseError::LockUnavailable);
    assert_eq!(*reader, vec![1, 2, 3, 4, 5, 6, 7, 8, 9, 10]);
}

#[test]
fn modify_list_gc_is_seen_through_every_handle() {
    let vec = Gc::new(GcCell::new(counting_list()));
    let other = vec.clone();
    let window = modify_list_gc(vec.clone()).unwrap();
    assert!(window.done);
    assert_eq!(window.left[7], 16);
    assert_eq!(read_collected(&vec), Ok(vec![1, 2, 3, 4, 5, 6, 7, 16, 9, 10]));
    assert_eq!(read_collected(&other), Ok(vec![1, 2, 3, 4, 5, 6, 7, 16, 9, 10]));
    modify_list_gc(other).unwrap();
    assert_eq!(*vec.borrow(), vec![1, 2, 3, 4, 5, 6, 7, 32, 9, 10]);
}

#[test]
fn modify_list_gc_leaves_a_short_list_alone() {
    let vec = Gc::new(GcCell::new(vec![1, 2, 3]));
    let window = modify_list_gc(vec.clone()).unwrap();
    assert_eq!(window.found, vec![1, 2, 3]);
    assert_eq!(window.left, vec![1, 2, 3]);
    assert_eq!(*vec.borrow(), vec![1, 2, 3]);
}

#[test]
fn modify_list_gc_leaves_a_target_that_cannot_double() {
    let vec = Gc::new(GcCell::new(vec![0, 0, 0, 0, 0, 0, 0, i32::MAX, 0, 0]));
    let window = modify_list_gc(vec.clone()).unwrap();
    assert!(!window.done);
    assert_eq!(window.left, window.found);
    assert_eq!(vec.borrow()[7], i32::MAX);
}

#[test]
fn modify_list_gc_fails_while_the_cell_is_read() {
    let vec = Gc::new(GcCell::new(counting_list()));
    let reader = vec.borrow();
    assert_eq!(modify_list_gc(vec.clone()).unwrap_err(), CaseError::LockUnavailable);
    assert_eq!(*reader, vec![1, 2, 3, 4, 5, 6, 7, 8, 9, 10]);
}

#[test]
fn read_collected_fails_while_the_cell_is_written() {
    let vec = Gc::new(GcCell::new(counting_list()));
    let writer = vec.borrow_mut();
    assert_eq!(read_collected(&vec), Err(CaseError::LockUnavailable));
    drop(writer);
    assert_eq!(read_collected(&vec), Ok(vec![1, 2, 3, 4, 5, 6, 7, 8, 9, 10]));
}

#[test]
fn a_collected_cell_outlives_the_handle_that_made_it() {
    let vec = Gc::new(GcCell::new(counting_list()));
    let survivor = vec.clone();
    drop(vec);
    gc::force_collect();
    assert_eq!(read_collected(&survivor), Ok(vec![1, 2, 3, 4, 5, 6, 7, 8, 9, 10]));
}
