//! Ways to hold, share and change one list of integers.
//!
//! Each access pattern (an exclusive borrow, a shared borrow with a copy, a
//! transfer of ownership, a box, reference counting, guarded cells, suspended
//! tasks, a collected heap) works on a list of ten integers and changes at
//! most the element at [`sequence::TARGET`], by its own [`rule::Rule`].
pub mod sequence;
pub mod rule;
pub mod outcome;
pub mod window;
pub mod overwrite;
pub mod increment;
pub mod shared;
pub mod guarded;
pub mod collected;
pub mod task;
pub mod pattern;
