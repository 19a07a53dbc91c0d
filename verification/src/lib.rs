//! Verified construction and traversal of `VecDeque<isize>` containers for a
//! timing harness.
//!
//! Every operation builds or walks one deque and passes what it produced
//! through an observation [`barrier::Barrier`], so that an optimizing compiler
//! cannot discard the work. The contracts state the exact contents of each
//! deque and the exact sequence of values that crossed the barrier.

pub mod barrier;
pub mod construct;
pub mod handle;
