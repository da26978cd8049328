//! A single-threaded, non-blocking read/write lock.
//!
//! The borrow-tracking state machine lives in [`raw`]: a signed counter of
//! outstanding shared or exclusive borrows, the rules that admit or refuse a
//! new borrow, and the source location of the earliest active borrow, kept for
//! failure messages. [`message`] writes those failure messages, and [`laws`]
//! states and proves how sequences of operations behave.

pub mod message;
pub mod raw;
pub mod laws;
