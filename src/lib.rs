//! Monitoring primitives and a fixed-size worker pool.
//!
//! The pool's decisions (dispatch order, submission after shutdown, the
//! worker life cycle and the teardown join order) are plain values with
//! proved contracts; the threads that act on them live outside this crate.
pub mod dispatch;
pub mod enums;
pub mod helpers;
pub mod logger;
pub mod pool;
pub mod worker;
