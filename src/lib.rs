//! A fixed-size worker pool whose dispatch, worker and lifecycle decisions
//! are verified, together with a few small text and bookkeeping utilities.
//!
//! The pool is split into three parts:
//! - [`dispatch`]: the first-in, first-out queue of envelopes (a job or a
//!   termination sentinel) between submitters and workers;
//! - [`worker`]: the state machine of one worker's loop, which claims an
//!   envelope under the dispatch lock and runs a job only after releasing it;
//! - [`pool`]: the fixed set of workers, their start, the sentinels sent at
//!   shutdown, and the thread handles handed out once each for joining.
//!
//! The threads, the lock and the waiting themselves belong to the program
//! that uses the library; it performs what these decisions say.
//!
//! The other modules: line search with and without regard to case
//! ([`grep`]), quota alerts ([`quota`]), a review workflow for blog posts
//! ([`blog`]), a memoising cache and the workout planned with it ([`cache`],
//! [`workout`]), and small value types and functions.

pub mod art;
pub mod blog;
pub mod boxed;
pub mod cache;
pub mod coins;
pub mod dispatch;
pub mod grep;
pub mod gui;
pub mod numbers;
pub mod points;
pub mod pool;
pub mod quota;
pub mod shapes;
pub mod summary;
pub mod users;
pub mod words;
pub mod workout;
pub mod worker;
