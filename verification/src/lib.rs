//! Suspend/wake primitive of a cooperative, stackful coroutine runtime.
//!
//! A coroutine that must block suspends into the scheduler through a [`park::Park`]
//! instance and is re-admitted to the run queue when a producer calls `unpark`.
//! The [`fileio`] module supplies the kernel-visible readiness channel (an event
//! descriptor plus a reactor registration token) through which asynchronous I/O
//! completions reach a parked coroutine.
//!
//! The scheduler, the timer service and the cancellation machinery are external
//! collaborators: every operation here is a pure state transition that returns
//! the action (schedule a continuation, arm or delete a timer, link or deliver
//! cancellation) that the caller must perform on them.

pub mod fileio;
pub mod park;
