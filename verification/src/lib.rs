//! A background worker that is told to exit by the destruction of a handle.
//!
//! The host receives a [`SenderHandleHolder`]; a worker thread blocks on the
//! other end of the same channel. When the handle is destroyed the worker
//! wakes, writes a diagnostic message of its own, and then calls back into
//! the host interpreter to print a second one. That call is made without
//! asking whether the interpreter still accepts calls, and a failure of it
//! aborts the worker thread.
//!
//! This crate holds the part of that mechanism that involves no thread and no
//! interpreter: the handle and its destructor in [`handle`], and the worker's
//! exit sequence as a state machine in [`worker`]. The thread, the blocking
//! receive, the output and the interpreter call belong to the embedding
//! program, which performs each [`worker::Action`] and reports back an
//! [`worker::Event`].

pub mod handle;
pub mod worker;

pub use handle::SenderHandleHolder;
