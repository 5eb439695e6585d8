//! The handle that the host holds for one worker.

use std::sync::mpsc::Sender;
use vstd::prelude::*;

verus! {

/// The sending half of a `std::sync::mpsc` channel. Nothing is known of what is
/// inside one: it is carried from the spawner to the handle's destructor.
#[verifier::external_type_specification]
#[verifier::external_body]
#[verifier::reject_recursive_types(T)]
pub struct ExSender<T>(Sender<T>);

/// Calls `std::sync::mpsc::Sender::send` with the unit signal and reports
/// whether the channel took it.
///
/// Whether it does depends on whether the receiving half still exists, which
/// is another thread's doing, so nothing is claimed of the result. What is
/// claimed is that the call does not unwind: `send` answers a channel without
/// a receiver with an error, and its documentation names no panic.
#[verifier::external_body]
fn send_signal(tx: &Sender<()>) -> (delivered: bool)
    opens_invariants none
    no_unwind
{
    tx.send(()).is_ok()
}

/// Ownership of one worker's termination trigger.
///
/// The handle wraps the sending half of the worker's signal channel. It has no
/// operation but its construction and its destruction; the destruction is the
/// signal.
pub struct SenderHandleHolder(Sender<()>);

impl SenderHandleHolder {
    /// The sending half that this handle wraps.
    pub closed spec fn sender(&self) -> Sender<()> {
        self.0
    }

    /// Wraps the sending half of a worker's signal channel.
    pub fn new(tx: Sender<()>) -> (handle: Self)
        ensures
            handle.sender() == tx,
    {
        SenderHandleHolder(tx)
    }
}

impl Drop for SenderHandleHolder {
    /// Attempts to send the signal. A worker that has already exited has
    /// dropped its receiving half; the send then fails, and the failure is
    /// discarded: there is nobody left to stop.
    fn drop(&mut self)
        opens_invariants none
        no_unwind
    {
        let _delivered = send_signal(&self.0);
    }
}

} // verus!
