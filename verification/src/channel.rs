//! The channel through which a copy's worker reports to the browser. The
//! two wrappers in this file call the standard library; nothing is claimed
//! of what they return, which depends on the worker.

use std::sync::mpsc::{Receiver, Sender, TryRecvError};
use vstd::prelude::*;

verus! {

/// `std::sync::mpsc::Receiver`, opaque to the verifier.
#[verifier::external_type_specification]
#[verifier::external_body]
#[verifier::reject_recursive_types(T)]
pub struct ExReceiver<T>(Receiver<T>);

/// `std::sync::mpsc::Sender`, opaque to the verifier.
#[verifier::external_type_specification]
#[verifier::external_body]
#[verifier::reject_recursive_types(T)]
pub struct ExSender<T>(Sender<T>);

/// What the poll of a copy's channel found.
#[derive(Debug, Clone, Copy, PartialEq, Eq, Structural)]
pub enum CopySignal {
    /// The worker has written this many bytes so far.
    Progress(u64),
    /// Nothing new.
    Quiet,
    /// The worker is gone.
    Disconnected,
}

/// Calls `std::sync::mpsc::channel` for a channel of byte counts. Nothing
/// is claimed of the two ends.
#[verifier::external_body]
pub(crate) fn progress_channel() -> (ends: (Sender<u64>, Receiver<u64>)) {
    std::sync::mpsc::channel()
}

/// Calls `std::sync::mpsc::Receiver::try_recv`, which does not block. What
/// it finds depends on the worker, so nothing is claimed of it.
#[verifier::external_body]
pub(crate) fn try_receive(receiver: &Receiver<u64>) -> (signal: CopySignal) {
    match receiver.try_recv() {
        Ok(n) => CopySignal::Progress(n),
        Err(TryRecvError::Empty) => CopySignal::Quiet,
        Err(TryRecvError::Disconnected) => CopySignal::Disconnected,
    }
}

} // verus!
