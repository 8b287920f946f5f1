use vstd::prelude::*;

use std::sync::Arc;
use tokio::fs::File;
use tokio::sync::Mutex;

use crate::error::{ANNError, ANNResult};
use crate::outside::guarded;

verus! {

/// Lifecycle of the operation in flight on a context.
#[derive(Debug)]
pub enum Status {
    /// The operation is enqueued and its read has not finished.
    ReadWait,
    /// The read finished and filled its buffers.
    ReadSuccess,
    /// The read finished with this error.
    ReadFailed(ANNError),
    /// The caller has consumed the result.
    ProcessComplete,
}

/// How far an operation has come: 0 while waiting, 1 once its read finished, 2 once its
/// result was consumed.
pub open spec fn stage(s: Status) -> nat {
    match s {
        Status::ReadWait => 0,
        Status::ReadSuccess => 1,
        Status::ReadFailed(_) => 1,
        Status::ProcessComplete => 2,
    }
}

/// The status that a finished read leads to.
pub open spec fn read_finished(outcome: ANNResult<()>) -> Status {
    match outcome {
        Ok(_) => Status::ReadSuccess,
        Err(e) => Status::ReadFailed(e),
    }
}

/// Per-reader shared state: the canonical open file under a mutex, and the status of the
/// operation in flight.
pub struct LinuxIOContext {
    pub status: Status,
    pub file: Mutex<Arc<File>>,
}

impl LinuxIOContext {
    /// Guards the file that a reader already opened; no second handle is opened.
    pub fn new(file: Arc<File>) -> (r: Self)
        ensures
            r.status == Status::ReadWait,
    {
        Self { status: Status::ReadWait, file: guarded(file) }
    }

    /// Records the outcome of the read in flight. Only a waiting operation takes it; the
    /// result says whether it did, and the status stays as it was otherwise.
    pub fn finish_read(&mut self, outcome: ANNResult<()>) -> (r: bool)
        ensures
            r == (old(self).status is ReadWait),
            r ==> final(self).status == read_finished(outcome),
            !r ==> final(self).status == old(self).status,
            stage(old(self).status) <= stage(final(self).status),
            final(self).file == old(self).file,
    {
        match self.status {
            Status::ReadWait => {
                self.status = match outcome {
                    Ok(_) => Status::ReadSuccess,
                    Err(e) => Status::ReadFailed(e),
                };
                true
            },
            _ => false,
        }
    }

    /// Marks a finished operation's result as consumed. Only a finished operation moves on;
    /// the result says whether it did, and the status stays as it was otherwise.
    pub fn complete(&mut self) -> (r: bool)
        ensures
            r == (stage(old(self).status) == 1),
            r ==> final(self).status == Status::ProcessComplete,
            !r ==> final(self).status == old(self).status,
            stage(old(self).status) <= stage(final(self).status),
            final(self).file == old(self).file,
    {
        match self.status {
            Status::ReadSuccess | Status::ReadFailed(_) => {
                self.status = Status::ProcessComplete;
                true
            },
            _ => false,
        }
    }

    /// Enqueues the next operation once the previous one has been consumed. The result says
    /// whether it did, and the status stays as it was otherwise.
    pub fn enqueue(&mut self) -> (r: bool)
        ensures
            r == (old(self).status is ProcessComplete),
            r ==> final(self).status == Status::ReadWait,
            !r ==> final(self).status == old(self).status,
            final(self).file == old(self).file,
    {
        match self.status {
            Status::ProcessComplete => {
                self.status = Status::ReadWait;
                true
            },
            _ => false,
        }
    }
}

} // verus!
