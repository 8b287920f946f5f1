use vstd::prelude::*;

use tokio::sync::mpsc::{Receiver, Sender};

use crate::error::{ANNError, ANNResult, IoErrorKind, IoFailure};
use crate::file_handle::FileHandle;

verus! {

/// OS code of an overlapped operation that was queued and has not finished yet.
pub const ERROR_IO_PENDING: u32 = 997;

/// OS code of a completion poll that ran out of time.
pub const WAIT_TIMEOUT: u32 = 258;

/// Whether `f` is the I/O failure that stands for the raw OS error `code`.
pub open spec fn is_os_failure(f: IoFailure, code: u32) -> bool {
    &&& f.kind == IoErrorKind::Other
    &&& f.os_code == Some(code as i32)
    &&& f.message@.len() == 0
}

/// Delivers notifications of finished reads. Completions are awaited directly by the task
/// scheduler, so the port holds only a signalling channel and the completion key of the
/// handle bound to it; a port with no bound handle is inert.
pub struct IOCompletionPort {
    pub sender: Sender<()>,
    pub receiver: Receiver<()>,
    /// Completion key of the bound file handle, if any.
    pub key: Option<u64>,
}

impl IOCompletionPort {
    /// Binds `file_handle` under `completion_key`. Creating the signalling channel cannot
    /// fail, so neither can this.
    pub fn new(
        file_handle: &FileHandle,
        existing_completion_port: Option<&IOCompletionPort>,
        completion_key: u64,
        number_of_concurrent_threads: u32,
    ) -> (r: Result<Self, IoFailure>)
        ensures
            r matches Ok(p) && p.key == Some(completion_key),
    {
        let (sender, receiver) = tokio::sync::mpsc::channel(1);
        Ok(IOCompletionPort { sender, receiver, key: Some(completion_key) })
    }

    /// A port with no bound handle.
    pub fn inert() -> (r: Self)
        ensures
            r.key is None,
    {
        let (sender, receiver) = tokio::sync::mpsc::channel(1);
        IOCompletionPort { sender, receiver, key: None }
    }
}

impl Default for IOCompletionPort {
    fn default() -> (r: Self)
        ensures
            r.key is None,
    {
        Self::inert()
    }
}

/// Waits for the next completion on `completion_port`. The scheduler has already awaited
/// every read by the time a caller polls, so a completion is always ready and the counters
/// are left as they are.
pub fn get_queued_completion_status(
    completion_port: &IOCompletionPort,
    lp_number_of_bytes: &mut usize,
    lp_completion_key: &mut usize,
    dw_milliseconds: u32,
) -> (r: Result<bool, IoFailure>)
    ensures
        r matches Ok(ready) && ready,
        *final(lp_number_of_bytes) == *old(lp_number_of_bytes),
        *final(lp_completion_key) == *old(lp_completion_key),
{
    Ok(true)
}

/// The I/O failure that stands for a raw OS error code.
pub fn os_failure(code: u32) -> (r: IoFailure)
    ensures
        is_os_failure(r, code),
{
    IoFailure { kind: IoErrorKind::Other, os_code: Some(code as i32), message: String::new() }
}

/// What issuing an overlapped read means: `Ok(true)` when it finished at once, `Ok(false)`
/// when it is pending and the completion port will report it, and the OS error otherwise.
pub fn read_issue_outcome(succeeded: bool, last_error: u32) -> (r: Result<bool, IoFailure>)
    ensures
        succeeded ==> r == Ok::<bool, IoFailure>(true),
        !succeeded && last_error == ERROR_IO_PENDING ==> r == Ok::<bool, IoFailure>(false),
        !succeeded && last_error != ERROR_IO_PENDING ==> (r matches Err(f) && is_os_failure(f, last_error)),
{
    if succeeded {
        Ok(true)
    } else if last_error == ERROR_IO_PENDING {
        Ok(false)
    } else {
        Err(os_failure(last_error))
    }
}

/// What a completion poll means: `Ok(true)` when a completion arrived, `Ok(false)` when the
/// wait timed out, and the OS error otherwise.
pub fn poll_outcome(succeeded: bool, last_error: u32) -> (r: Result<bool, IoFailure>)
    ensures
        succeeded ==> r == Ok::<bool, IoFailure>(true),
        !succeeded && last_error == WAIT_TIMEOUT ==> r == Ok::<bool, IoFailure>(false),
        !succeeded && last_error != WAIT_TIMEOUT ==> (r matches Err(f) && is_os_failure(f, last_error)),
{
    if succeeded {
        Ok(true)
    } else if last_error == WAIT_TIMEOUT {
        Ok(false)
    } else {
        Err(os_failure(last_error))
    }
}

/// A completed read must have moved exactly the requested number of bytes; a short
/// transfer is an end-of-file I/O error, never a truncated success.
pub fn check_transferred(requested: usize, transferred: usize) -> (r: ANNResult<()>)
    ensures
        r is Ok <==> requested == transferred,
        r matches Err(e) ==> e matches ANNError::IOError { err } && err.kind == IoErrorKind::UnexpectedEof,
{
    if requested == transferred {
        Ok(())
    } else {
        Err(ANNError::log_io_error(IoFailure { kind: IoErrorKind::UnexpectedEof, os_code: None, message: String::new() }))
    }
}

} // verus!
