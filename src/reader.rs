use vstd::prelude::*;

use std::sync::Arc;
use tokio::fs::File;

use crate::aligned_read::AlignedRead;
use crate::error::{ANNError, ANNResult, IoFailure};

verus! {

/// Reads batches of aligned requests from one open file. Each request of a batch runs as
/// its own task on its own duplicate of the handle, so that concurrent seeks do not share
/// a cursor.
pub struct LinuxAlignedFileReader {
    pub file: Arc<File>,
}

impl LinuxAlignedFileReader {
    /// A reader over a file that is already open for reading.
    pub fn from_file(file: File) -> (r: Self)
        ensures
            r.file == file,
    {
        LinuxAlignedFileReader { file: Arc::new(file) }
    }
}

/// Outcome of one unit of a batch once its seek and exact-length read have run: the
/// request, now filled, or the I/O failure of the seek or the read.
pub fn finish_unit<T>(req: AlignedRead<T>, io: Result<(), IoFailure>) -> (r: ANNResult<AlignedRead<T>>)
    ensures
        io is Ok ==> r == Ok::<AlignedRead<T>, ANNError>(req),
        io matches Err(f) ==> r == Err::<AlignedRead<T>, ANNError>(ANNError::IOError { err: f }),
{
    match io {
        Ok(()) => Ok(req),
        Err(f) => Err(ANNError::log_io_error(f)),
    }
}

} // verus!
