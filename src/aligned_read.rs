use vstd::prelude::*;
use vstd::layout::size_of;

use crate::error::{ANNError, ANNResult};

verus! {

/// Physical sector size that offsets and buffer lengths of unbuffered reads must respect.
pub const DISK_IO_ALIGNMENT: usize = 512;

/// Whether `val` is a whole number of sectors.
pub open spec fn is_aligned(val: int) -> bool {
    val % (DISK_IO_ALIGNMENT as int) == 0
}

/// Byte length of `len` elements of `T`.
pub open spec fn bytes_of<T>(len: int) -> int {
    len * size_of::<T>()
}

/// A read request: the file offset to read from and the owned buffer that receives the bytes.
/// The buffer moves into the reader for the duration of the read and comes back filled.
pub struct AlignedRead<T> {
    /// Where to read from; a whole number of sectors.
    pub offset: u64,
    /// The buffer into which data is read; its byte size is a whole number of sectors.
    pub aligned_buf: Vec<T>,
}

impl<T> AlignedRead<T> {
    /// Number of bytes that the request reads.
    pub open spec fn byte_len(&self) -> int {
        bytes_of::<T>(self.aligned_buf@.len() as int)
    }

    /// Both the offset and the byte length are sector multiples, and the byte length fits
    /// in memory.
    pub open spec fn wf(&self) -> bool {
        &&& is_aligned(self.offset as int)
        &&& is_aligned(self.byte_len())
        &&& self.byte_len() <= usize::MAX
    }

    /// Builds a request, rejecting a misaligned offset first and then a misaligned byte
    /// length; the error carries the offending value.
    pub fn new(offset: u64, aligned_buf: Vec<T>) -> (r: ANNResult<Self>)
        requires
            bytes_of::<T>(aligned_buf@.len() as int) <= usize::MAX,
        ensures
            r is Ok <==> is_aligned(offset as int) && is_aligned(bytes_of::<T>(aligned_buf@.len() as int)),
            r matches Ok(a) ==> a.offset == offset && a.aligned_buf == aligned_buf && a.wf(),
            !is_aligned(offset as int) ==> r == Err::<Self, ANNError>(
                ANNError::DiskIOAlignmentError { value: offset, alignment: DISK_IO_ALIGNMENT as u64 },
            ),
            is_aligned(offset as int) && !is_aligned(bytes_of::<T>(aligned_buf@.len() as int)) ==> r
                == Err::<Self, ANNError>(
                ANNError::DiskIOAlignmentError {
                    value: bytes_of::<T>(aligned_buf@.len() as int) as u64,
                    alignment: DISK_IO_ALIGNMENT as u64,
                },
            ),
    {
        Self::assert_is_aligned(offset)?;
        let buffer_size: usize = aligned_buf.len() * core::mem::size_of::<T>();
        Self::assert_is_aligned(buffer_size as u64)?;
        Ok(Self { offset, aligned_buf })
    }

    /// Succeeds exactly when `val` is a sector multiple.
    fn assert_is_aligned(val: u64) -> (r: ANNResult<()>)
        ensures
            r is Ok <==> is_aligned(val as int),
            r is Err ==> r == Err::<(), ANNError>(
                ANNError::DiskIOAlignmentError { value: val, alignment: DISK_IO_ALIGNMENT as u64 },
            ),
    {
        if val % (DISK_IO_ALIGNMENT as u64) == 0 {
            Ok(())
        } else {
            Err(ANNError::log_disk_io_request_alignment_error(val, DISK_IO_ALIGNMENT as u64))
        }
    }

    /// The buffer, read-only.
    pub fn aligned_buf(&self) -> (r: &[T])
        ensures
            r@ == self.aligned_buf@,
    {
        self.aligned_buf.as_slice()
    }

    /// Number of bytes that the request reads.
    pub fn buffer_bytes(&self) -> (r: usize)
        requires
            self.wf(),
        ensures
            r == self.byte_len(),
    {
        self.aligned_buf.len() * core::mem::size_of::<T>()
    }
}

} // verus!
