use vstd::prelude::*;

verus! {

/// The category of an operating-system I/O failure, as far as the reader's callers tell them apart.
#[derive(Clone, Copy, Debug, PartialEq, Eq, Structural)]
pub enum IoErrorKind {
    NotFound,
    PermissionDenied,
    AlreadyExists,
    InvalidInput,
    InvalidData,
    UnexpectedEof,
    Interrupted,
    Other,
}

/// An operating-system I/O failure held as plain values: its category, the raw OS code
/// when the OS reported one, and the OS's description.
#[derive(Clone, Debug)]
pub struct IoFailure {
    pub kind: IoErrorKind,
    pub os_code: Option<i32>,
    pub message: String,
}

/// Every failure that the index's disk layer reports.
#[derive(Debug)]
pub enum ANNError {
    /// Index construction and search error.
    IndexError { err: String },
    /// Index configuration error: `parameter` is invalid.
    IndexConfigError { parameter: String, err: String },
    /// Integer conversion error.
    TryFromIntError { err: String },
    /// Failure of an open, seek or read reported by the operating system.
    IOError { err: IoFailure },
    /// Layout error in memory allocation.
    MemoryAllocLayoutError { err: String },
    /// A guarded resource became unusable because its holder panicked.
    LockPoisonError { err: String },
    /// An offset or a byte length of a read request is not a whole number of sectors.
    DiskIOAlignmentError { value: u64, alignment: u64 },
    /// Failure of the log sink.
    LogError { err: IoFailure },
    /// Product-quantization construction error.
    PQError { err: String },
    /// Array conversion error.
    TryFromSliceError { err: String },
    /// A concurrently scheduled unit of work did not complete: it was cancelled or it panicked.
    JoinError { cancelled: bool, err: String },
}

/// Result type of the disk layer.
pub type ANNResult<T> = Result<T, ANNError>;

/// Whether errors of this kind must reach the log stream when they are built, whether or not
/// the caller later looks at them: index, configuration, alignment, lock-poison and
/// quantization errors.
pub open spec fn always_logged(e: ANNError) -> bool {
    match e {
        ANNError::IndexError { .. } => true,
        ANNError::IndexConfigError { .. } => true,
        ANNError::DiskIOAlignmentError { .. } => true,
        ANNError::LockPoisonError { .. } => true,
        ANNError::PQError { .. } => true,
        _ => false,
    }
}

impl ANNError {
    /// Whether this error belongs to the always-logged categories.
    pub fn is_always_logged(&self) -> (r: bool)
        ensures
            r == always_logged(*self),
    {
        match self {
            ANNError::IndexError { .. } => true,
            ANNError::IndexConfigError { .. } => true,
            ANNError::DiskIOAlignmentError { .. } => true,
            ANNError::LockPoisonError { .. } => true,
            ANNError::PQError { .. } => true,
            _ => false,
        }
    }

    /// Builds an index error; the binary's log layer records it.
    pub fn log_index_error(err: String) -> (r: Self)
        ensures
            r == (ANNError::IndexError { err }),
    {
        ANNError::IndexError { err }
    }

    /// Builds an index configuration error for `parameter`; the binary's log layer records it.
    pub fn log_index_config_error(parameter: String, err: String) -> (r: Self)
        ensures
            r == (ANNError::IndexConfigError { parameter, err }),
    {
        ANNError::IndexConfigError { parameter, err }
    }

    /// Builds an integer conversion error from the conversion's description.
    pub fn log_try_from_int_error(err: String) -> (r: Self)
        ensures
            r == (ANNError::TryFromIntError { err }),
    {
        ANNError::TryFromIntError { err }
    }

    /// Builds an I/O error.
    pub fn log_io_error(err: IoFailure) -> (r: Self)
        ensures
            r == (ANNError::IOError { err }),
    {
        ANNError::IOError { err }
    }

    /// Builds an alignment error for the offending `value`.
    pub fn log_disk_io_request_alignment_error(value: u64, alignment: u64) -> (r: Self)
        ensures
            r == (ANNError::DiskIOAlignmentError { value, alignment }),
    {
        ANNError::DiskIOAlignmentError { value, alignment }
    }

    /// Builds a memory layout error from the allocator's description.
    pub fn log_mem_alloc_layout_error(err: String) -> (r: Self)
        ensures
            r == (ANNError::MemoryAllocLayoutError { err }),
    {
        ANNError::MemoryAllocLayoutError { err }
    }

    /// Builds a lock-poison error.
    pub fn log_lock_poison_error(err: String) -> (r: Self)
        ensures
            r == (ANNError::LockPoisonError { err }),
    {
        ANNError::LockPoisonError { err }
    }

    /// Builds a product-quantization error.
    pub fn log_pq_error(err: String) -> (r: Self)
        ensures
            r == (ANNError::PQError { err }),
    {
        ANNError::PQError { err }
    }

    /// Builds a slice conversion error from the conversion's description.
    pub fn log_try_from_slice_error(err: String) -> (r: Self)
        ensures
            r == (ANNError::TryFromSliceError { err }),
    {
        ANNError::TryFromSliceError { err }
    }

    /// Builds the error of a concurrent unit that did not complete.
    pub fn join_error(cancelled: bool, err: String) -> (r: Self)
        ensures
            r == (ANNError::JoinError { cancelled, err }),
    {
        ANNError::JoinError { cancelled, err }
    }
}

} // verus!
