use vstd::prelude::*;

use tokio::fs::File;

verus! {

/// What the opener may do with a file.
#[derive(Clone, Copy, Debug, PartialEq, Eq, Structural)]
pub enum AccessMode {
    Read,
    Write,
    ReadWrite,
}

/// What other openers may do with the file meanwhile. Advisory on platforms without
/// native sharing modes.
#[derive(Clone, Copy, Debug, PartialEq, Eq, Structural)]
pub enum ShareMode {
    Exclusive,
    Read,
    Write,
    Delete,
}

/// The options that an open call passes to the operating system.
#[derive(Clone, Copy, Debug, PartialEq, Eq, Structural)]
pub struct OpenFlags {
    pub read: bool,
    pub write: bool,
    pub create: bool,
    pub truncate: bool,
}

/// Read opens an existing file for reading; Write creates the file, or empties an existing
/// one, for writing; ReadWrite opens an existing file for both.
pub open spec fn flags_for(mode: AccessMode) -> OpenFlags {
    match mode {
        AccessMode::Read => OpenFlags { read: true, write: false, create: false, truncate: false },
        AccessMode::Write => OpenFlags { read: false, write: true, create: true, truncate: true },
        AccessMode::ReadWrite => OpenFlags { read: true, write: true, create: false, truncate: false },
    }
}

impl AccessMode {
    /// The open options that this access mode stands for.
    pub fn open_flags(&self) -> (r: OpenFlags)
        ensures
            r == flags_for(*self),
    {
        match self {
            AccessMode::Read => OpenFlags { read: true, write: false, create: false, truncate: false },
            AccessMode::Write => OpenFlags { read: false, write: true, create: true, truncate: true },
            AccessMode::ReadWrite => OpenFlags { read: true, write: true, create: false, truncate: false },
        }
    }
}

/// Exclusive ownership of one open file. The file is closed exactly once, when the handle
/// is dropped.
pub struct FileHandle {
    pub file: File,
}

impl FileHandle {
    /// Takes ownership of a file that was opened with the flags of some access mode.
    pub fn from_file(file: File) -> (r: Self)
        ensures
            r.file == file,
    {
        FileHandle { file }
    }
}

} // verus!
