//! Aligned, concurrent batch reads from a disk-resident index file: read requests whose
//! offsets and lengths are whole sectors, the ordered collection of a batch's outcomes, the
//! execution context's status machine, the completion decisions of overlapped I/O, and the
//! error taxonomy shared by all of them.

pub mod aligned_read;
pub mod batch;
pub mod completion;
pub mod error;
pub mod file_handle;
pub mod instrumentation;
pub mod io_context;
mod outside;
pub mod perf;
pub mod reader;
pub mod storage;
