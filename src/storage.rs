use vstd::prelude::*;

use std::sync::Arc;

use crate::error::ANNResult;
use crate::io_context::{LinuxIOContext, Status};
use crate::outside::share;
use crate::reader::LinuxAlignedFileReader;

verus! {

/// Owns one reader and one execution context, and serves batch reads to the graph layer.
pub struct DiskGraphStorage {
    pub disk_graph_reader: Arc<LinuxAlignedFileReader>,
    pub ctx: Arc<LinuxIOContext>,
}

impl DiskGraphStorage {
    /// Builds the storage over an open reader. The context guards the reader's own file
    /// handle, so the file stays opened once.
    pub fn new(disk_graph_reader: Arc<LinuxAlignedFileReader>) -> (r: ANNResult<Self>)
        ensures
            r matches Ok(s) && s.disk_graph_reader == disk_graph_reader && s.ctx.status == Status::ReadWait,
    {
        let file = share(&disk_graph_reader.file);
        let ctx = Arc::new(LinuxIOContext::new(file));
        Ok(Self { disk_graph_reader, ctx })
    }
}

} // verus!
