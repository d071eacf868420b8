//! The `Process` value record: a running process with an owned handle to it.

use vstd::prelude::*;

use crate::Error;
use crate::handle::Handle;
use crate::handle::raw_is_usable;

verus! {

/// One fixed-layout record produced by the process flavor of the snapshot
/// enumerator: the numeric process id and a fixed-capacity, null-padded
/// executable-name buffer.
pub struct ProcessRecord {
    pub id: u32,
    pub name_buf: Vec<u8>,
}

/// Mathematical image of a `Process`.
pub struct ProcessModel {
    pub id: u32,
    pub name: Seq<char>,
    pub handle_raw: usize,
}

/// A running OS process: its id, its decoded image name, and an owned
/// handle with full access rights to it. Created only by the registry
/// scans; deliberately neither `Clone` nor `Copy`, so the handle has a
/// single owner and is released at most once.
#[derive(Debug)]
pub struct Process {
    pub(crate) id: u32,
    pub(crate) name: String,
    pub(crate) handle: Handle,
}

impl View for Process {
    type V = ProcessModel;

    closed spec fn view(&self) -> ProcessModel {
        ProcessModel { id: self.id, name: self.name@, handle_raw: self.handle@ }
    }
}

impl Process {
    /// Assemble a process record; only the registry scans do this.
    pub(crate) fn make(id: u32, name: String, handle: Handle) -> (p: Process)
        ensures
            p@ == (ProcessModel { id, name: name@, handle_raw: handle@ }),
    {
        Process { id, name, handle }
    }

    /// A process only ever carries a handle that passed the usability
    /// check, so no downstream operation dereferences an invalid handle.
    pub open spec fn wf(&self) -> bool {
        raw_is_usable(self@.handle_raw)
    }

    /// Returns id field of process
    pub fn get_id(&self) -> (r: &u32)
        ensures
            *r == self@.id,
    {
        &self.id
    }

    /// Returns name field of process
    pub fn get_name(&self) -> (r: &str)
        ensures
            r@ == self@.name,
    {
        self.name.as_str()
    }

    /// Returns the raw value of the owned OS process handle, for OS calls
    /// that use (but do not release) the resource.
    pub fn get_handle(&self) -> (r: usize)
        ensures
            r == self@.handle_raw,
    {
        self.handle.raw()
    }

    /// Give the owned process handle up for release, when the caller is
    /// done with the process: consumes the record and hands the raw handle
    /// value back exactly once, for the platform shim to close.
    pub fn release(self) -> (r: usize)
        ensures
            r == self@.handle_raw,
    {
        self.handle.release()
    }

    /// The decision behind the bitness query: the OS call reports a status
    /// and fills a flag saying whether the process runs under the 32-bit
    /// compatibility layer. A status other than 1 propagates the OS error
    /// code; otherwise the process is 64-bit exactly when the flag is not 1.
    pub fn is_x64(status: i32, wow64_flag: i32, os_error: u32) -> (r: Result<bool, Error>)
        ensures
            status == 1 ==> r == Ok::<bool, Error>(wow64_flag != 1),
            status != 1 ==> r == Err::<bool, Error>(Error::Os(os_error)),
    {
        if status != 1 {
            Err(Error::Os(os_error))
        } else {
            Ok(wow64_flag != 1)
        }
    }
}

} // verus!
