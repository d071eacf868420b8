//! The `Module` value record: a point-in-time fact about one dynamic
//! library loaded in a process's address space.

use vstd::prelude::*;

use crate::name::decode_spec;

verus! {

/// One fixed-layout record produced by the module flavor of the snapshot
/// enumerator: a fixed-capacity, null-padded module-name buffer and the
/// module's base load address.
pub struct ModuleRecord {
    pub name_buf: Vec<u8>,
    pub base_address: usize,
}

/// Mathematical image of a `ModuleRecord`.
pub struct ModuleRecordModel {
    pub name_buf: Seq<u8>,
    pub base_address: usize,
}

impl View for ModuleRecord {
    type V = ModuleRecordModel;

    open spec fn view(&self) -> ModuleRecordModel {
        ModuleRecordModel { name_buf: self.name_buf@, base_address: self.base_address }
    }
}

/// Mathematical image of a `Module`.
pub struct ModuleModel {
    pub name: Seq<char>,
    pub address: usize,
}

/// The module a record stands for: its decoded name and its base address.
pub open spec fn module_of_record(rec: ModuleRecordModel) -> ModuleModel {
    ModuleModel { name: decode_spec(rec.name_buf), address: rec.base_address }
}

/// A dynamic library loaded in a process: decoded name and base load
/// address. Immutable; carries no handle.
#[derive(Debug)]
pub struct Module {
    pub(crate) name: String,
    pub(crate) address: usize,
}

impl View for Module {
    type V = ModuleModel;

    closed spec fn view(&self) -> ModuleModel {
        ModuleModel { name: self.name@, address: self.address }
    }
}

impl Module {
    /// Assemble a module record; only the resolver scans do this.
    pub(crate) fn make(name: String, address: usize) -> (m: Module)
        ensures
            m@ == (ModuleModel { name: name@, address }),
    {
        Module { name, address }
    }

    /// Returns address
    pub fn get_address(&self) -> (r: &usize)
        ensures
            *r == self@.address,
    {
        &self.address
    }

    /// Returns name
    pub fn get_name(&self) -> (r: &str)
        ensures
            r@ == self@.name,
    {
        self.name.as_str()
    }
}

} // verus!
