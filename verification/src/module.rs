//! Per-module metadata: a module is a lightweight opaque identifier,
//! valid only together with the owning process handle it was enumerated
//! from, plus lazily memoized metadata — its name, its file name, and one
//! atomic snapshot of its base address, size and entry point. The OS
//! queries are outside collaborators; their raw results are fed into the
//! recovery steps here.
use crate::process::{memo_first, name_outcome, view_opt_string, view_opt_units};
use crate::strings::get_string_utf16;
use crate::Address;
use vstd::prelude::*;

verus! {

/// One atomic metadata snapshot of a loaded module: all three fields come
/// from a single OS query, so either the whole snapshot exists or none of
/// it does.
#[derive(Clone, Copy, Debug, Hash, PartialEq, Eq, Structural)]
pub struct ModuleInfo {
    /// Where the module's image starts in the target's address space.
    pub base_address: Address,
    /// The size of the mapped image, in bytes.
    pub module_memory_size: u32,
    /// The module's entry point in the target's address space.
    pub entry_point_address: Address,
}

/// One module loaded by the target process: an opaque identifier with a
/// metadata cache. It carries no owning reference back to its process;
/// every query result is handed in together with it, and the identifier
/// silently goes stale once the owning handle is destroyed or the target
/// unloads the module.
pub struct ProcessModule {
    /// The raw OS module identifier.
    pub module_handle: Address,
    /// The module's name, cached on first successful decode.
    pub name: Option<String>,
    /// The module's file name, cached on first successful decode.
    pub file_name: Option<String>,
    /// The metadata snapshot, cached on first successful query.
    pub module_info: Option<ModuleInfo>,
}

impl ProcessModule {
    /// Adopts one identifier from the OS module enumeration, with every
    /// cache empty.
    pub fn from_raw_handle(raw: Address) -> (r: ProcessModule)
        ensures
            r == (ProcessModule {
                module_handle: raw,
                name: Option::None,
                file_name: Option::None,
                module_info: Option::None,
            }),
    {
        ProcessModule {
            module_handle: raw,
            name: Option::None,
            file_name: Option::None,
            module_info: Option::None,
        }
    }

    /// The raw module identifier, for the driver to pass to the OS
    /// primitives together with the owning process handle.
    pub fn raw_handle(&self) -> (r: Address)
        ensures
            r == self.module_handle,
    {
        self.module_handle
    }

    /// The name already cached for this module, if any.
    pub fn cached_name(&self) -> (r: &Option<String>)
        ensures
            r == self.name,
    {
        &self.name
    }

    /// The file name already cached for this module, if any.
    pub fn cached_file_name(&self) -> (r: &Option<String>)
        ensures
            r == self.file_name,
    {
        &self.file_name
    }

    /// One recovery of the module's name. `raw` is the wide-string buffer
    /// the OS filled when queried this time (absent when the query
    /// failed). The first successful decode is cached and answers every
    /// later call; a failed query or failed decode caches nothing.
    pub fn get_name(&mut self, raw: Option<Vec<u16>>) -> (r: Option<String>)
        ensures
            view_opt_string(r) == name_outcome(
                view_opt_string(old(self).name),
                view_opt_units(raw),
            ),
            view_opt_string(final(self).name) == view_opt_string(r),
            final(self).module_handle == old(self).module_handle,
            final(self).file_name == old(self).file_name,
            final(self).module_info == old(self).module_info,
    {
        if self.name.is_some() {
            let n: &String = self.name.as_ref().unwrap();
            Option::Some(n.clone())
        } else {
            match raw {
                Option::Some(units) => {
                    let decoded: Option<String> = get_string_utf16(units.as_slice());
                    match &decoded {
                        Option::Some(s) => {
                            self.name = Option::Some(s.clone());
                        },
                        Option::None => {},
                    }
                    decoded
                },
                Option::None => Option::None,
            }
        }
    }

    /// One recovery of the module's file name, with the same memoization
    /// as `get_name`, on its own cache.
    pub fn get_file_name(&mut self, raw: Option<Vec<u16>>) -> (r: Option<String>)
        ensures
            view_opt_string(r) == name_outcome(
                view_opt_string(old(self).file_name),
                view_opt_units(raw),
            ),
            view_opt_string(final(self).file_name) == view_opt_string(r),
            final(self).module_handle == old(self).module_handle,
            final(self).name == old(self).name,
            final(self).module_info == old(self).module_info,
    {
        if self.file_name.is_some() {
            let n: &String = self.file_name.as_ref().unwrap();
            Option::Some(n.clone())
        } else {
            match raw {
                Option::Some(units) => {
                    let decoded: Option<String> = get_string_utf16(units.as_slice());
                    match &decoded {
                        Option::Some(s) => {
                            self.file_name = Option::Some(s.clone());
                        },
                        Option::None => {},
                    }
                    decoded
                },
                Option::None => Option::None,
            }
        }
    }

    /// One recovery of the module's metadata snapshot. `queried` is what
    /// the single OS information query produced this time (absent when it
    /// failed). The first successful snapshot is cached whole and answers
    /// every later call; a failed query caches nothing.
    pub fn get_module_info(&mut self, queried: Option<ModuleInfo>) -> (r: Option<ModuleInfo>)
        ensures
            r == memo_first(old(self).module_info, queried),
            final(self).module_info == r,
            final(self).module_handle == old(self).module_handle,
            final(self).name == old(self).name,
            final(self).file_name == old(self).file_name,
    {
        match self.module_info {
            Option::Some(info) => Option::Some(info),
            Option::None => {
                self.module_info = queried;
                queried
            },
        }
    }

    /// The module's base address, from the memoized snapshot.
    pub fn get_base_address(&mut self, queried: Option<ModuleInfo>) -> (r: Option<Address>)
        ensures
            r == (match memo_first(old(self).module_info, queried) {
                Option::Some(i) => Option::Some(i.base_address),
                Option::None => Option::None::<Address>,
            }),
            final(self).module_info == memo_first(old(self).module_info, queried),
            final(self).module_handle == old(self).module_handle,
            final(self).name == old(self).name,
            final(self).file_name == old(self).file_name,
    {
        match self.get_module_info(queried) {
            Option::Some(info) => Option::Some(info.base_address),
            Option::None => Option::None,
        }
    }

    /// The module's entry point, from the memoized snapshot.
    pub fn get_entry_point_address(&mut self, queried: Option<ModuleInfo>) -> (r: Option<Address>)
        ensures
            r == (match memo_first(old(self).module_info, queried) {
                Option::Some(i) => Option::Some(i.entry_point_address),
                Option::None => Option::None::<Address>,
            }),
            final(self).module_info == memo_first(old(self).module_info, queried),
            final(self).module_handle == old(self).module_handle,
            final(self).name == old(self).name,
            final(self).file_name == old(self).file_name,
    {
        match self.get_module_info(queried) {
            Option::Some(info) => Option::Some(info.entry_point_address),
            Option::None => Option::None,
        }
    }

    /// The mapped image's size, from the memoized snapshot.
    pub fn get_module_size(&mut self, queried: Option<ModuleInfo>) -> (r: Option<u32>)
        ensures
            r == (match memo_first(old(self).module_info, queried) {
                Option::Some(i) => Option::Some(i.module_memory_size),
                Option::None => Option::None::<u32>,
            }),
            final(self).module_info == memo_first(old(self).module_info, queried),
            final(self).module_handle == old(self).module_handle,
            final(self).name == old(self).name,
            final(self).file_name == old(self).file_name,
    {
        match self.get_module_info(queried) {
            Option::Some(info) => Option::Some(info.module_memory_size),
            Option::None => Option::None,
        }
    }
}

} // verus!
