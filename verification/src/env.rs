//! Per-instance host environment: a handle to the instance's linear memory
//! and typed handles to the guest's allocate and deallocate exports, with
//! the byte-transfer primitives built on them.

use crate::decimal::spec_decimal;
use crate::decimal::u64_to_string;
use crate::host_error::HostError;
use crate::instance::memory_data_size;
use crate::instance::memory_read;
use crate::instance::memory_write;
use crate::slice::WasmSlice;
use vstd::prelude::*;
use vstd::string::StringExecFns;

verus! {

broadcast use vstd::std_specs::vec::axiom_spec_len;

/// A typed handle to a guest export, opaque to the logic here.
#[verifier::external_type_specification]
#[verifier::external_body]
#[verifier::reject_recursive_types(Args)]
#[verifier::reject_recursive_types(Rets)]
pub struct ExTypedFunction<Args, Rets>(wasmer::TypedFunction<Args, Rets>);

/// Relies on wasmer's `TypedFunction::call` for an `(i32) -> i32` export:
/// the guest's answer, or a trap rendered as text.
#[verifier::external_body]
pub(crate) fn call_allocate(f: &wasmer::TypedFunction<i32, i32>, store: &mut wasmer::Store, len:
    i32) -> Result<i32, String> {
    match f.call(store, len) {
        Ok(ptr) => Ok(ptr),
        Err(e) => Err(format!("{}", e)),
    }
}

/// Relies on wasmer's `TypedFunction::call` for an `(i32, i32) -> ()`
/// export: the call's outcome, a trap rendered as text.
#[verifier::external_body]
pub(crate) fn call_deallocate(f: &wasmer::TypedFunction<(i32, i32), ()>, store:
    &mut wasmer::Store, ptr: i32, len: i32) -> Result<(), String> {
    match f.call(store, ptr, len) {
        Ok(()) => Ok(()),
        Err(e) => Err(format!("{}", e)),
    }
}

/// The message of an out-of-bounds guest read:
/// `Out of bounds: <start>..<end> > <size>`.
pub open spec fn spec_bounds_message(start: int, end: int, size: int) -> Seq<char> {
    "Out of bounds: "@ + spec_decimal(start) + ".."@ + spec_decimal(end) + " > "@ + spec_decimal(
        size,
    )
}

fn bounds_message(start: u64, end: u64, size: u64) -> (r: String)
    ensures
        r@ == spec_bounds_message(start as int, end as int, size as int),
{
    let mut s = "Out of bounds: ".to_owned();
    let start_str = u64_to_string(start);
    s.append(start_str.as_str());
    s.append("..");
    let end_str = u64_to_string(end);
    s.append(end_str.as_str());
    s.append(" > ");
    let size_str = u64_to_string(size);
    s.append(size_str.as_str());
    s
}

/// Environment data of one instance: the linear memory and the guest's
/// allocation exports, all set after the instance is created.
pub struct Env {
    /// The instance's linear memory.
    pub memory: Option<wasmer::Memory>,
    /// The guest's allocate export.
    pub allocate: Option<wasmer::TypedFunction<i32, i32>>,
    /// The guest's deallocate export.
    pub deallocate: Option<wasmer::TypedFunction<(i32, i32), ()>>,
}

impl Env {
    /// Create a new, uninitialised environment.
    pub fn new() -> (r: Env)
        ensures
            r.memory is None,
            r.allocate is None,
            r.deallocate is None,
    {
        Env { memory: None, allocate: None, deallocate: None }
    }

    /// Check whether the environment is initialised: memory and both
    /// exports present.
    pub fn is_initialized(&self) -> (r: bool)
        ensures
            r == (self.memory is Some && self.allocate is Some && self.deallocate is Some),
    {
        self.memory.is_some() && self.allocate.is_some() && self.deallocate.is_some()
    }

    /// Copy bytes out of guest memory, bounds-checked against the memory's
    /// current size; the memory may move or grow between calls, so the
    /// bytes are copied rather than borrowed. The message tells the three
    /// failures apart: an uninitialised environment (exactly when the
    /// memory handle is absent), an out-of-bounds region, and a failed
    /// runtime read.
    pub fn consume_bytes_from_guest(&self, store: &wasmer::Store, guest_ptr: u32, len: u32) -> (r:
        Result<Vec<u8>, HostError>)
        ensures
            (r matches Err(HostError::MemoryAccess(m)) && m@ == "Memory not initialized"@)
                <==> self.memory is None,
            self.memory is Some ==> (r matches Err(HostError::MemoryAccess(m)) ==> (m@.len() >= 15
                && m@.subrange(0, 15) == "Out of bounds: "@) || (m@.len() >= 23 && m@.subrange(
                0,
                23,
            ) == "Failed to read memory: "@)),
            r matches Ok(v) ==> v@.len() == len,
            r matches Err(e) ==> e matches HostError::MemoryAccess(_),
    {
        proof {
            reveal_strlit("Memory not initialized");
            reveal_strlit("Out of bounds: ");
            reveal_strlit("Failed to read memory: ");
        }
        let memory = match &self.memory {
            Some(memory) => memory,
            None => {
                return Err(HostError::MemoryAccess("Memory not initialized".to_owned()));
            },
        };
        let size = memory_data_size(memory, store);
        let start = guest_ptr as u64;
        let end = start + len as u64;
        if end > size {
            let message = bounds_message(start, end, size);
            proof {
                assert(message@.subrange(0, 15) =~= "Out of bounds: "@);
                assert(message@ != "Memory not initialized"@) by {
                    if message@ == "Memory not initialized"@ {
                        assert(message@[0] == 'M');
                    }
                }
            }
            return Err(HostError::MemoryAccess(message));
        }
        match memory_read(memory, store, start, len as usize) {
            Ok(bytes) => Ok(bytes),
            Err(msg) => {
                let mut text = "Failed to read memory: ".to_owned();
                text.append(msg.as_str());
                proof {
                    assert(text@.subrange(0, 23) =~= "Failed to read memory: "@);
                    assert(text@ != "Memory not initialized"@) by {
                        if text@ == "Memory not initialized"@ {
                            assert(text@[0] == 'M');
                        }
                    }
                }
                Err(HostError::MemoryAccess(text))
            },
        }
    }

    /// Move bytes into guest memory: ask the guest to allocate, write the
    /// bytes at the returned pointer, and pack the written region as
    /// `(ptr << 32) | len`.
    pub fn move_bytes_to_guest(&self, store: &mut wasmer::Store, bytes: &[u8]) -> (r: Result<
        u64,
        HostError,
    >)
        requires
            bytes@.len() <= i32::MAX,
        ensures
            self.memory is None ==> (r matches Err(HostError::MemoryAccess(m)) && m@
                == "Memory not initialized"@),
            self.memory is Some && self.allocate is None ==> (r matches Err(
                HostError::MemoryAccess(m),
            ) && m@ == "Allocate function not initialized"@),
            r matches Ok(packed) ==> exists|p: u32|
                packed == #[trigger] (WasmSlice { ptr: p, len: bytes@.len() as u32 }).spec_pack(),
            r matches Err(e) ==> e matches HostError::MemoryAccess(_),
    {
        let memory = match &self.memory {
            Some(memory) => memory,
            None => {
                return Err(HostError::MemoryAccess("Memory not initialized".to_owned()));
            },
        };
        let allocate = match &self.allocate {
            Some(allocate) => allocate,
            None => {
                return Err(
                    HostError::MemoryAccess("Allocate function not initialized".to_owned()),
                );
            },
        };
        let len = bytes.len() as i32;
        let ptr = match call_allocate(allocate, store, len) {
            Ok(ptr) => ptr,
            Err(msg) => {
                let mut text = "Failed to allocate: ".to_owned();
                text.append(msg.as_str());
                return Err(HostError::MemoryAccess(text));
            },
        };
        match memory_write(memory, store, ptr as u32 as u64, bytes) {
            Ok(()) => (),
            Err(msg) => {
                let mut text = "Failed to write to memory: ".to_owned();
                text.append(msg.as_str());
                return Err(HostError::MemoryAccess(text));
            },
        }
        let slice = WasmSlice::new(ptr as u32, bytes.len() as u32);
        let packed = slice.pack();
        proof {
            assert(packed == (WasmSlice { ptr: slice.ptr, len: bytes@.len() as u32 }).spec_pack());
        }
        Ok(packed)
    }

    /// Forward a region to the guest's deallocate export; with the arena
    /// model this is a no-op in the guest, and an environment without the
    /// export accepts the call silently.
    pub fn deallocate_in_guest(&self, store: &mut wasmer::Store, ptr: u32, len: u32) -> (r: Result<
        (),
        HostError,
    >)
        ensures
            self.deallocate is None ==> r is Ok,
            r matches Err(e) ==> e matches HostError::MemoryAccess(_),
    {
        if let Some(deallocate) = &self.deallocate {
            match call_deallocate(deallocate, store, ptr as i32, len as i32) {
                Ok(()) => (),
                Err(msg) => {
                    let mut text = "Failed to deallocate: ".to_owned();
                    text.append(msg.as_str());
                    return Err(HostError::MemoryAccess(text));
                },
            }
        }
        Ok(())
    }
}

impl Default for Env {
    /// The default environment is uninitialised.
    fn default() -> (r: Env)
        ensures
            r.memory is None,
            r.allocate is None,
            r.deallocate is None,
    {
        Env::new()
    }
}

} // verus!
