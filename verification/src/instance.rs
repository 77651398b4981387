//! Instances ready for execution: instantiation of a compiled module with a
//! minimal import surface, and the host-to-guest call protocol — write the
//! framed input into guest memory, invoke the export with `(ptr, len)`,
//! and read back and decode the packed result.

use crate::codec::encode_with_envelope;
use crate::env::call_allocate;
use crate::engine::WasmEngine;
use crate::host::classify_guest_return;
use crate::host::decode_guest_response;
use crate::host::ExternIO;
use crate::host_error::HostError;
use crate::slice::WasmResult;
use vstd::prelude::*;
use vstd::string::StringExecFns;
use vstd::slice::slice_subrange;

verus! {

broadcast use vstd::std_specs::vec::axiom_spec_len;

/// The per-instance state of the runtime, opaque to the logic here.
#[verifier::external_type_specification]
#[verifier::external_body]
pub struct ExStore(wasmer::Store);

/// An instantiated module, opaque to the logic here.
#[verifier::external_type_specification]
#[verifier::external_body]
pub struct ExInstance(wasmer::Instance);

/// A guest linear memory, opaque to the logic here.
#[verifier::external_type_specification]
#[verifier::external_body]
pub struct ExMemory(wasmer::Memory);

/// An exported guest function, opaque to the logic here.
#[verifier::external_type_specification]
#[verifier::external_body]
pub struct ExFunction(wasmer::Function);

/// Relies on wasmer's `Store::new`: a fresh store over the engine.
#[verifier::external_body]
fn store_new(engine: &wasmer::Engine) -> wasmer::Store {
    wasmer::Store::new(engine.clone())
}

/// Relies on wasmer's `Memory::new`: a linear memory of initially 1 page,
/// no maximum, non-shared; the error is rendered as text.
#[verifier::external_body]
fn memory_new(store: &mut wasmer::Store) -> Result<wasmer::Memory, String> {
    match wasmer::Memory::new(store, wasmer::MemoryType::new(1, None, false)) {
        Ok(memory) => Ok(memory),
        Err(e) => Err(format!("{}", e)),
    }
}

/// Relies on wasmer's `Imports::define` and `Instance::new`: instantiates
/// the module with `env.memory` as its only import; the error is rendered
/// as text.
#[verifier::external_body]
fn instantiate_with_memory(store: &mut wasmer::Store, module: &wasmer::Module, memory:
    &wasmer::Memory) -> Result<wasmer::Instance, String> {
    let mut import_object = wasmer::Imports::new();
    import_object.define("env", "memory", memory.clone());
    match wasmer::Instance::new(store, module, &import_object) {
        Ok(instance) => Ok(instance),
        Err(e) => Err(format!("{}", e)),
    }
}

/// Relies on wasmer's `Exports::get_function`: the named export, when the
/// module has one; the error is rendered as text.
#[verifier::external_body]
pub(crate) fn get_export_function(instance: &wasmer::Instance, name: &str) -> Result<
    wasmer::Function,
    String,
> {
    match instance.exports.get_function(name) {
        Ok(f) => Ok(f.clone()),
        Err(e) => Err(format!("{}", e)),
    }
}

/// Relies on wasmer's `Exports::get_memory` on the export named "memory";
/// the error is rendered as text.
#[verifier::external_body]
pub(crate) fn get_export_memory(instance: &wasmer::Instance, name: &str) -> Result<
    wasmer::Memory,
    String,
> {
    match instance.exports.get_memory(name) {
        Ok(m) => Ok(m.clone()),
        Err(e) => Err(format!("{}", e)),
    }
}

/// Relies on wasmer's `MemoryView::write`: on success the data lies at the
/// offset in the guest memory; the error is rendered as text.
#[verifier::external_body]
pub(crate) fn memory_write(memory: &wasmer::Memory, store: &wasmer::Store, offset: u64, data:
    &[u8]) -> Result<(), String> {
    match memory.view(store).write(offset, data) {
        Ok(()) => Ok(()),
        Err(e) => Err(format!("{}", e)),
    }
}

/// Relies on wasmer's `MemoryView::read`: on success the returned bytes are
/// exactly `len` long, copied from the offset in the guest memory; the
/// error is rendered as text.
#[verifier::external_body]
pub(crate) fn memory_read(memory: &wasmer::Memory, store: &wasmer::Store, offset: u64, len:
    usize) -> (r: Result<Vec<u8>, String>)
    ensures
        r matches Ok(v) ==> v@.len() == len,
{
    let mut buffer = vec![0u8; len];
    match memory.view(store).read(offset, &mut buffer) {
        Ok(()) => Ok(buffer),
        Err(e) => Err(format!("{}", e)),
    }
}

/// Relies on wasmer's `MemoryView::data_size`: the current byte size of the
/// guest memory.
#[verifier::external_body]
pub(crate) fn memory_data_size(memory: &wasmer::Memory, store: &wasmer::Store) -> u64 {
    memory.view(store).data_size()
}

/// Relies on wasmer's `Function::call` with two i32 arguments: the first
/// returned value when it is an i64, `None` for any other return shape; a
/// trap is rendered as text.
#[verifier::external_body]
fn call_function(func: &wasmer::Function, store: &mut wasmer::Store, ptr: i32, len: i32) -> Result<
    Option<i64>,
    String,
> {
    match func.call(store, &[wasmer::Value::I32(ptr), wasmer::Value::I32(len)]) {
        Ok(values) => match values.first() {
            Some(wasmer::Value::I64(v)) => Ok(Some(*v)),
            _ => Ok(None),
        },
        Err(e) => Err(format!("{}", e)),
    }
}

/// Relies on wasmer's `Exports::get_global` and `Global::get` on the
/// `wasmer_metering_points_exhausted` global that the metering middleware
/// of wasmer-middlewares installs, and sets non-zero when the operation
/// budget is spent: the global's value, when the instance has one of i32
/// type; `None` when the module was compiled without the middleware.
#[verifier::external_body]
fn metering_exhausted_flag(store: &mut wasmer::Store, instance: &wasmer::Instance) -> Option<i32> {
    match instance.exports.get_global("wasmer_metering_points_exhausted") {
        Ok(global) => match global.get(store) {
            wasmer::Value::I32(v) => Some(v),
            _ => None,
        },
        Err(_) => None,
    }
}

/// The fixed low offset in guest memory at which call input is written.
pub const CALL_INPUT_OFFSET: u32 = 1024;

/// A WASM instance ready for execution: an instantiated module with its
/// store.
pub struct WasmInstance {
    instance: wasmer::Instance,
    store: wasmer::Store,
}

impl WasmInstance {
    /// Create a new instance from a compiled module: a fresh store, a fresh
    /// linear memory handed in as `env.memory`, and the instantiated
    /// module. A failure is an instantiation error carrying the runtime's
    /// message.
    pub fn new(engine: &WasmEngine, module: &wasmer::Module) -> (r: Result<
        WasmInstance,
        HostError,
    >)
        ensures
            r matches Err(e) ==> e matches HostError::Instantiation(_),
    {
        let mut store = store_new(engine.inner());
        let memory = match memory_new(&mut store) {
            Ok(memory) => memory,
            Err(msg) => {
                return Err(HostError::Instantiation(msg));
            },
        };
        let instance = match instantiate_with_memory(&mut store, module, &memory) {
            Ok(instance) => instance,
            Err(msg) => {
                return Err(HostError::Instantiation(msg));
            },
        };
        Ok(WasmInstance { instance, store })
    }

    /// Call a named export: frame the arguments in an envelope, write the
    /// frame at the fixed input offset, invoke the export with
    /// `(ptr, len)`, and interpret the packed result — reading, unframing
    /// and checking the response region on success. Every failure names its
    /// stage: a missing export is `FunctionNotFound` with the name, a
    /// missing memory export `MemoryNotFound`, a failed transfer
    /// `MemoryAccess`, a trap `Runtime`, a malformed return value
    /// `InvalidReturn`, a malformed response `Deserialization`, an error
    /// reported by the guest `GuestError`, and a trap that spent the
    /// metering budget `MeteringExceeded`.
    pub fn call_raw(&mut self, name: &str, args: &[u8]) -> (r: Result<Vec<u8>, HostError>)
        requires
            args@.len() + 64 <= i32::MAX,
        ensures
            r matches Err(e) ==> match e {
                HostError::FunctionNotFound(m) => m@ == name@,
                HostError::MemoryNotFound => true,
                HostError::MemoryAccess(_) => true,
                HostError::Runtime(_) => true,
                HostError::InvalidReturn => true,
                HostError::GuestError(_) => true,
                HostError::Deserialization(_) => true,
                HostError::MeteringExceeded => true,
                _ => false,
            },
    {
        let func = match get_export_function(&self.instance, name) {
            Ok(f) => f,
            Err(_) => {
                return Err(HostError::FunctionNotFound(name.to_owned()));
            },
        };
        let mut buffer: Vec<u8> = vec![0u8; args.len() + 64];
        let len = match encode_with_envelope(args, 0, &mut buffer) {
            Ok(len) => len,
            Err(e) => {
                return Err(HostError::Serialization(e.describe()));
            },
        };
        let memory = match get_export_memory(&self.instance, "memory") {
            Ok(m) => m,
            Err(_) => {
                return Err(HostError::MemoryNotFound);
            },
        };
        let frame = slice_subrange(buffer.as_slice(), 0, len);
        match memory_write(&memory, &self.store, CALL_INPUT_OFFSET as u64, frame) {
            Ok(()) => (),
            Err(msg) => {
                return Err(HostError::MemoryAccess(msg));
            },
        }
        let returned = match call_function(
            &func,
            &mut self.store,
            CALL_INPUT_OFFSET as i32,
            len as i32,
        ) {
            Ok(returned) => returned,
            Err(msg) => {
                let exhausted = match metering_exhausted_flag(&mut self.store, &self.instance) {
                    Some(flag) => flag > 0,
                    None => false,
                };
                if exhausted {
                    return Err(HostError::MeteringExceeded);
                }
                return Err(HostError::Runtime(msg));
            },
        };
        let raw = match returned {
            Some(v) => v as u64,
            None => {
                return Err(HostError::InvalidReturn);
            },
        };
        let response_slice = match classify_guest_return(raw)? {
            Some(s) => s,
            None => {
                return Ok(Vec::new());
            },
        };
        let response = match memory_read(
            &memory,
            &self.store,
            response_slice.ptr as u64,
            response_slice.len as usize,
        ) {
            Ok(response) => response,
            Err(msg) => {
                return Err(HostError::MemoryAccess(msg));
            },
        };
        let raw_is_err = WasmResult::from_raw(raw).is_err();
        decode_guest_response(raw_is_err, response.as_slice())
    }

    /// Get a reference to the store.
    pub fn store(&self) -> &wasmer::Store {
        &self.store
    }

    /// Get a mutable reference to the store.
    pub fn store_mut(&mut self) -> &mut wasmer::Store {
        &mut self.store
    }
}

/// A trap or failure raised while running guest code, opaque to the logic
/// here.
#[verifier::external_type_specification]
#[verifier::external_body]
pub struct ExRuntimeError(wasmer::RuntimeError);

/// Relies on wasmer's `RuntimeError::new`: an error carrying the message.
#[verifier::external_body]
fn make_runtime_error(message: &String) -> wasmer::RuntimeError {
    wasmer::RuntimeError::new(message.clone())
}

/// Relies on wasmer's `Exports::get_typed_function` for an `(i32) -> i32`
/// export; the error is rendered as text.
#[verifier::external_body]
fn get_typed_i32_function(instance: &wasmer::Instance, store: &wasmer::Store, name: &str) -> Result<
    wasmer::TypedFunction<i32, i32>,
    String,
> {
    match instance.exports.get_typed_function(store, name) {
        Ok(f) => Ok(f),
        Err(e) => Err(format!("{}", e)),
    }
}

fn text_with_detail(head: &str, detail: &str) -> (r: String)
    ensures
        r@ == head@ + detail@,
{
    let mut s = head.to_owned();
    s.append(detail);
    s
}

/// Call a guest export through the guest's own allocator: place the input
/// bytes where the guest asked, invoke the export with `(ptr, len)`, and
/// copy out the region the packed result addresses; an empty region yields
/// empty bytes. Which region that is stands in `response_region`'s
/// contract; what comes back is either the empty result of an empty
/// returned slice or exactly the region some packed result addressed. The
/// bytes themselves rest on the guest's behaviour, so nothing is promised
/// of them.
pub fn call(store: &mut wasmer::Store, instance: &wasmer::Instance, name: &str, input: ExternIO)
    -> (r: Result<ExternIO, wasmer::RuntimeError>)
    requires
        input.0@.len() <= i32::MAX,
    ensures
        r matches Ok(io) ==> io.0@.len() == 0 || (exists|raw: u64|
            io.0@.len() == (#[trigger] WasmResult::spec_from_raw(raw)).spec_slice().len),
{
    let memory = match get_export_memory(instance, "memory") {
        Ok(m) => m,
        Err(msg) => {
            return Err(make_runtime_error(&text_with_detail("Failed to get memory: ", msg.as_str())));
        },
    };
    let allocate = match get_typed_i32_function(instance, store, "__hc__allocate_1") {
        Ok(f) => f,
        Err(msg) => {
            return Err(make_runtime_error(&text_with_detail("Failed to get allocate: ", msg.as_str())));
        },
    };
    let input_len = input.0.len() as i32;
    let input_ptr = match call_allocate(&allocate, store, input_len) {
        Ok(ptr) => ptr,
        Err(msg) => {
            return Err(make_runtime_error(&msg));
        },
    };
    match memory_write(&memory, store, input_ptr as u32 as u64, input.0.as_slice()) {
        Ok(()) => (),
        Err(msg) => {
            return Err(make_runtime_error(&text_with_detail("Failed to write input: ", msg.as_str())));
        },
    }
    let func = match get_export_function(instance, name) {
        Ok(f) => f,
        Err(msg) => {
            let mut text = "Function '".to_owned();
            text.append(name);
            text.append("' not found: ");
            text.append(msg.as_str());
            return Err(make_runtime_error(&text));
        },
    };
    let returned = match call_function(&func, store, input_ptr, input_len) {
        Ok(returned) => returned,
        Err(msg) => {
            return Err(make_runtime_error(&msg));
        },
    };
    let raw = match returned {
        Some(v) => v as u64,
        None => {
            return Err(make_runtime_error(&"Invalid return type from guest".to_owned()));
        },
    };
    let result_slice = match crate::host::response_region(raw) {
        Some(region) => region,
        None => {
            return Ok(ExternIO::new(Vec::new()));
        },
    };
    match memory_read(&memory, store, result_slice.ptr as u64, result_slice.len as usize) {
        Ok(bytes) => {
            proof {
                assert(bytes@.len() == WasmResult::spec_from_raw(raw).spec_slice().len);
            }
            Ok(ExternIO::new(bytes))
        },
        Err(msg) => Err(make_runtime_error(&text_with_detail("Failed to read result: ", msg.as_str()))),
    }
}

/// Call a guest export with raw bytes, without the `ExternIO` wrapper:
/// what comes back is either the empty result of an empty returned slice
/// or exactly the region some packed result addressed.
pub fn call_raw(store: &mut wasmer::Store, instance: &wasmer::Instance, name: &str, input: &[u8])
    -> (r: Result<Vec<u8>, wasmer::RuntimeError>)
    requires
        input@.len() <= i32::MAX,
    ensures
        r matches Ok(v) ==> v@.len() == 0 || (exists|raw: u64|
            v@.len() == (#[trigger] WasmResult::spec_from_raw(raw)).spec_slice().len),
{
    let io = call(store, instance, name, ExternIO::new(vstd::slice::slice_to_vec(input)))?;
    Ok(io.into_vec())
}

} // verus!
