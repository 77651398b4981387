//! Host-side errors: what can go wrong while compiling, instantiating and
//! calling guest modules, and how those failures map onto the shared error
//! taxonomy when they cross the boundary.

use crate::error::GuestCallError;
use crate::error::HostCallError;
use crate::error::WasmError;
use vstd::prelude::*;
use vstd::string::StringExecFns;

verus! {

/// Errors that can occur on the host side.
#[derive(Clone, Debug, PartialEq, Eq)]
pub enum HostError {
    /// WASM compilation failed.
    Compilation(String),
    /// Instance creation failed.
    Instantiation(String),
    /// Function not found in module.
    FunctionNotFound(String),
    /// Memory export not found.
    MemoryNotFound,
    /// Memory access error.
    MemoryAccess(String),
    /// Runtime error during execution.
    Runtime(String),
    /// Invalid return value from guest.
    InvalidReturn,
    /// Guest returned an error.
    GuestError(String),
    /// Serialization error.
    Serialization(String),
    /// Deserialization error.
    Deserialization(String),
    /// Metering limit exceeded.
    MeteringExceeded,
    /// Cache error.
    Cache(String),
}

impl HostError {
    /// The human-readable rendering of this error.
    pub open spec fn spec_describe(&self) -> Seq<char> {
        match self {
            HostError::Compilation(m) => "compilation error: "@ + m@,
            HostError::Instantiation(m) => "instantiation error: "@ + m@,
            HostError::FunctionNotFound(m) => "function not found: "@ + m@,
            HostError::MemoryNotFound => "memory not found in exports"@,
            HostError::MemoryAccess(m) => "memory access error: "@ + m@,
            HostError::Runtime(m) => "runtime error: "@ + m@,
            HostError::InvalidReturn => "invalid return value from guest"@,
            HostError::GuestError(m) => "guest error: "@ + m@,
            HostError::Serialization(m) => "serialization error: "@ + m@,
            HostError::Deserialization(m) => "deserialization error: "@ + m@,
            HostError::MeteringExceeded => "metering limit exceeded"@,
            HostError::Cache(m) => "cache error: "@ + m@,
        }
    }

    /// Render this error as a string.
    pub fn describe(&self) -> (r: String)
        ensures
            r@ == self.spec_describe(),
    {
        match self {
            HostError::Compilation(m) => {
                let mut s = "compilation error: ".to_owned();
                s.append(m.as_str());
                s
            },
            HostError::Instantiation(m) => {
                let mut s = "instantiation error: ".to_owned();
                s.append(m.as_str());
                s
            },
            HostError::FunctionNotFound(m) => {
                let mut s = "function not found: ".to_owned();
                s.append(m.as_str());
                s
            },
            HostError::MemoryNotFound => "memory not found in exports".to_owned(),
            HostError::MemoryAccess(m) => {
                let mut s = "memory access error: ".to_owned();
                s.append(m.as_str());
                s
            },
            HostError::Runtime(m) => {
                let mut s = "runtime error: ".to_owned();
                s.append(m.as_str());
                s
            },
            HostError::InvalidReturn => "invalid return value from guest".to_owned(),
            HostError::GuestError(m) => {
                let mut s = "guest error: ".to_owned();
                s.append(m.as_str());
                s
            },
            HostError::Serialization(m) => {
                let mut s = "serialization error: ".to_owned();
                s.append(m.as_str());
                s
            },
            HostError::Deserialization(m) => {
                let mut s = "deserialization error: ".to_owned();
                s.append(m.as_str());
                s
            },
            HostError::MeteringExceeded => "metering limit exceeded".to_owned(),
            HostError::Cache(m) => {
                let mut s = "cache error: ".to_owned();
                s.append(m.as_str());
                s
            },
        }
    }

    /// The boundary error a host error maps onto: guest-call failures keep
    /// their kind, everything else becomes a generic host-call error.
    pub open spec fn spec_to_wasm_error(self) -> WasmError {
        match self {
            HostError::FunctionNotFound(_) => WasmError::GuestCall(
                GuestCallError::FunctionNotExported,
            ),
            HostError::InvalidReturn => WasmError::GuestCall(GuestCallError::InvalidReturn),
            HostError::MeteringExceeded => WasmError::GuestCall(GuestCallError::MeteringExceeded),
            HostError::GuestError(_) => WasmError::GuestCall(GuestCallError::Panic),
            _ => WasmError::HostCall(HostCallError::HostError(0)),
        }
    }
}

impl From<HostError> for WasmError {
    /// Map a host error onto the shared taxonomy.
    fn from(err: HostError) -> (r: WasmError) {
        match err {
            HostError::FunctionNotFound(_) => WasmError::GuestCall(
                GuestCallError::FunctionNotExported,
            ),
            HostError::InvalidReturn => WasmError::GuestCall(GuestCallError::InvalidReturn),
            HostError::MeteringExceeded => WasmError::GuestCall(GuestCallError::MeteringExceeded),
            HostError::GuestError(_) => WasmError::GuestCall(GuestCallError::Panic),
            _ => WasmError::HostCall(HostCallError::HostError(0)),
        }
    }
}

impl vstd::std_specs::convert::FromSpecImpl<HostError> for WasmError {
    open spec fn obeys_from_spec() -> bool {
        true
    }

    open spec fn from_spec(err: HostError) -> WasmError {
        err.spec_to_wasm_error()
    }
}

} // verus!
