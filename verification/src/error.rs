//! Error taxonomy of the runtime: a shallow sum over serialisation,
//! deserialisation, memory, host-call and guest-call failures, plus free-form
//! guest and host messages and a structured inner form carrying an error kind
//! with an optional capture site.

use crate::decimal::spec_decimal;
use crate::decimal::u64_to_string;
use vstd::prelude::*;
use vstd::string::StringExecFns;
use vstd::string::StringSliceAdditionalSpecFns;

verus! {

/// Categories of errors.
#[derive(Clone, Copy, Debug, PartialEq, Eq, Structural)]
pub enum ErrorKind {
    /// Unknown error.
    Unknown,
    /// Serialization error.
    Serialization,
    /// Deserialization error.
    Deserialization,
    /// Memory error.
    Memory,
    /// Host call error.
    HostCall,
    /// Guest call error.
    GuestCall,
    /// Validation error.
    Validation,
    /// Timeout error.
    Timeout,
    /// Permission denied.
    PermissionDenied,
}

impl ErrorKind {
    /// The name of this kind.
    pub open spec fn spec_label(self) -> Seq<char> {
        match self {
            ErrorKind::Unknown => "Unknown"@,
            ErrorKind::Serialization => "Serialization"@,
            ErrorKind::Deserialization => "Deserialization"@,
            ErrorKind::Memory => "Memory"@,
            ErrorKind::HostCall => "HostCall"@,
            ErrorKind::GuestCall => "GuestCall"@,
            ErrorKind::Validation => "Validation"@,
            ErrorKind::Timeout => "Timeout"@,
            ErrorKind::PermissionDenied => "PermissionDenied"@,
        }
    }

    /// The name of this kind.
    pub fn label(&self) -> (r: &'static str)
        ensures
            r@ == self.spec_label(),
    {
        match self {
            ErrorKind::Unknown => "Unknown",
            ErrorKind::Serialization => "Serialization",
            ErrorKind::Deserialization => "Deserialization",
            ErrorKind::Memory => "Memory",
            ErrorKind::HostCall => "HostCall",
            ErrorKind::GuestCall => "GuestCall",
            ErrorKind::Validation => "Validation",
            ErrorKind::Timeout => "Timeout",
            ErrorKind::PermissionDenied => "PermissionDenied",
        }
    }
}

/// Serialization errors.
#[derive(Clone, Copy, Debug, PartialEq, Eq, Structural)]
pub enum SerializeError {
    /// Buffer too small for serialization.
    BufferTooSmall {
        /// The number of bytes that were needed.
        needed: usize,
        /// The number of bytes available.
        available: usize,
    },
    /// Type cannot be serialized.
    UnsupportedType,
    /// Nesting too deep.
    NestingTooDeep,
}

/// Deserialization errors.
#[derive(Clone, Copy, Debug, PartialEq, Eq, Structural)]
pub enum DeserializeError {
    /// Unexpected end of input.
    UnexpectedEof,
    /// Invalid data format.
    InvalidFormat,
    /// Type mismatch.
    TypeMismatch,
    /// Unknown variant.
    UnknownVariant(u32),
}

impl SerializeError {
    /// The name of this error's variant.
    pub open spec fn spec_label(self) -> Seq<char> {
        match self {
            SerializeError::BufferTooSmall { .. } => "BufferTooSmall"@,
            SerializeError::UnsupportedType => "UnsupportedType"@,
            SerializeError::NestingTooDeep => "NestingTooDeep"@,
        }
    }

    /// The name of this error's variant.
    pub fn label(&self) -> (r: &'static str)
        ensures
            r@ == self.spec_label(),
    {
        match self {
            SerializeError::BufferTooSmall { .. } => "BufferTooSmall",
            SerializeError::UnsupportedType => "UnsupportedType",
            SerializeError::NestingTooDeep => "NestingTooDeep",
        }
    }
}

impl DeserializeError {
    /// The name of this error's variant.
    pub open spec fn spec_label(self) -> Seq<char> {
        match self {
            DeserializeError::UnexpectedEof => "UnexpectedEof"@,
            DeserializeError::InvalidFormat => "InvalidFormat"@,
            DeserializeError::TypeMismatch => "TypeMismatch"@,
            DeserializeError::UnknownVariant(_) => "UnknownVariant"@,
        }
    }

    /// The name of this error's variant.
    pub fn label(&self) -> (r: &'static str)
        ensures
            r@ == self.spec_label(),
    {
        match self {
            DeserializeError::UnexpectedEof => "UnexpectedEof",
            DeserializeError::InvalidFormat => "InvalidFormat",
            DeserializeError::TypeMismatch => "TypeMismatch",
            DeserializeError::UnknownVariant(_) => "UnknownVariant",
        }
    }
}

/// Memory errors.
#[derive(Clone, Copy, Debug, PartialEq, Eq, Structural)]
pub enum MemoryError {
    /// Allocation failed.
    AllocationFailed {
        /// The number of bytes requested.
        requested: usize,
    },
    /// Out of bounds access.
    OutOfBounds {
        /// Offset of the attempted access.
        offset: usize,
        /// Length of the attempted access.
        len: usize,
        /// Size of the accessible region.
        max: usize,
    },
    /// Alignment error.
    Alignment {
        /// The misaligned address.
        addr: usize,
        /// The required alignment.
        required: usize,
    },
    /// Arena exhausted.
    ArenaExhausted,
}

impl MemoryError {
    /// The name of this error's variant.
    pub open spec fn spec_label(self) -> Seq<char> {
        match self {
            MemoryError::AllocationFailed { .. } => "AllocationFailed"@,
            MemoryError::OutOfBounds { .. } => "OutOfBounds"@,
            MemoryError::Alignment { .. } => "Alignment"@,
            MemoryError::ArenaExhausted => "ArenaExhausted"@,
        }
    }

    /// The name of this error's variant.
    pub fn label(&self) -> (r: &'static str)
        ensures
            r@ == self.spec_label(),
    {
        match self {
            MemoryError::AllocationFailed { .. } => "AllocationFailed",
            MemoryError::OutOfBounds { .. } => "OutOfBounds",
            MemoryError::Alignment { .. } => "Alignment",
            MemoryError::ArenaExhausted => "ArenaExhausted",
        }
    }
}

/// Host call errors.
#[derive(Clone, Copy, Debug, PartialEq, Eq, Structural)]
pub enum HostCallError {
    /// Function not found.
    FunctionNotFound,
    /// Invalid arguments.
    InvalidArguments,
    /// Host returned error.
    HostError(u32),
    /// Call timed out.
    Timeout,
}

impl HostCallError {
    /// The name of this error's variant.
    pub open spec fn spec_label(self) -> Seq<char> {
        match self {
            HostCallError::FunctionNotFound => "FunctionNotFound"@,
            HostCallError::InvalidArguments => "InvalidArguments"@,
            HostCallError::HostError(_) => "HostError"@,
            HostCallError::Timeout => "Timeout"@,
        }
    }

    /// The name of this error's variant.
    pub fn label(&self) -> (r: &'static str)
        ensures
            r@ == self.spec_label(),
    {
        match self {
            HostCallError::FunctionNotFound => "FunctionNotFound",
            HostCallError::InvalidArguments => "InvalidArguments",
            HostCallError::HostError(_) => "HostError",
            HostCallError::Timeout => "Timeout",
        }
    }
}

/// Guest call errors.
#[derive(Clone, Copy, Debug, PartialEq, Eq, Structural)]
pub enum GuestCallError {
    /// Function not exported.
    FunctionNotExported,
    /// Invalid return value.
    InvalidReturn,
    /// Guest panicked.
    Panic,
    /// Metering limit exceeded.
    MeteringExceeded,
}

impl GuestCallError {
    /// The name of this error's variant.
    pub open spec fn spec_label(self) -> Seq<char> {
        match self {
            GuestCallError::FunctionNotExported => "FunctionNotExported"@,
            GuestCallError::InvalidReturn => "InvalidReturn"@,
            GuestCallError::Panic => "Panic"@,
            GuestCallError::MeteringExceeded => "MeteringExceeded"@,
        }
    }

    /// The name of this error's variant.
    pub fn label(&self) -> (r: &'static str)
        ensures
            r@ == self.spec_label(),
    {
        match self {
            GuestCallError::FunctionNotExported => "FunctionNotExported",
            GuestCallError::InvalidReturn => "InvalidReturn",
            GuestCallError::Panic => "Panic",
            GuestCallError::MeteringExceeded => "MeteringExceeded",
        }
    }
}

/// Fixed-capacity error message: at most 128 bytes of text, truncated
/// beyond that.
#[derive(Clone, Debug, PartialEq, Eq)]
pub struct ErrorMessage {
    bytes: Vec<u8>,
}

impl ErrorMessage {
    /// The stored message bytes.
    pub closed spec fn spec_bytes(&self) -> Seq<u8> {
        self.bytes@
    }

    /// At most 128 bytes are stored.
    pub open spec fn wf(&self) -> bool {
        self.spec_bytes().len() <= 128
    }

    /// Create from a static string, keeping at most its first 128 bytes.
    pub fn from_static(s: &'static str) -> (r: ErrorMessage)
        ensures
            r.wf(),
            s.spec_bytes().len() <= 128 ==> r.spec_bytes() == s.spec_bytes(),
            s.spec_bytes().len() > 128 ==> r.spec_bytes() == s.spec_bytes().take(128),
    {
        let raw = s.as_bytes();
        let keep = if raw.len() > 128 {
            128
        } else {
            raw.len()
        };
        let bytes = vstd::slice::slice_to_vec(vstd::slice::slice_subrange(raw, 0, keep));
        proof {
            if s.spec_bytes().len() <= 128 {
                assert(bytes@ =~= s.spec_bytes());
            } else {
                assert(bytes@ =~= s.spec_bytes().take(128));
            }
        }
        ErrorMessage { bytes }
    }

    /// The stored message bytes.
    pub fn as_bytes(&self) -> (r: &[u8])
        ensures
            r@ == self.spec_bytes(),
    {
        self.bytes.as_slice()
    }
}

/// Inner error with kind, message and optional capture site.
#[derive(Clone, Debug, PartialEq, Eq)]
pub struct WasmErrorInner {
    /// Error kind.
    pub kind: ErrorKind,
    /// Optional file location.
    pub file: Option<String>,
    /// Optional line number.
    pub line: Option<u32>,
    /// The message text.
    pub message: String,
}

impl WasmErrorInner {
    /// The message text.
    pub open spec fn spec_message(&self) -> Seq<char> {
        self.message@
    }

    /// The file of the capture site, when one was recorded.
    pub open spec fn spec_file(&self) -> Option<Seq<char>> {
        match self.file {
            Option::Some(f) => Option::Some(f@),
            Option::None => Option::None,
        }
    }

    /// Create a new error with a message and no capture site.
    pub fn new(kind: ErrorKind, message: &str) -> (r: WasmErrorInner)
        ensures
            r.kind == kind,
            r.spec_file() is None,
            r.line is None,
            r.spec_message() == message@,
    {
        WasmErrorInner { kind, file: None, line: None, message: message.to_owned() }
    }

    /// Get the message as a string slice.
    pub fn message(&self) -> (r: &str)
        ensures
            r@ == self.spec_message(),
    {
        self.message.as_str()
    }

    /// Record the capture site.
    pub fn with_location(self, file: &str, line: u32) -> (r: WasmErrorInner)
        ensures
            r.kind == self.kind,
            r.spec_message() == self.spec_message(),
            r.spec_file() == Option::Some(file@),
            r.line == Option::Some(line),
    {
        WasmErrorInner { file: Some(file.to_owned()), line: Some(line), ..self }
    }

    /// Begin building an error from a static message; the builder defers the
    /// string allocation to `build`.
    pub fn new_const(kind: ErrorKind, message: &'static str) -> (r: WasmErrorInnerBuilder)
        ensures
            r.kind == kind,
            r.message@ == message@,
    {
        WasmErrorInnerBuilder { kind, message }
    }
}

/// Builder holding a static message, turned into a `WasmErrorInner` at
/// runtime.
pub struct WasmErrorInnerBuilder {
    /// Error kind.
    pub kind: ErrorKind,
    /// The static message.
    pub message: &'static str,
}

impl WasmErrorInnerBuilder {
    /// Record the capture site.
    pub fn with_location(self, file: &'static str, line: u32) -> (r:
        WasmErrorInnerBuilderWithLocation)
        ensures
            r.kind == self.kind,
            r.message@ == self.message@,
            r.file@ == file@,
            r.line == line,
    {
        WasmErrorInnerBuilderWithLocation { kind: self.kind, message: self.message, file, line }
    }

    /// Build the inner error, without a capture site.
    pub fn build(self) -> (r: WasmErrorInner)
        ensures
            r.kind == self.kind,
            r.spec_message() == self.message@,
            r.spec_file() is None,
            r.line is None,
    {
        WasmErrorInner {
            kind: self.kind,
            file: None,
            line: None,
            message: self.message.to_owned(),
        }
    }
}

/// Builder that has recorded a capture site.
pub struct WasmErrorInnerBuilderWithLocation {
    /// Error kind.
    pub kind: ErrorKind,
    /// The static message.
    pub message: &'static str,
    /// The capture file.
    pub file: &'static str,
    /// The capture line.
    pub line: u32,
}

impl WasmErrorInnerBuilderWithLocation {
    /// Build the inner error, with the capture site.
    pub fn build(self) -> (r: WasmErrorInner)
        ensures
            r.kind == self.kind,
            r.spec_message() == self.message@,
            r.spec_file() == Option::Some(self.file@),
            r.line == Option::Some(self.line),
    {
        WasmErrorInner {
            kind: self.kind,
            file: Some(self.file.to_owned()),
            line: Some(self.line),
            message: self.message.to_owned(),
        }
    }
}

/// Primary error type for boundary operations.
#[derive(Clone, Debug, PartialEq, Eq)]
pub enum WasmError {
    /// Error during serialization.
    Serialize(SerializeError),
    /// Error during deserialization.
    Deserialize(DeserializeError),
    /// Memory allocation failed.
    Memory(MemoryError),
    /// Host function call failed.
    HostCall(HostCallError),
    /// Guest function call failed.
    GuestCall(GuestCallError),
    /// Generic guest error with a string message.
    Guest(String),
    /// Generic host error with a string message.
    Host(String),
    /// Structured guest error with location info.
    GuestStructured(WasmErrorInner),
}

impl WasmError {
    /// Create a new guest error from a string.
    pub fn guest(msg: &str) -> (r: WasmError)
        ensures
            r matches WasmError::Guest(m) && m@ == msg@,
    {
        WasmError::Guest(msg.to_owned())
    }

    /// A short name for the variant of this error.
    pub open spec fn spec_variant_label(&self) -> Seq<char> {
        match self {
            WasmError::Serialize(_) => "Serialize"@,
            WasmError::Deserialize(_) => "Deserialize"@,
            WasmError::Memory(_) => "Memory"@,
            WasmError::HostCall(_) => "HostCall"@,
            WasmError::GuestCall(_) => "GuestCall"@,
            WasmError::Guest(_) => "Guest"@,
            WasmError::Host(_) => "Host"@,
            WasmError::GuestStructured(_) => "GuestStructured"@,
        }
    }

    /// A short name for the variant of this error.
    pub fn variant_label(&self) -> (r: &'static str)
        ensures
            r@ == self.spec_variant_label(),
    {
        match self {
            WasmError::Serialize(_) => "Serialize",
            WasmError::Deserialize(_) => "Deserialize",
            WasmError::Memory(_) => "Memory",
            WasmError::HostCall(_) => "HostCall",
            WasmError::GuestCall(_) => "GuestCall",
            WasmError::Guest(_) => "Guest",
            WasmError::Host(_) => "Host",
            WasmError::GuestStructured(_) => "GuestStructured",
        }
    }

    /// The human-readable rendering of this error.
    pub open spec fn spec_describe(&self) -> Seq<char> {
        match self {
            WasmError::Serialize(e) => "serialization error: "@ + e.spec_label(),
            WasmError::Deserialize(e) => "deserialization error: "@ + e.spec_label(),
            WasmError::Memory(e) => "memory error: "@ + e.spec_label(),
            WasmError::HostCall(e) => "host call error: "@ + e.spec_label(),
            WasmError::GuestCall(e) => "guest call error: "@ + e.spec_label(),
            WasmError::Guest(m) => "guest error: "@ + m@,
            WasmError::Host(m) => "host error: "@ + m@,
            WasmError::GuestStructured(inner) => {
                let head = "["@ + inner.kind.spec_label() + "] "@ + inner.spec_message();
                if inner.spec_file() is Some && inner.line is Some {
                    head + " at "@ + inner.spec_file()->Some_0 + ":"@ + spec_decimal(
                        inner.line->Some_0 as int,
                    )
                } else {
                    head
                }
            },
        }
    }

    /// Render this error as a string.
    pub fn describe(&self) -> (r: String)
        ensures
            r@ == self.spec_describe(),
    {
        match self {
            WasmError::Serialize(e) => {
                let mut s = "serialization error: ".to_owned();
                s.append(e.label());
                s
            },
            WasmError::Deserialize(e) => {
                let mut s = "deserialization error: ".to_owned();
                s.append(e.label());
                s
            },
            WasmError::Memory(e) => {
                let mut s = "memory error: ".to_owned();
                s.append(e.label());
                s
            },
            WasmError::HostCall(e) => {
                let mut s = "host call error: ".to_owned();
                s.append(e.label());
                s
            },
            WasmError::GuestCall(e) => {
                let mut s = "guest call error: ".to_owned();
                s.append(e.label());
                s
            },
            WasmError::Guest(m) => {
                let mut s = "guest error: ".to_owned();
                s.append(m.as_str());
                s
            },
            WasmError::Host(m) => {
                let mut s = "host error: ".to_owned();
                s.append(m.as_str());
                s
            },
            WasmError::GuestStructured(inner) => {
                let mut s = "[".to_owned();
                s.append(inner.kind.label());
                s.append("] ");
                s.append(inner.message());
                if inner.file.is_some() && inner.line.is_some() {
                    s.append(" at ");
                    match &inner.file {
                        Some(f) => s.append(f.as_str()),
                        None => (),
                    }
                    s.append(":");
                    match &inner.line {
                        Some(l) => {
                            let rendered = u64_to_string(*l as u64);
                            s.append(rendered.as_str());
                        },
                        None => (),
                    }
                }
                s
            },
        }
    }
}

impl From<String> for WasmError {
    /// A plain string becomes a generic guest error.
    fn from(s: String) -> (r: WasmError) {
        WasmError::Guest(s)
    }
}

impl vstd::std_specs::convert::FromSpecImpl<String> for WasmError {
    open spec fn obeys_from_spec() -> bool {
        true
    }

    open spec fn from_spec(s: String) -> WasmError {
        WasmError::Guest(s)
    }
}

impl From<&str> for WasmError {
    /// A plain string slice becomes a generic guest error.
    fn from(s: &str) -> (r: WasmError) {
        WasmError::Guest(s.to_owned())
    }
}

impl vstd::std_specs::convert::FromSpecImpl<&str> for WasmError {
    open spec fn obeys_from_spec() -> bool {
        // A spec-level `String` value cannot be named for an arbitrary
        // `&str`, so conversion from string slices promises nothing beyond
        // the variant produced by `from` itself.
        false
    }

    open spec fn from_spec(s: &str) -> WasmError {
        WasmError::Guest(arbitrary())
    }
}

} // verus!
