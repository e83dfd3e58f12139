use vstd::prelude::*;

use crate::types::CanonicalType;

verus! {

/// A lowered, language-agnostic type usable across the foreign-function
/// boundary: a fixed-width scalar, the opaque object handle, or a
/// length-prefixed byte buffer.
#[derive(Clone, Copy, Debug, PartialEq, Eq, Structural)]
pub enum FfiType {
    UInt8,
    Int8,
    UInt16,
    Int16,
    UInt32,
    Int32,
    UInt64,
    Int64,
    Float32,
    Float64,
    RustBuffer,
}

/// The lowering of a canonical type to its boundary representation.
///
/// Objects pass as a fixed-width unsigned handle; enums, records, strings,
/// sequences and optionals pass as a length-prefixed buffer, whether or not
/// the enum carries associated data; scalars pass as the matching
/// fixed-width scalar, booleans as one byte.
pub open spec fn lower_type(t: CanonicalType) -> FfiType {
    match t {
        CanonicalType::UInt8 => FfiType::UInt8,
        CanonicalType::Int8 => FfiType::Int8,
        CanonicalType::UInt16 => FfiType::UInt16,
        CanonicalType::Int16 => FfiType::Int16,
        CanonicalType::UInt32 => FfiType::UInt32,
        CanonicalType::Int32 => FfiType::Int32,
        CanonicalType::UInt64 => FfiType::UInt64,
        CanonicalType::Int64 => FfiType::Int64,
        CanonicalType::Float32 => FfiType::Float32,
        CanonicalType::Float64 => FfiType::Float64,
        CanonicalType::Boolean => FfiType::UInt8,
        CanonicalType::String => FfiType::RustBuffer,
        CanonicalType::Optional(_) => FfiType::RustBuffer,
        CanonicalType::Sequence(_) => FfiType::RustBuffer,
        CanonicalType::Record(_) => FfiType::RustBuffer,
        CanonicalType::Enum(_) => FfiType::RustBuffer,
        CanonicalType::Object(_) => FfiType::UInt64,
    }
}

/// Lowers a canonical type to its boundary representation.
pub fn lower(t: &CanonicalType) -> (r: FfiType)
    ensures
        r == lower_type(*t),
{
    match t {
        CanonicalType::UInt8 => FfiType::UInt8,
        CanonicalType::Int8 => FfiType::Int8,
        CanonicalType::UInt16 => FfiType::UInt16,
        CanonicalType::Int16 => FfiType::Int16,
        CanonicalType::UInt32 => FfiType::UInt32,
        CanonicalType::Int32 => FfiType::Int32,
        CanonicalType::UInt64 => FfiType::UInt64,
        CanonicalType::Int64 => FfiType::Int64,
        CanonicalType::Float32 => FfiType::Float32,
        CanonicalType::Float64 => FfiType::Float64,
        CanonicalType::Boolean => FfiType::UInt8,
        CanonicalType::String => FfiType::RustBuffer,
        CanonicalType::Optional(_) => FfiType::RustBuffer,
        CanonicalType::Sequence(_) => FfiType::RustBuffer,
        CanonicalType::Record(_) => FfiType::RustBuffer,
        CanonicalType::Enum(_) => FfiType::RustBuffer,
        CanonicalType::Object(_) => FfiType::UInt64,
    }
}

/// The empty, underived flat signature every freshly built definition
/// carries until the derivation pass runs.
pub open spec fn ffi_empty(f: FfiFunction) -> bool {
    f.name@.len() == 0 && f.arguments@.len() == 0 && f.return_type is None
}

/// One argument of a lowered signature.
#[derive(Debug)]
pub struct FfiArgument {
    pub name: String,
    pub type_: FfiType,
}

impl FfiArgument {
    pub fn name(&self) -> (r: &str)
        ensures
            r@ == self.name@,
    {
        self.name.as_str()
    }

    pub fn type_(&self) -> (r: FfiType)
        ensures
            r == self.type_,
    {
        self.type_
    }
}

/// A flat function of the foreign-function layer: a symbol name, lowered
/// arguments in order, and an optional lowered return type. A void return
/// lowers to no return value, never to a zero-length buffer.
#[derive(Debug)]
pub struct FfiFunction {
    pub name: String,
    pub arguments: Vec<FfiArgument>,
    pub return_type: Option<FfiType>,
}

impl FfiFunction {
    pub fn name(&self) -> (r: &str)
        ensures
            r@ == self.name@,
    {
        self.name.as_str()
    }

    pub fn arguments(&self) -> (r: Vec<&FfiArgument>)
        ensures
            r@.len() == self.arguments@.len(),
            forall|i: int| 0 <= i < r@.len() ==> *(#[trigger] r@[i]) == self.arguments@[i],
    {
        let mut out: Vec<&FfiArgument> = Vec::new();
        let mut i: usize = 0;
        let end = self.arguments.len();
        while i < end
            invariant
                end == self.arguments@.len(),
                i <= end,
                out@.len() == i,
                forall|j: int| 0 <= j < i ==> *(#[trigger] out@[j]) == self.arguments@[j],
            decreases end - i,
        {
            out.push(&self.arguments[i]);
            i += 1;
        }
        out
    }

    pub fn return_type(&self) -> (r: Option<FfiType>)
        ensures
            r == self.return_type,
    {
        match self.return_type {
            Some(t) => Some(t),
            None => None,
        }
    }
}

impl Default for FfiFunction {
    /// An empty, underived signature.
    fn default() -> (r: Self)
        ensures
            r.name@.len() == 0,
            r.arguments@.len() == 0,
            r.return_type is None,
    {
        FfiFunction { name: String::new(), arguments: Vec::new(), return_type: None }
    }
}

} // verus!
