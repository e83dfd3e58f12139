use vstd::prelude::*;

verus! {

/// The category of a conversion-time failure.
///
/// Conversion is fail-fast: the first violation aborts the conversion of the
/// enclosing definition, and the error propagates verbatim to the driver.
#[derive(Clone, Copy, Debug, PartialEq, Eq, Structural)]
pub enum ErrorKind {
    /// Source syntax that the supported language subset excludes outright
    /// (inheritance, variadic arguments, stringifiers, special operations,
    /// explicit discriminants).
    UnsupportedSyntax,
    /// A structurally ill-formed declaration (non-public fields, anonymous
    /// members, reserved names, unnamed fields).
    StructuralViolation,
    /// A declaration that is well-formed but semantically illegal, such as an
    /// object type embedded as enum or record field data.
    SemanticViolation,
    /// An unknown modifier, or a modifier that is illegal on its construct.
    AttributeViolation,
    /// A type expression that names no known type.
    UnknownTypeName,
}

/// A conversion failure: one kind together with a human-readable message.
#[derive(Debug)]
pub struct ConversionError {
    pub kind: ErrorKind,
    pub message: String,
}

impl ConversionError {
    pub fn new(kind: ErrorKind, message: &str) -> (r: Self)
        ensures
            r.kind == kind,
            r.message@ == message@,
    {
        ConversionError { kind, message: String::from_str(message) }
    }

    pub fn kind(&self) -> (k: ErrorKind)
        ensures
            k == self.kind,
    {
        self.kind
    }

    pub fn message(&self) -> (m: &str)
        ensures
            m@ == self.message@,
    {
        self.message.as_str()
    }
}

} // verus!
