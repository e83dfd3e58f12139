use vstd::prelude::*;

use crate::ast::TypeExpr;
use crate::error::{ConversionError, ErrorKind};
use crate::text::str_eq;

verus! {

/// A canonical semantic type: the tagged variant every type expression of
/// either front end resolves into.
///
/// Named cases carry the user-defined definition's name; `Optional` and
/// `Sequence` nest. Structurally identical expressions resolve to entries
/// with one canonical name, which is the deduplication key of the universe.
#[derive(Debug, PartialEq)]
pub enum CanonicalType {
    UInt8,
    Int8,
    UInt16,
    Int16,
    UInt32,
    Int32,
    UInt64,
    Int64,
    Float32,
    Float64,
    Boolean,
    String,
    Optional(Box<CanonicalType>),
    Sequence(Box<CanonicalType>),
    Record(String),
    Enum(String),
    Object(String),
}

/// The kind a user-defined name was registered under.
#[derive(Clone, Copy, Debug, PartialEq, Eq, Structural)]
pub enum NameKind {
    EnumName,
    ObjectName,
    RecordName,
}

/// One registered user-defined name.
#[derive(Debug)]
pub struct NameEntry {
    pub name: String,
    pub kind: NameKind,
}

/// The canonical name of a type: a deterministic string key over its
/// structure, used for deduplication in the universe.
pub open spec fn canon(t: CanonicalType) -> Seq<char>
    decreases t,
{
    match t {
        CanonicalType::UInt8 => "u8"@,
        CanonicalType::Int8 => "i8"@,
        CanonicalType::UInt16 => "u16"@,
        CanonicalType::Int16 => "i16"@,
        CanonicalType::UInt32 => "u32"@,
        CanonicalType::Int32 => "i32"@,
        CanonicalType::UInt64 => "u64"@,
        CanonicalType::Int64 => "i64"@,
        CanonicalType::Float32 => "f32"@,
        CanonicalType::Float64 => "f64"@,
        CanonicalType::Boolean => "boolean"@,
        CanonicalType::String => "string"@,
        CanonicalType::Optional(inner) => "Optional"@ + canon(*inner),
        CanonicalType::Sequence(inner) => "Sequence"@ + canon(*inner),
        CanonicalType::Record(name) => "Record"@ + name@,
        CanonicalType::Enum(name) => "Enum"@ + name@,
        CanonicalType::Object(name) => "Object"@ + name@,
    }
}

/// The scalar type a builtin type name denotes, if any. Both grammars'
/// spellings are accepted, so one logical type has one entry whichever
/// front end named it.
pub open spec fn scalar_of(n: Seq<char>) -> Option<CanonicalType> {
    if n == "u8"@ {
        Some(CanonicalType::UInt8)
    } else if n == "i8"@ {
        Some(CanonicalType::Int8)
    } else if n == "u16"@ {
        Some(CanonicalType::UInt16)
    } else if n == "i16"@ {
        Some(CanonicalType::Int16)
    } else if n == "u32"@ {
        Some(CanonicalType::UInt32)
    } else if n == "i32"@ {
        Some(CanonicalType::Int32)
    } else if n == "u64"@ {
        Some(CanonicalType::UInt64)
    } else if n == "i64"@ {
        Some(CanonicalType::Int64)
    } else if n == "f32"@ {
        Some(CanonicalType::Float32)
    } else if n == "f64"@ {
        Some(CanonicalType::Float64)
    } else if n == "boolean"@ || n == "bool"@ {
        Some(CanonicalType::Boolean)
    } else if n == "string"@ || n == "String"@ {
        Some(CanonicalType::String)
    } else {
        None
    }
}

/// The kind registered for name `n`, scanning entries from index `i` on.
pub open spec fn name_kind_from(names: Seq<NameEntry>, n: Seq<char>, i: int) -> Option<NameKind>
    decreases names.len() - i,
{
    if i < 0 || i >= names.len() {
        None
    } else if names[i].name@ == n {
        Some(names[i].kind)
    } else {
        name_kind_from(names, n, i + 1)
    }
}

/// The kind registered for name `n`, if any.
pub open spec fn name_kind(names: Seq<NameEntry>, n: Seq<char>) -> Option<NameKind> {
    name_kind_from(names, n, 0)
}

/// Whether type expression `e` resolves to exactly the type `t`, given the
/// registered names.
pub open spec fn resolves_to(e: TypeExpr, names: Seq<NameEntry>, t: CanonicalType) -> bool
    decreases e,
{
    match e {
        TypeExpr::Ident(s) => match scalar_of(s@) {
            Some(sc) => t == sc,
            None => match name_kind(names, s@) {
                Some(NameKind::EnumName) => t == CanonicalType::Enum(s),
                Some(NameKind::ObjectName) => t == CanonicalType::Object(s),
                Some(NameKind::RecordName) => t == CanonicalType::Record(s),
                None => false,
            },
        },
        TypeExpr::Nullable(inner) => match t {
            CanonicalType::Optional(bt) => resolves_to(*inner, names, *bt),
            _ => false,
        },
        TypeExpr::Sequence(inner) => match t {
            CanonicalType::Sequence(bt) => resolves_to(*inner, names, *bt),
            _ => false,
        },
        TypeExpr::Apply(n, args) => if n@ == "Option"@ && args@.len() == 1 {
            match t {
                CanonicalType::Optional(bt) => resolves_to(args@[0], names, *bt),
                _ => false,
            }
        } else if n@ == "Vec"@ && args@.len() == 1 {
            match t {
                CanonicalType::Sequence(bt) => resolves_to(args@[0], names, *bt),
                _ => false,
            }
        } else {
            false
        },
        _ => false,
    }
}

/// Whether type expression `e` resolves at all, given the registered names.
pub open spec fn resolvable(e: TypeExpr, names: Seq<NameEntry>) -> bool
    decreases e,
{
    match e {
        TypeExpr::Ident(s) => scalar_of(s@) is Some || name_kind(names, s@) is Some,
        TypeExpr::Nullable(inner) => resolvable(*inner, names),
        TypeExpr::Sequence(inner) => resolvable(*inner, names),
        TypeExpr::Apply(n, args) => (n@ == "Option"@ || n@ == "Vec"@) && args@.len() == 1
            && resolvable(args@[0], names),
        _ => false,
    }
}

/// The error category reported when `e` does not resolve.
pub open spec fn resolve_err_kind(e: TypeExpr, names: Seq<NameEntry>) -> ErrorKind
    decreases e,
{
    match e {
        TypeExpr::Ident(_) => ErrorKind::UnknownTypeName,
        TypeExpr::Nullable(inner) => resolve_err_kind(*inner, names),
        TypeExpr::Sequence(inner) => resolve_err_kind(*inner, names),
        TypeExpr::Apply(n, args) => if (n@ == "Option"@ || n@ == "Vec"@) && args@.len() == 1 {
            resolve_err_kind(args@[0], names)
        } else {
            ErrorKind::UnsupportedSyntax
        },
        _ => ErrorKind::UnsupportedSyntax,
    }
}

/// Whether some registered type has canonical name `n`.
pub open spec fn known_contains(ks: Seq<CanonicalType>, n: Seq<char>) -> bool {
    exists|i: int| 0 <= i < ks.len() && canon(#[trigger] ks[i]) == n
}

/// One registration step: the entry joins the universe only when no entry
/// with its canonical name is present.
pub open spec fn add_one(ks: Seq<CanonicalType>, t: CanonicalType) -> Seq<CanonicalType> {
    if known_contains(ks, canon(t)) {
        ks
    } else {
        ks.push(t)
    }
}

/// Registration of a type and its constituents, innermost first.
pub open spec fn add_type(ks: Seq<CanonicalType>, t: CanonicalType) -> Seq<CanonicalType>
    decreases t,
{
    match t {
        CanonicalType::Optional(inner) => add_one(add_type(ks, *inner), t),
        CanonicalType::Sequence(inner) => add_one(add_type(ks, *inner), t),
        _ => add_one(ks, t),
    }
}

/// Whether `t` and all its constituents are present by canonical name.
pub open spec fn all_registered(ks: Seq<CanonicalType>, t: CanonicalType) -> bool
    decreases t,
{
    known_contains(ks, canon(t)) && match t {
        CanonicalType::Optional(inner) => all_registered(ks, *inner),
        CanonicalType::Sequence(inner) => all_registered(ks, *inner),
        _ => true,
    }
}

impl CanonicalType {
    /// The canonical name of this type.
    pub fn canonical_name(&self) -> (r: String)
        ensures
            r@ == canon(*self),
        decreases *self,
    {
        match self {
            CanonicalType::UInt8 => String::from_str("u8"),
            CanonicalType::Int8 => String::from_str("i8"),
            CanonicalType::UInt16 => String::from_str("u16"),
            CanonicalType::Int16 => String::from_str("i16"),
            CanonicalType::UInt32 => String::from_str("u32"),
            CanonicalType::Int32 => String::from_str("i32"),
            CanonicalType::UInt64 => String::from_str("u64"),
            CanonicalType::Int64 => String::from_str("i64"),
            CanonicalType::Float32 => String::from_str("f32"),
            CanonicalType::Float64 => String::from_str("f64"),
            CanonicalType::Boolean => String::from_str("boolean"),
            CanonicalType::String => String::from_str("string"),
            CanonicalType::Optional(inner) => {
                let mut s = String::from_str("Optional");
                let i = inner.canonical_name();
                s.append(i.as_str());
                s
            },
            CanonicalType::Sequence(inner) => {
                let mut s = String::from_str("Sequence");
                let i = inner.canonical_name();
                s.append(i.as_str());
                s
            },
            CanonicalType::Record(name) => {
                let mut s = String::from_str("Record");
                s.append(name.as_str());
                s
            },
            CanonicalType::Enum(name) => {
                let mut s = String::from_str("Enum");
                s.append(name.as_str());
                s
            },
            CanonicalType::Object(name) => {
                let mut s = String::from_str("Object");
                s.append(name.as_str());
                s
            },
        }
    }

    /// An equal copy of this type.
    pub fn duplicate(&self) -> (r: Self)
        ensures
            r == *self,
        decreases *self,
    {
        match self {
            CanonicalType::UInt8 => CanonicalType::UInt8,
            CanonicalType::Int8 => CanonicalType::Int8,
            CanonicalType::UInt16 => CanonicalType::UInt16,
            CanonicalType::Int16 => CanonicalType::Int16,
            CanonicalType::UInt32 => CanonicalType::UInt32,
            CanonicalType::Int32 => CanonicalType::Int32,
            CanonicalType::UInt64 => CanonicalType::UInt64,
            CanonicalType::Int64 => CanonicalType::Int64,
            CanonicalType::Float32 => CanonicalType::Float32,
            CanonicalType::Float64 => CanonicalType::Float64,
            CanonicalType::Boolean => CanonicalType::Boolean,
            CanonicalType::String => CanonicalType::String,
            CanonicalType::Optional(inner) => CanonicalType::Optional(Box::new(inner.duplicate())),
            CanonicalType::Sequence(inner) => CanonicalType::Sequence(Box::new(inner.duplicate())),
            CanonicalType::Record(name) => CanonicalType::Record(name.clone()),
            CanonicalType::Enum(name) => CanonicalType::Enum(name.clone()),
            CanonicalType::Object(name) => CanonicalType::Object(name.clone()),
        }
    }

    /// Whether this type is an object reference.
    pub fn is_object(&self) -> (r: bool)
        ensures
            r == (*self is Object),
    {
        match self {
            CanonicalType::Object(_) => true,
            _ => false,
        }
    }
}

/// The builtin scalar type named by `s`, if any.
fn scalar_for(s: &str) -> (r: Option<CanonicalType>)
    ensures
        r == scalar_of(s@),
{
    if str_eq(s, "u8") {
        Some(CanonicalType::UInt8)
    } else if str_eq(s, "i8") {
        Some(CanonicalType::Int8)
    } else if str_eq(s, "u16") {
        Some(CanonicalType::UInt16)
    } else if str_eq(s, "i16") {
        Some(CanonicalType::Int16)
    } else if str_eq(s, "u32") {
        Some(CanonicalType::UInt32)
    } else if str_eq(s, "i32") {
        Some(CanonicalType::Int32)
    } else if str_eq(s, "u64") {
        Some(CanonicalType::UInt64)
    } else if str_eq(s, "i64") {
        Some(CanonicalType::Int64)
    } else if str_eq(s, "f32") {
        Some(CanonicalType::Float32)
    } else if str_eq(s, "f64") {
        Some(CanonicalType::Float64)
    } else if str_eq(s, "boolean") || str_eq(s, "bool") {
        Some(CanonicalType::Boolean)
    } else if str_eq(s, "string") || str_eq(s, "String") {
        Some(CanonicalType::String)
    } else {
        None
    }
}

/// The registry of canonical types and of user-defined definition names.
///
/// Resolution of an object-typed reference may run before the referenced
/// definition's member list is complete: only its name must be registered.
#[derive(Debug)]
pub struct TypeUniverse {
    pub known: Vec<CanonicalType>,
    pub names: Vec<NameEntry>,
}

impl TypeUniverse {
    pub fn new() -> (r: Self)
        ensures
            r.known@.len() == 0,
            r.names@.len() == 0,
    {
        TypeUniverse { known: Vec::new(), names: Vec::new() }
    }

    /// The kind registered for `n`, if any.
    pub fn kind_of_name(&self, n: &str) -> (r: Option<NameKind>)
        ensures
            r == name_kind(self.names@, n@),
    {
        let mut i: usize = 0;
        let end = self.names.len();
        while i < end
            invariant
                end == self.names@.len(),
                i <= end,
                name_kind(self.names@, n@) == name_kind_from(self.names@, n@, i as int),
            decreases end - i,
        {
            if str_eq(self.names[i].name.as_str(), n) {
                return Some(self.names[i].kind);
            }
            i += 1;
        }
        None
    }

    /// Whether a type with canonical name `n` is registered.
    fn contains_canon(&self, n: &str) -> (r: bool)
        ensures
            r == known_contains(self.known@, n@),
    {
        let mut i: usize = 0;
        let end = self.known.len();
        while i < end
            invariant
                end == self.known@.len(),
                i <= end,
                forall|j: int| 0 <= j < i ==> canon(#[trigger] self.known@[j]) != n@,
            decreases end - i,
        {
            let cn = self.known[i].canonical_name();
            if str_eq(cn.as_str(), n) {
                return true;
            }
            i += 1;
        }
        false
    }

    /// Registers one canonical entry, unless its name is already present.
    fn insert_known(&mut self, t: CanonicalType)
        ensures
            final(self).known@ == add_one(old(self).known@, t),
            final(self).names@ == old(self).names@,
    {
        let cn = t.canonical_name();
        if !self.contains_canon(cn.as_str()) {
            self.known.push(t);
        }
    }

    /// Registers a user-defined definition name, and the named type itself.
    /// A name may be registered only once.
    pub fn add_name(&mut self, name: String, kind: NameKind) -> (r: Result<(), ConversionError>)
        ensures
            final(self).names@ == if r is Ok {
                old(self).names@.push(NameEntry { name, kind })
            } else {
                old(self).names@
            },
            r is Ok <==> name_kind(old(self).names@, name@) is None,
            r is Err ==> r->Err_0.kind == ErrorKind::StructuralViolation && final(self).known@
                == old(self).known@,
            r is Ok ==> final(self).known@ == add_one(
                old(self).known@,
                named_type(name, kind),
            ),
    {
        if self.kind_of_name(name.as_str()).is_some() {
            return Err(
                ConversionError::new(
                    ErrorKind::StructuralViolation,
                    "a definition with this name is already registered",
                ),
            );
        }
        let t = match kind {
            NameKind::EnumName => CanonicalType::Enum(name.clone()),
            NameKind::ObjectName => CanonicalType::Object(name.clone()),
            NameKind::RecordName => CanonicalType::Record(name.clone()),
        };
        self.insert_known(t);
        self.names.push(NameEntry { name, kind });
        Ok(())
    }

    /// Resolves a source type expression to its canonical type, registering
    /// the type and its constituents if unseen.
    ///
    /// Resolution is structural and deterministic: the result depends only
    /// on the expression and the registered names, so resolving the same
    /// expression twice returns the same canonical type.
    pub fn resolve_type_expression(&mut self, e: &TypeExpr) -> (r: Result<CanonicalType, ConversionError>)
        ensures
            final(self).names@ == old(self).names@,
            r is Ok <==> resolvable(*e, old(self).names@),
            r is Ok ==> resolves_to(*e, old(self).names@, r->Ok_0) && final(self).known@
                == add_type(old(self).known@, r->Ok_0),
            r is Err ==> final(self).known@ == old(self).known@ && r->Err_0.kind
                == resolve_err_kind(*e, old(self).names@),
        decreases *e,
    {
        match e {
            TypeExpr::Ident(s) => match scalar_for(s.as_str()) {
                Some(t) => {
                    self.insert_known(t.duplicate());
                    Ok(t)
                },
                None => match self.kind_of_name(s.as_str()) {
                    Some(NameKind::EnumName) => {
                        let t = CanonicalType::Enum(s.clone());
                        self.insert_known(t.duplicate());
                        Ok(t)
                    },
                    Some(NameKind::ObjectName) => {
                        let t = CanonicalType::Object(s.clone());
                        self.insert_known(t.duplicate());
                        Ok(t)
                    },
                    Some(NameKind::RecordName) => {
                        let t = CanonicalType::Record(s.clone());
                        self.insert_known(t.duplicate());
                        Ok(t)
                    },
                    None => Err(
                        ConversionError::new(ErrorKind::UnknownTypeName, "unknown type name"),
                    ),
                },
            },
            TypeExpr::Nullable(inner) => match self.resolve_type_expression(inner) {
                Ok(it) => {
                    let t = CanonicalType::Optional(Box::new(it));
                    self.insert_known(t.duplicate());
                    Ok(t)
                },
                Err(err) => Err(err),
            },
            TypeExpr::Sequence(inner) => match self.resolve_type_expression(inner) {
                Ok(it) => {
                    let t = CanonicalType::Sequence(Box::new(it));
                    self.insert_known(t.duplicate());
                    Ok(t)
                },
                Err(err) => Err(err),
            },
            TypeExpr::Apply(n, args) => {
                if str_eq(n.as_str(), "Option") && args.len() == 1 {
                    match self.resolve_type_expression(&args[0]) {
                        Ok(it) => {
                            let t = CanonicalType::Optional(Box::new(it));
                            self.insert_known(t.duplicate());
                            Ok(t)
                        },
                        Err(err) => Err(err),
                    }
                } else if str_eq(n.as_str(), "Vec") && args.len() == 1 {
                    match self.resolve_type_expression(&args[0]) {
                        Ok(it) => {
                            let t = CanonicalType::Sequence(Box::new(it));
                            self.insert_known(t.duplicate());
                            Ok(t)
                        },
                        Err(err) => Err(err),
                    }
                } else {
                    Err(
                        ConversionError::new(
                            ErrorKind::UnsupportedSyntax,
                            "unsupported type expression",
                        ),
                    )
                }
            },
            TypeExpr::Tuple(_) => Err(
                ConversionError::new(ErrorKind::UnsupportedSyntax, "unsupported type expression"),
            ),
            TypeExpr::Unsupported => Err(
                ConversionError::new(ErrorKind::UnsupportedSyntax, "unsupported type expression"),
            ),
        }
    }

    /// The registered canonical types, in registration order.
    pub fn iter_types(&self) -> (r: Vec<&CanonicalType>)
        ensures
            r@.len() == self.known@.len(),
            forall|i: int| 0 <= i < r@.len() ==> *(#[trigger] r@[i]) == self.known@[i],
    {
        let mut out: Vec<&CanonicalType> = Vec::new();
        let mut i: usize = 0;
        let end = self.known.len();
        while i < end
            invariant
                end == self.known@.len(),
                i <= end,
                out@.len() == i,
                forall|j: int| 0 <= j < i ==> *(#[trigger] out@[j]) == self.known@[j],
            decreases end - i,
        {
            out.push(&self.known[i]);
            i += 1;
        }
        out
    }
}

/// The canonical type that registering `name` under `kind` creates.
pub open spec fn named_type(name: String, kind: NameKind) -> CanonicalType {
    match kind {
        NameKind::EnumName => CanonicalType::Enum(name),
        NameKind::ObjectName => CanonicalType::Object(name),
        NameKind::RecordName => CanonicalType::Record(name),
    }
}

/// Resolution is deterministic: a type expression resolves to at most one
/// canonical type under a fixed name registry.
pub proof fn lemma_resolution_deterministic(
    e: TypeExpr,
    names: Seq<NameEntry>,
    t1: CanonicalType,
    t2: CanonicalType,
)
    requires
        resolves_to(e, names, t1),
        resolves_to(e, names, t2),
    ensures
        t1 == t2,
    decreases e,
{
    match e {
        TypeExpr::Nullable(inner) => {
            match (t1, t2) {
                (CanonicalType::Optional(b1), CanonicalType::Optional(b2)) => {
                    lemma_resolution_deterministic(*inner, names, *b1, *b2);
                },
                _ => {},
            }
        },
        TypeExpr::Sequence(inner) => {
            match (t1, t2) {
                (CanonicalType::Sequence(b1), CanonicalType::Sequence(b2)) => {
                    lemma_resolution_deterministic(*inner, names, *b1, *b2);
                },
                _ => {},
            }
        },
        TypeExpr::Apply(n, args) => {
            if (n@ == "Option"@ || n@ == "Vec"@) && args@.len() == 1 {
                match (t1, t2) {
                    (CanonicalType::Optional(b1), CanonicalType::Optional(b2)) => {
                        lemma_resolution_deterministic(args@[0], names, *b1, *b2);
                    },
                    (CanonicalType::Sequence(b1), CanonicalType::Sequence(b2)) => {
                        lemma_resolution_deterministic(args@[0], names, *b1, *b2);
                    },
                    _ => {},
                }
            }
        },
        _ => {},
    }
}

proof fn lemma_contains_after_add_type(ks: Seq<CanonicalType>, u: CanonicalType, n: Seq<char>)
    requires
        known_contains(ks, n),
    ensures
        known_contains(add_type(ks, u), n),
    decreases u,
{
    match u {
        CanonicalType::Optional(inner) => {
            lemma_contains_after_add_type(ks, *inner, n);
            let ks1 = add_type(ks, *inner);
            if !known_contains(ks1, canon(u)) {
                let i = choose|i: int| 0 <= i < ks1.len() && canon(ks1[i]) == n;
                assert(canon(ks1.push(u)[i]) == n);
            }
        },
        CanonicalType::Sequence(inner) => {
            lemma_contains_after_add_type(ks, *inner, n);
            let ks1 = add_type(ks, *inner);
            if !known_contains(ks1, canon(u)) {
                let i = choose|i: int| 0 <= i < ks1.len() && canon(ks1[i]) == n;
                assert(canon(ks1.push(u)[i]) == n);
            }
        },
        _ => {
            if !known_contains(ks, canon(u)) {
                let i = choose|i: int| 0 <= i < ks.len() && canon(ks[i]) == n;
                assert(canon(ks.push(u)[i]) == n);
            }
        },
    }
}

proof fn lemma_add_type_registers(ks: Seq<CanonicalType>, t: CanonicalType)
    ensures
        all_registered(add_type(ks, t), t),
    decreases t,
{
    match t {
        CanonicalType::Optional(inner) => {
            lemma_add_type_registers(ks, *inner);
            let ks1 = add_type(ks, *inner);
            if !known_contains(ks1, canon(t)) {
                assert(canon(ks1.push(t)[ks1.len() as int]) == canon(t));
            }
            lemma_all_registered_after_one(ks1, t, *inner);
        },
        CanonicalType::Sequence(inner) => {
            lemma_add_type_registers(ks, *inner);
            let ks1 = add_type(ks, *inner);
            if !known_contains(ks1, canon(t)) {
                assert(canon(ks1.push(t)[ks1.len() as int]) == canon(t));
            }
            lemma_all_registered_after_one(ks1, t, *inner);
        },
        _ => {
            if !known_contains(ks, canon(t)) {
                assert(canon(ks.push(t)[ks.len() as int]) == canon(t));
            }
        },
    }
}

proof fn lemma_all_registered_after_one(ks: Seq<CanonicalType>, u: CanonicalType, t: CanonicalType)
    requires
        all_registered(ks, t),
    ensures
        all_registered(add_one(ks, u), t),
    decreases t,
{
    if !known_contains(ks, canon(u)) {
        let i = choose|i: int| 0 <= i < ks.len() && canon(ks[i]) == canon(t);
        assert(canon(ks.push(u)[i]) == canon(t));
    }
    match t {
        CanonicalType::Optional(inner) => {
            lemma_all_registered_after_one(ks, u, *inner);
        },
        CanonicalType::Sequence(inner) => {
            lemma_all_registered_after_one(ks, u, *inner);
        },
        _ => {},
    }
}

proof fn lemma_add_type_noop(ks: Seq<CanonicalType>, t: CanonicalType)
    requires
        all_registered(ks, t),
    ensures
        add_type(ks, t) == ks,
    decreases t,
{
    match t {
        CanonicalType::Optional(inner) => {
            lemma_add_type_noop(ks, *inner);
        },
        CanonicalType::Sequence(inner) => {
            lemma_add_type_noop(ks, *inner);
        },
        _ => {},
    }
}

/// Canonicalization is idempotent: registering a type a second time leaves
/// the universe exactly as the first registration left it.
pub proof fn lemma_canonicalization_idempotent(ks: Seq<CanonicalType>, t: CanonicalType)
    ensures
        add_type(add_type(ks, t), t) == add_type(ks, t),
{
    lemma_add_type_registers(ks, t);
    lemma_add_type_noop(add_type(ks, t), t);
}

} // verus!
