use vstd::prelude::*;

use crate::ast::{
    ArgNode, AttrNode, InterfaceMemberNode, InterfaceNode, NativeMethodNode, NativeStructNode,
    OperationNode, TypeExpr,
};
use crate::attributes::{
    docs_match, docs_ok, has_word, iface_attrs_ok, parse_interface_attrs, parse_native_docs,
    parse_throws_attrs, spec_throws, throws_attrs_ok,
};
use crate::error::{ConversionError, ErrorKind};
use crate::ffi::{ffi_empty, lower, FfiArgument, FfiFunction, FfiType};
use crate::ffi::lower_type;
use crate::function::{
    args_err_from, args_match, convert_args, convert_native_args, lowered_args,
    native_args_err_from, native_args_match, symbol3, throws_agrees, Argument,
};
use crate::text::{push_part, str_eq};
use crate::types::{resolvable, resolve_err_kind, resolves_to, NameEntry, CanonicalType, TypeUniverse};

verus! {

/// A constructor of an object type. At the boundary it is a function that
/// returns a fresh handle for an instance of the object.
#[derive(Debug)]
pub struct Constructor {
    pub name: String,
    pub arguments: Vec<Argument>,
    pub ffi_func: FfiFunction,
    pub throws: Option<String>,
    pub docs: Vec<String>,
}

/// A static or instance method of an object type. At the boundary an
/// instance method is a function whose first argument is the handle of
/// the receiving instance; a static method takes no handle.
#[derive(Debug)]
pub struct Method {
    pub name: String,
    pub object_name: String,
    pub return_type: Option<CanonicalType>,
    pub arguments: Vec<Argument>,
    pub static_: bool,
    pub ffi_func: FfiFunction,
    pub throws: Option<String>,
    pub docs: Vec<String>,
}

/// An opaque type that is instantiated and passed around by reference.
/// At the boundary an object is an integer handle plus a set of flat
/// functions sharing a common prefix; after build it always has at least
/// one constructor and exactly one synthesized free function.
#[derive(Debug)]
pub struct Object {
    pub name: String,
    pub constructors: Vec<Constructor>,
    pub methods: Vec<Method>,
    pub ffi_func_free: FfiFunction,
    pub threadsafe: bool,
    pub docs: Vec<String>,
}

/// The synthesized default constructor: the fixed name token and no
/// arguments.
pub open spec fn default_constructor(c: Constructor) -> bool {
    &&& c.name@ == "new"@
    &&& c.arguments@.len() == 0
    &&& c.throws is None
    &&& c.docs@.len() == 0
    &&& ffi_empty(c.ffi_func)
}

impl Default for Constructor {
    /// The synthesized default constructor.
    fn default() -> (r: Self)
        ensures
            default_constructor(r),
    {
        Constructor {
            name: String::from_str("new"),
            arguments: Vec::new(),
            ffi_func: Default::default(),
            throws: None,
            docs: Vec::new(),
        }
    }
}

impl Constructor {
    pub fn name(&self) -> (r: &str)
        ensures
            r@ == self.name@,
    {
        self.name.as_str()
    }

    pub fn arguments(&self) -> (r: Vec<&Argument>)
        ensures
            r@.len() == self.arguments@.len(),
            forall|i: int| 0 <= i < r@.len() ==> *(#[trigger] r@[i]) == self.arguments@[i],
    {
        let mut out: Vec<&Argument> = Vec::new();
        let mut i: usize = 0;
        let end = self.arguments.len();
        while i < end
            invariant
                end == self.arguments@.len(),
                i <= end,
                out@.len() == i,
                forall|j: int| 0 <= j < i ==> *(#[trigger] out@[j]) == self.arguments@[j],
            decreases end - i,
        {
            out.push(&self.arguments[i]);
            i += 1;
        }
        out
    }

    pub fn docs(&self) -> (r: Vec<&str>)
        ensures
            r@.len() == self.docs@.len(),
            forall|i: int| 0 <= i < r@.len() ==> (#[trigger] r@[i])@ == self.docs@[i]@,
    {
        let mut out: Vec<&str> = Vec::new();
        let mut i: usize = 0;
        let end = self.docs.len();
        while i < end
            invariant
                end == self.docs@.len(),
                i <= end,
                out@.len() == i,
                forall|j: int| 0 <= j < i ==> (#[trigger] out@[j])@ == self.docs@[j]@,
            decreases end - i,
        {
            out.push(self.docs[i].as_str());
            i += 1;
        }
        out
    }

    pub fn ffi_func(&self) -> (r: &FfiFunction)
        ensures
            *r == self.ffi_func,
    {
        &self.ffi_func
    }

    pub fn throws(&self) -> (r: Option<&str>)
        ensures
            match (r, self.throws) {
                (Some(a), Some(b)) => a@ == b@,
                (None, None) => true,
                _ => false,
            },
    {
        match &self.throws {
            Some(s) => Some(s.as_str()),
            None => None,
        }
    }
}

/// Whether a constructor declaration converts.
pub open spec fn ctor_ok(attrs: Seq<AttrNode>, args: Seq<ArgNode>, names: Seq<NameEntry>) -> bool {
    args_err_from(args, names, 0) is None && throws_attrs_ok(attrs)
}

/// The error category a failing constructor declaration reports.
pub open spec fn ctor_err_kind(
    attrs: Seq<AttrNode>,
    args: Seq<ArgNode>,
    names: Seq<NameEntry>,
) -> ErrorKind {
    if args_err_from(args, names, 0) is Some {
        args_err_from(args, names, 0)->Some_0
    } else {
        ErrorKind::AttributeViolation
    }
}

/// Whether `c` is the constructor the declaration converts into: it
/// carries the fixed default name token.
pub open spec fn ctor_matches(
    c: Constructor,
    attrs: Seq<AttrNode>,
    args: Seq<ArgNode>,
    names: Seq<NameEntry>,
) -> bool {
    &&& c.name@ == "new"@
    &&& args_match(c.arguments@, args, names)
    &&& throws_agrees(c.throws, spec_throws(attrs))
    &&& c.docs@.len() == 0
    &&& ffi_empty(c.ffi_func)
}

impl Constructor {
    /// Converts a constructor member of an interface declaration.
    pub fn from_idl(attrs: &Vec<AttrNode>, args: &Vec<ArgNode>, types: &mut TypeUniverse) -> (r:
        Result<Constructor, ConversionError>)
        ensures
            final(types).names@ == old(types).names@,
            r is Ok <==> ctor_ok(attrs@, args@, old(types).names@),
            r is Ok ==> ctor_matches(r->Ok_0, attrs@, args@, old(types).names@),
            r is Err ==> r->Err_0.kind == ctor_err_kind(attrs@, args@, old(types).names@),
    {
        let arguments = match convert_args(args, types) {
            Ok(a) => a,
            Err(e) => {
                return Err(e);
            },
        };
        let throws = match parse_throws_attrs(attrs) {
            Ok(t) => t,
            Err(e) => {
                return Err(e);
            },
        };
        Ok(
            Constructor {
                name: String::from_str("new"),
                arguments,
                ffi_func: Default::default(),
                throws,
                docs: Vec::new(),
            },
        )
    }
}

/// Whether a native constructor declaration converts: it must be a
/// non-variadic associated function that declares a return type.
pub open spec fn ctor_native_ok(m: NativeMethodNode, names: Seq<NameEntry>) -> bool {
    &&& docs_ok(m.attributes@)
    &&& !m.variadic
    &&& !m.has_receiver
    &&& m.ret is Some
    &&& native_result_shape_ok(m.ret)
    &&& native_args_err_from(m.args@, names, 0) is None
}

/// The error category a failing native constructor reports.
pub open spec fn ctor_native_err_kind(m: NativeMethodNode, names: Seq<NameEntry>) -> ErrorKind {
    if !docs_ok(m.attributes@) {
        ErrorKind::AttributeViolation
    } else if m.variadic {
        ErrorKind::UnsupportedSyntax
    } else if m.has_receiver {
        ErrorKind::StructuralViolation
    } else if m.ret is None {
        ErrorKind::StructuralViolation
    } else if !native_result_shape_ok(m.ret) {
        ErrorKind::UnsupportedSyntax
    } else {
        native_args_err_from(m.args@, names, 0)->Some_0
    }
}

/// Whether the native return form is the fallible one: a two-argument
/// `Result` application whose error side is a plain name.
pub open spec fn native_ret_fallible(ret: Option<TypeExpr>) -> bool {
    ret matches Some(TypeExpr::Apply(n, args)) && n@ == "Result"@ && args@.len() == 2
        && (args@[1] matches TypeExpr::Ident(_))
}

/// The error name a fallible native return form declares, if any.
pub open spec fn native_throws_of(ret: Option<TypeExpr>) -> Option<String> {
    if ret matches Some(TypeExpr::Apply(n, args)) && n@ == "Result"@ && args@.len() == 2
        && (args@[1] matches TypeExpr::Ident(e)) {
        Some(ret->Some_0->Apply_1@[1]->Ident_0)
    } else {
        None
    }
}

/// Whether a `Result` application in return position is well-shaped:
/// exactly one success side and a plainly named error side.
pub open spec fn native_result_shape_ok(ret: Option<TypeExpr>) -> bool {
    match ret {
        Some(TypeExpr::Apply(n, args)) => n@ == "Result"@ ==> (args@.len() == 2 && (args@[1]
            matches TypeExpr::Ident(_))),
        _ => true,
    }
}

/// Whether `c` is the constructor the native declaration converts into.
pub open spec fn ctor_native_matches(
    c: Constructor,
    m: NativeMethodNode,
    names: Seq<NameEntry>,
) -> bool {
    &&& c.name@ == m.name@
    &&& native_args_match(c.arguments@, m.args@, names)
    &&& match (c.throws, native_throws_of(m.ret)) {
        (Some(a), Some(b)) => a@ == b@,
        (None, None) => true,
        _ => false,
    }
    &&& docs_match(c.docs@, m.attributes@)
    &&& ffi_empty(c.ffi_func)
}

impl Constructor {
    /// Converts a native associated function into a constructor. The
    /// declared return type is only destructured for its error component;
    /// the object type itself is not yet known at this point.
    pub fn from_native(m: &NativeMethodNode, types: &mut TypeUniverse) -> (r: Result<
        Constructor,
        ConversionError,
    >)
        ensures
            final(types).names@ == old(types).names@,
            r is Ok <==> ctor_native_ok(*m, old(types).names@),
            r is Ok ==> ctor_native_matches(r->Ok_0, *m, old(types).names@),
            r is Err ==> r->Err_0.kind == ctor_native_err_kind(*m, old(types).names@),
    {
        let docs = match parse_native_docs(&m.attributes) {
            Ok(d) => d,
            Err(e) => {
                return Err(e);
            },
        };
        if m.variadic {
            return Err(
                ConversionError::new(
                    ErrorKind::UnsupportedSyntax,
                    "variadic constructors are not supported",
                ),
            );
        }
        if m.has_receiver {
            return Err(
                ConversionError::new(
                    ErrorKind::StructuralViolation,
                    "a constructor takes no receiver",
                ),
            );
        }
        let throws = match &m.ret {
            None => {
                return Err(
                    ConversionError::new(
                        ErrorKind::StructuralViolation,
                        "a constructor must return an object instance",
                    ),
                );
            },
            Some(TypeExpr::Apply(n, args)) => {
                if str_eq(n.as_str(), "Result") {
                    if args.len() != 2 {
                        return Err(
                            ConversionError::new(
                                ErrorKind::UnsupportedSyntax,
                                "a fallible return takes a value and an error type",
                            ),
                        );
                    }
                    match &args[1] {
                        TypeExpr::Ident(e) => Some(e.clone()),
                        _ => {
                            return Err(
                                ConversionError::new(
                                    ErrorKind::UnsupportedSyntax,
                                    "the error side of a fallible return must be a plain name",
                                ),
                            );
                        },
                    }
                } else {
                    None
                }
            },
            Some(_) => None,
        };
        let arguments = match convert_native_args(&m.args, types) {
            Ok(a) => a,
            Err(e) => {
                return Err(e);
            },
        };
        Ok(
            Constructor {
                name: m.name.clone(),
                arguments,
                ffi_func: Default::default(),
                throws,
                docs,
            },
        )
    }
}

impl Method {
    pub fn name(&self) -> (r: &str)
        ensures
            r@ == self.name@,
    {
        self.name.as_str()
    }

    pub fn arguments(&self) -> (r: Vec<&Argument>)
        ensures
            r@.len() == self.arguments@.len(),
            forall|i: int| 0 <= i < r@.len() ==> *(#[trigger] r@[i]) == self.arguments@[i],
    {
        let mut out: Vec<&Argument> = Vec::new();
        let mut i: usize = 0;
        let end = self.arguments.len();
        while i < end
            invariant
                end == self.arguments@.len(),
                i <= end,
                out@.len() == i,
                forall|j: int| 0 <= j < i ==> *(#[trigger] out@[j]) == self.arguments@[j],
            decreases end - i,
        {
            out.push(&self.arguments[i]);
            i += 1;
        }
        out
    }

    pub fn docs(&self) -> (r: Vec<&str>)
        ensures
            r@.len() == self.docs@.len(),
            forall|i: int| 0 <= i < r@.len() ==> (#[trigger] r@[i])@ == self.docs@[i]@,
    {
        let mut out: Vec<&str> = Vec::new();
        let mut i: usize = 0;
        let end = self.docs.len();
        while i < end
            invariant
                end == self.docs@.len(),
                i <= end,
                out@.len() == i,
                forall|j: int| 0 <= j < i ==> (#[trigger] out@[j])@ == self.docs@[j]@,
            decreases end - i,
        {
            out.push(self.docs[i].as_str());
            i += 1;
        }
        out
    }

    pub fn return_type(&self) -> (r: Option<&CanonicalType>)
        ensures
            match (r, self.return_type) {
                (Some(a), Some(b)) => *a == b,
                (None, None) => true,
                _ => false,
            },
    {
        match &self.return_type {
            Some(t) => Some(t),
            None => None,
        }
    }

    pub fn is_static(&self) -> (r: bool)
        ensures
            r == self.static_,
    {
        self.static_
    }

    pub fn ffi_func(&self) -> (r: &FfiFunction)
        ensures
            *r == self.ffi_func,
    {
        &self.ffi_func
    }

    pub fn throws(&self) -> (r: Option<&str>)
        ensures
            match (r, self.throws) {
                (Some(a), Some(b)) => a@ == b@,
                (None, None) => true,
                _ => false,
            },
    {
        match &self.throws {
            Some(s) => Some(s.as_str()),
            None => None,
        }
    }

    /// The implicit leading argument of an instance method: the owning
    /// object's handle. Static methods have none. It is used only during
    /// derivation of the flat signature, never as part of the logical
    /// argument list.
    pub fn first_argument(&self) -> (r: Option<Argument>)
        ensures
            r is Some <==> !self.static_,
            r is Some ==> r->Some_0.name@ == "handle"@ && r->Some_0.type_ == CanonicalType::Object(
                self.object_name,
            ) && r->Some_0.by_ref == false && r->Some_0.optional == false && r->Some_0.default
                is None,
    {
        if self.static_ {
            None
        } else {
            Some(
                Argument {
                    name: String::from_str("handle"),
                    type_: CanonicalType::Object(self.object_name.clone()),
                    by_ref: false,
                    optional: false,
                    default: None,
                },
            )
        }
    }
}

/// Whether an interface operation converts into a method.
pub open spec fn method_op_ok(op: OperationNode, names: Seq<NameEntry>) -> bool {
    &&& !op.special
    &&& !op.stringifier
    &&& match op.ret {
        None => true,
        Some(e) => resolvable(e, names),
    }
    &&& op.name is Some
    &&& op.name->Some_0@ != "new"@
    &&& args_err_from(op.args@, names, 0) is None
    &&& throws_attrs_ok(op.attributes@)
}

/// The error category a failing method declaration reports.
pub open spec fn method_op_err_kind(op: OperationNode, names: Seq<NameEntry>) -> ErrorKind {
    if op.special {
        ErrorKind::UnsupportedSyntax
    } else if op.stringifier {
        ErrorKind::UnsupportedSyntax
    } else if (op.ret matches Some(e) && !resolvable(e, names)) {
        resolve_err_kind(op.ret->Some_0, names)
    } else if op.name is None {
        ErrorKind::StructuralViolation
    } else if op.name->Some_0@ == "new"@ {
        ErrorKind::StructuralViolation
    } else if args_err_from(op.args@, names, 0) is Some {
        args_err_from(op.args@, names, 0)->Some_0
    } else {
        ErrorKind::AttributeViolation
    }
}

/// Whether `m` is the method that operation `op` converts into. The
/// owning object's name is not yet known, so the back-reference is still
/// empty.
pub open spec fn method_op_matches(m: Method, op: OperationNode, names: Seq<NameEntry>) -> bool {
    &&& m.name@ == op.name->Some_0@
    &&& m.object_name@.len() == 0
    &&& args_match(m.arguments@, op.args@, names)
    &&& match (m.return_type, op.ret) {
        (None, None) => true,
        (Some(t), Some(e)) => resolves_to(e, names, t),
        _ => false,
    }
    &&& m.static_ == op.static_
    &&& throws_agrees(m.throws, spec_throws(op.attributes@))
    &&& m.docs@.len() == 0
    &&& ffi_empty(m.ffi_func)
}

impl Method {
    /// Converts an interface operation into a method. The fixed default
    /// constructor token is reserved and cannot name a method.
    pub fn from_idl(op: &OperationNode, types: &mut TypeUniverse) -> (r: Result<
        Method,
        ConversionError,
    >)
        ensures
            final(types).names@ == old(types).names@,
            r is Ok <==> method_op_ok(*op, old(types).names@),
            r is Ok ==> method_op_matches(r->Ok_0, *op, old(types).names@),
            r is Err ==> r->Err_0.kind == method_op_err_kind(*op, old(types).names@),
    {
        if op.special {
            return Err(
                ConversionError::new(
                    ErrorKind::UnsupportedSyntax,
                    "special operations are not supported",
                ),
            );
        }
        if op.stringifier {
            return Err(
                ConversionError::new(ErrorKind::UnsupportedSyntax, "stringifiers are not supported"),
            );
        }
        let return_type = match &op.ret {
            None => None,
            Some(e) => match types.resolve_type_expression(e) {
                Ok(t) => Some(t),
                Err(err) => {
                    return Err(err);
                },
            },
        };
        let name = match &op.name {
            None => {
                return Err(
                    ConversionError::new(
                        ErrorKind::StructuralViolation,
                        "anonymous methods are not supported",
                    ),
                );
            },
            Some(n) => {
                if str_eq(n.as_str(), "new") {
                    return Err(
                        ConversionError::new(
                            ErrorKind::StructuralViolation,
                            "the method name is reserved for the default constructor",
                        ),
                    );
                }
                n.clone()
            },
        };
        let arguments = match convert_args(&op.args, types) {
            Ok(a) => a,
            Err(err) => {
                return Err(err);
            },
        };
        let throws = match parse_throws_attrs(&op.attributes) {
            Ok(t) => t,
            Err(err) => {
                return Err(err);
            },
        };
        Ok(
            Method {
                name,
                object_name: String::new(),
                return_type,
                arguments,
                static_: op.static_,
                ffi_func: Default::default(),
                throws,
                docs: Vec::new(),
            },
        )
    }
}

/// Whether one side of a return form denotes "no value": the empty tuple.
pub open spec fn is_empty_tuple(e: TypeExpr) -> bool {
    e matches TypeExpr::Tuple(es) && es@.len() == 0
}

/// Whether a native return form converts: nothing, the empty tuple, a
/// well-shaped fallible form, or a resolvable type.
pub open spec fn native_ret_ok(ret: Option<TypeExpr>, names: Seq<NameEntry>) -> bool {
    match ret {
        None => true,
        Some(e) => match e {
            TypeExpr::Tuple(es) => es@.len() == 0,
            TypeExpr::Apply(n, args) => if n@ == "Result"@ {
                args@.len() == 2 && (args@[1] matches TypeExpr::Ident(_)) && (is_empty_tuple(
                    args@[0],
                ) || resolvable(args@[0], names))
            } else {
                resolvable(e, names)
            },
            _ => resolvable(e, names),
        },
    }
}

/// The error category a failing native return form reports.
pub open spec fn native_ret_err_kind(ret: Option<TypeExpr>, names: Seq<NameEntry>) -> ErrorKind {
    match ret {
        Some(e) => match e {
            TypeExpr::Tuple(_) => ErrorKind::UnsupportedSyntax,
            TypeExpr::Apply(n, args) => if n@ == "Result"@ {
                if args@.len() == 2 && (args@[1] matches TypeExpr::Ident(_)) && !is_empty_tuple(
                    args@[0],
                ) {
                    resolve_err_kind(args@[0], names)
                } else {
                    ErrorKind::UnsupportedSyntax
                }
            } else {
                resolve_err_kind(e, names)
            },
            _ => resolve_err_kind(e, names),
        },
        None => ErrorKind::UnsupportedSyntax,
    }
}

/// Whether the stored return type is the conversion of the native return
/// form: the empty tuple means no return value, and a fallible form is
/// destructured into its success side first.
pub open spec fn native_ret_matches(
    stored: Option<CanonicalType>,
    ret: Option<TypeExpr>,
    names: Seq<NameEntry>,
) -> bool {
    match ret {
        None => stored is None,
        Some(e) => match e {
            TypeExpr::Tuple(_) => stored is None,
            TypeExpr::Apply(n, args) => if n@ == "Result"@ {
                if is_empty_tuple(args@[0]) {
                    stored is None
                } else {
                    stored matches Some(t) && resolves_to(args@[0], names, t)
                }
            } else {
                stored matches Some(t) && resolves_to(e, names, t)
            },
            _ => stored matches Some(t) && resolves_to(e, names, t),
        },
    }
}

/// Whether a native method declaration converts.
pub open spec fn method_native_ok(m: NativeMethodNode, names: Seq<NameEntry>) -> bool {
    &&& docs_ok(m.attributes@)
    &&& !m.variadic
    &&& native_ret_ok(m.ret, names)
    &&& native_args_err_from(m.args@, names, 0) is None
}

/// The error category a failing native method reports.
pub open spec fn method_native_err_kind(m: NativeMethodNode, names: Seq<NameEntry>) -> ErrorKind {
    if !docs_ok(m.attributes@) {
        ErrorKind::AttributeViolation
    } else if m.variadic {
        ErrorKind::UnsupportedSyntax
    } else if !native_ret_ok(m.ret, names) {
        native_ret_err_kind(m.ret, names)
    } else {
        native_args_err_from(m.args@, names, 0)->Some_0
    }
}

/// Whether `r` is the method the native declaration converts into: an
/// associated function without receiver is static, and the owning
/// object's name is filled in when the implementation block is processed.
pub open spec fn method_native_matches(
    r: Method,
    m: NativeMethodNode,
    names: Seq<NameEntry>,
) -> bool {
    &&& r.name@ == m.name@
    &&& r.object_name@.len() == 0
    &&& native_args_match(r.arguments@, m.args@, names)
    &&& native_ret_matches(r.return_type, m.ret, names)
    &&& r.static_ == !m.has_receiver
    &&& match (r.throws, native_throws_of(m.ret)) {
        (Some(a), Some(b)) => a@ == b@,
        (None, None) => true,
        _ => false,
    }
    &&& docs_match(r.docs@, m.attributes@)
    &&& ffi_empty(r.ffi_func)
}

impl Method {
    /// Converts a native method declaration into a method.
    pub fn from_native(m: &NativeMethodNode, types: &mut TypeUniverse) -> (r: Result<
        Method,
        ConversionError,
    >)
        ensures
            final(types).names@ == old(types).names@,
            r is Ok <==> method_native_ok(*m, old(types).names@),
            r is Ok ==> method_native_matches(r->Ok_0, *m, old(types).names@),
            r is Err ==> r->Err_0.kind == method_native_err_kind(*m, old(types).names@),
    {
        let docs = match parse_native_docs(&m.attributes) {
            Ok(d) => d,
            Err(e) => {
                return Err(e);
            },
        };
        if m.variadic {
            return Err(
                ConversionError::new(
                    ErrorKind::UnsupportedSyntax,
                    "variadic methods are not supported",
                ),
            );
        }
        let mut throws: Option<String> = None;
        let return_type = match &m.ret {
            None => None,
            Some(e) => match e {
                TypeExpr::Tuple(es) => {
                    if es.len() != 0 {
                        return Err(
                            ConversionError::new(
                                ErrorKind::UnsupportedSyntax,
                                "a tuple return is not supported",
                            ),
                        );
                    }
                    None
                },
                TypeExpr::Apply(n, args) => {
                    if str_eq(n.as_str(), "Result") {
                        if args.len() != 2 {
                            return Err(
                                ConversionError::new(
                                    ErrorKind::UnsupportedSyntax,
                                    "a fallible return takes a value and an error type",
                                ),
                            );
                        }
                        match &args[1] {
                            TypeExpr::Ident(en) => {
                                throws = Some(en.clone());
                            },
                            _ => {
                                return Err(
                                    ConversionError::new(
                                        ErrorKind::UnsupportedSyntax,
                                        "the error side of a fallible return must be a plain name",
                                    ),
                                );
                            },
                        }
                        let empty = match &args[0] {
                            TypeExpr::Tuple(es) => es.len() == 0,
                            _ => false,
                        };
                        if empty {
                            None
                        } else {
                            match types.resolve_type_expression(&args[0]) {
                                Ok(t) => Some(t),
                                Err(err) => {
                                    return Err(err);
                                },
                            }
                        }
                    } else {
                        match types.resolve_type_expression(e) {
                            Ok(t) => Some(t),
                            Err(err) => {
                                return Err(err);
                            },
                        }
                    }
                },
                _ => match types.resolve_type_expression(e) {
                    Ok(t) => Some(t),
                    Err(err) => {
                        return Err(err);
                    },
                },
            },
        };
        let arguments = match convert_native_args(&m.args, types) {
            Ok(a) => a,
            Err(err) => {
                return Err(err);
            },
        };
        Ok(
            Method {
                name: m.name.clone(),
                object_name: String::new(),
                return_type,
                arguments,
                static_: !m.has_receiver,
                ffi_func: Default::default(),
                throws,
                docs,
            },
        )
    }
}


/// Whether one interface member converts, and with which error.
pub open spec fn obj_member_err(m: InterfaceMemberNode, names: Seq<NameEntry>) -> Option<
    ErrorKind,
> {
    match m {
        InterfaceMemberNode::Constructor { attributes, args } => if ctor_ok(
            attributes@,
            args@,
            names,
        ) {
            None
        } else {
            Some(ctor_err_kind(attributes@, args@, names))
        },
        InterfaceMemberNode::Operation(op) => if method_op_ok(op, names) {
            None
        } else {
            Some(method_op_err_kind(op, names))
        },
        InterfaceMemberNode::Unsupported => Some(ErrorKind::UnsupportedSyntax),
    }
}

/// The first failing member's error category, scanning from `i` on.
pub open spec fn obj_members_err_from(
    ms: Seq<InterfaceMemberNode>,
    names: Seq<NameEntry>,
    i: int,
) -> Option<ErrorKind>
    decreases ms.len() - i,
{
    if i < 0 || i >= ms.len() {
        None
    } else if obj_member_err(ms[i], names) is Some {
        obj_member_err(ms[i], names)
    } else {
        obj_members_err_from(ms, names, i + 1)
    }
}

/// Whether the declared members convert exactly into the given
/// constructor and method lists, each list in declaration order, every
/// method carrying the owning object's name.
pub open spec fn obj_members_match(
    ms: Seq<InterfaceMemberNode>,
    cs: Seq<Constructor>,
    mts: Seq<Method>,
    names: Seq<NameEntry>,
    obj_name: Seq<char>,
) -> bool
    decreases ms.len(),
{
    if ms.len() == 0 {
        cs.len() == 0 && mts.len() == 0
    } else {
        match ms[0] {
            InterfaceMemberNode::Constructor { attributes, args } => cs.len() > 0 && ctor_matches(
                cs[0],
                attributes@,
                args@,
                names,
            ) && obj_members_match(ms.skip(1), cs.skip(1), mts, names, obj_name),
            InterfaceMemberNode::Operation(op) => mts.len() > 0 && method_op_matches_owned(
                mts[0],
                op,
                names,
                obj_name,
            ) && obj_members_match(ms.skip(1), cs, mts.skip(1), names, obj_name),
            InterfaceMemberNode::Unsupported => false,
        }
    }
}

/// As `method_op_matches`, with the owning object's name filled in.
pub open spec fn method_op_matches_owned(
    m: Method,
    op: OperationNode,
    names: Seq<NameEntry>,
    obj_name: Seq<char>,
) -> bool {
    &&& m.name@ == op.name->Some_0@
    &&& m.object_name@ == obj_name
    &&& args_match(m.arguments@, op.args@, names)
    &&& match (m.return_type, op.ret) {
        (None, None) => true,
        (Some(t), Some(e)) => resolves_to(e, names, t),
        _ => false,
    }
    &&& m.static_ == op.static_
    &&& throws_agrees(m.throws, spec_throws(op.attributes@))
    &&& m.docs@.len() == 0
    &&& ffi_empty(m.ffi_func)
}

proof fn lemma_members_push_ctor(
    ms: Seq<InterfaceMemberNode>,
    cs: Seq<Constructor>,
    mts: Seq<Method>,
    names: Seq<NameEntry>,
    obj_name: Seq<char>,
    m: InterfaceMemberNode,
    c: Constructor,
)
    requires
        obj_members_match(ms, cs, mts, names, obj_name),
        m matches InterfaceMemberNode::Constructor { attributes, args } && ctor_matches(
            c,
            attributes@,
            args@,
            names,
        ),
    ensures
        obj_members_match(ms.push(m), cs.push(c), mts, names, obj_name),
    decreases ms.len(),
{
    if ms.len() == 0 {
        assert(ms.push(m).skip(1) =~= ms);
        assert(cs.push(c).skip(1) =~= cs);
        assert(ms.push(m)[0] == m);
        assert(cs.push(c)[0] == c);
    } else {
        assert(ms.push(m).skip(1) =~= ms.skip(1).push(m));
        match ms[0] {
            InterfaceMemberNode::Constructor { attributes, args } => {
                lemma_members_push_ctor(ms.skip(1), cs.skip(1), mts, names, obj_name, m, c);
                assert(cs.push(c).skip(1) =~= cs.skip(1).push(c));
                assert(cs.push(c)[0] == cs[0]);
                assert(ms.push(m)[0] == ms[0]);
            },
            InterfaceMemberNode::Operation(op) => {
                lemma_members_push_ctor(ms.skip(1), cs, mts.skip(1), names, obj_name, m, c);
                assert(ms.push(m)[0] == ms[0]);
            },
            InterfaceMemberNode::Unsupported => {},
        }
    }
}

proof fn lemma_members_push_method(
    ms: Seq<InterfaceMemberNode>,
    cs: Seq<Constructor>,
    mts: Seq<Method>,
    names: Seq<NameEntry>,
    obj_name: Seq<char>,
    m: InterfaceMemberNode,
    mt: Method,
)
    requires
        obj_members_match(ms, cs, mts, names, obj_name),
        m matches InterfaceMemberNode::Operation(op) && method_op_matches_owned(
            mt,
            op,
            names,
            obj_name,
        ),
    ensures
        obj_members_match(ms.push(m), cs, mts.push(mt), names, obj_name),
    decreases ms.len(),
{
    if ms.len() == 0 {
        assert(ms.push(m).skip(1) =~= ms);
        assert(mts.push(mt).skip(1) =~= mts);
        assert(ms.push(m)[0] == m);
        assert(mts.push(mt)[0] == mt);
    } else {
        assert(ms.push(m).skip(1) =~= ms.skip(1).push(m));
        match ms[0] {
            InterfaceMemberNode::Constructor { attributes, args } => {
                lemma_members_push_method(ms.skip(1), cs.skip(1), mts, names, obj_name, m, mt);
                assert(ms.push(m)[0] == ms[0]);
            },
            InterfaceMemberNode::Operation(op) => {
                lemma_members_push_method(ms.skip(1), cs, mts.skip(1), names, obj_name, m, mt);
                assert(mts.push(mt).skip(1) =~= mts.skip(1).push(mt));
                assert(mts.push(mt)[0] == mts[0]);
                assert(ms.push(m)[0] == ms[0]);
            },
            InterfaceMemberNode::Unsupported => {},
        }
    }
}

/// Whether some member is a constructor declaration.
pub open spec fn has_ctor_member(ms: Seq<InterfaceMemberNode>) -> bool {
    exists|i: int|
        0 <= i < ms.len() && ((#[trigger] ms[i]) matches InterfaceMemberNode::Constructor {
            ..
        })
}

/// Whether an interface declaration converts into an object.
pub open spec fn obj_ok(node: InterfaceNode, names: Seq<NameEntry>) -> bool {
    &&& !node.inherits
    &&& iface_attrs_ok(node.attributes@)
    &&& obj_members_err_from(node.members@, names, 0) is None
}

/// The error category a failing interface declaration reports.
pub open spec fn obj_err_kind(node: InterfaceNode, names: Seq<NameEntry>) -> ErrorKind {
    if node.inherits {
        ErrorKind::UnsupportedSyntax
    } else if !iface_attrs_ok(node.attributes@) {
        ErrorKind::AttributeViolation
    } else {
        obj_members_err_from(node.members@, names, 0)->Some_0
    }
}

impl Object {
    /// A bare object shell with the given name; members arrive later.
    pub fn new(name: String) -> (r: Object)
        ensures
            r.name == name,
            r.constructors@.len() == 0,
            r.methods@.len() == 0,
            r.threadsafe == false,
            r.docs@.len() == 0,
            ffi_empty(r.ffi_func_free),
    {
        Object {
            name,
            constructors: Vec::new(),
            methods: Vec::new(),
            ffi_func_free: Default::default(),
            threadsafe: false,
            docs: Vec::new(),
        }
    }

    pub fn name(&self) -> (r: &str)
        ensures
            r@ == self.name@,
    {
        self.name.as_str()
    }

    pub fn docs(&self) -> (r: Vec<&str>)
        ensures
            r@.len() == self.docs@.len(),
            forall|i: int| 0 <= i < r@.len() ==> (#[trigger] r@[i])@ == self.docs@[i]@,
    {
        let mut out: Vec<&str> = Vec::new();
        let mut i: usize = 0;
        let end = self.docs.len();
        while i < end
            invariant
                end == self.docs@.len(),
                i <= end,
                out@.len() == i,
                forall|j: int| 0 <= j < i ==> (#[trigger] out@[j])@ == self.docs@[j]@,
            decreases end - i,
        {
            out.push(self.docs[i].as_str());
            i += 1;
        }
        out
    }

    pub fn constructors(&self) -> (r: Vec<&Constructor>)
        ensures
            r@.len() == self.constructors@.len(),
            forall|i: int| 0 <= i < r@.len() ==> *(#[trigger] r@[i]) == self.constructors@[i],
    {
        let mut out: Vec<&Constructor> = Vec::new();
        let mut i: usize = 0;
        let end = self.constructors.len();
        while i < end
            invariant
                end == self.constructors@.len(),
                i <= end,
                out@.len() == i,
                forall|j: int| 0 <= j < i ==> *(#[trigger] out@[j]) == self.constructors@[j],
            decreases end - i,
        {
            out.push(&self.constructors[i]);
            i += 1;
        }
        out
    }

    pub fn methods(&self) -> (r: Vec<&Method>)
        ensures
            r@.len() == self.methods@.len(),
            forall|i: int| 0 <= i < r@.len() ==> *(#[trigger] r@[i]) == self.methods@[i],
    {
        let mut out: Vec<&Method> = Vec::new();
        let mut i: usize = 0;
        let end = self.methods.len();
        while i < end
            invariant
                end == self.methods@.len(),
                i <= end,
                out@.len() == i,
                forall|j: int| 0 <= j < i ==> *(#[trigger] out@[j]) == self.methods@[j],
            decreases end - i,
        {
            out.push(&self.methods[i]);
            i += 1;
        }
        out
    }

    /// The synthesized free function that releases an instance's handle.
    pub fn ffi_object_free(&self) -> (r: &FfiFunction)
        ensures
            *r == self.ffi_func_free,
    {
        &self.ffi_func_free
    }

    pub fn threadsafe(&self) -> (r: bool)
        ensures
            r == self.threadsafe,
    {
        self.threadsafe
    }

    /// Converts an interface declaration into an object. Constructors and
    /// methods are taken in declaration order; an interface that declares
    /// no constructor receives exactly one synthesized default
    /// constructor.
    pub fn from_idl(node: &InterfaceNode, types: &mut TypeUniverse) -> (r: Result<
        Object,
        ConversionError,
    >)
        ensures
            final(types).names@ == old(types).names@,
            r is Ok <==> obj_ok(*node, old(types).names@),
            r is Err ==> r->Err_0.kind == obj_err_kind(*node, old(types).names@),
            r is Ok ==> r->Ok_0.name@ == node.name@ && r->Ok_0.threadsafe == has_word(
                node.attributes@,
                "Threadsafe"@,
            ) && r->Ok_0.docs@.len() == 0 && ffi_empty(r->Ok_0.ffi_func_free),
            r is Ok && has_ctor_member(node.members@) ==> obj_members_match(
                node.members@,
                r->Ok_0.constructors@,
                r->Ok_0.methods@,
                old(types).names@,
                node.name@,
            ),
            r is Ok && !has_ctor_member(node.members@) ==> obj_members_match(
                node.members@,
                Seq::<Constructor>::empty(),
                r->Ok_0.methods@,
                old(types).names@,
                node.name@,
            ) && r->Ok_0.constructors@.len() == 1 && default_constructor(
                r->Ok_0.constructors@[0],
            ),
            r is Ok ==> r->Ok_0.constructors@.len() >= 1,
    {
        if node.inherits {
            return Err(
                ConversionError::new(
                    ErrorKind::UnsupportedSyntax,
                    "interface inheritance is not supported",
                ),
            );
        }
        let iface = match parse_interface_attrs(&node.attributes) {
            Ok(a) => a,
            Err(e) => {
                return Err(e);
            },
        };
        let mut constructors: Vec<Constructor> = Vec::new();
        let mut methods: Vec<Method> = Vec::new();
        let mut saw_ctor = false;
        let mut i: usize = 0;
        let end = node.members.len();
        while i < end
            invariant
                !node.inherits,
                iface_attrs_ok(node.attributes@),
                end == node.members@.len(),
                i <= end,
                types.names@ == old(types).names@,
                obj_members_match(
                    node.members@.take(i as int),
                    constructors@,
                    methods@,
                    old(types).names@,
                    node.name@,
                ),
                saw_ctor == exists|j: int|
                    0 <= j < i && ((#[trigger] node.members@[j])
                        matches InterfaceMemberNode::Constructor { .. }),
                saw_ctor == (constructors@.len() > 0),
                obj_members_err_from(node.members@, old(types).names@, 0) == obj_members_err_from(
                    node.members@,
                    old(types).names@,
                    i as int,
                ),
            decreases end - i,
        {
            match &node.members[i] {
                InterfaceMemberNode::Constructor { attributes, args } => {
                    match Constructor::from_idl(attributes, args, types) {
                        Ok(c) => {
                            proof {
                                lemma_members_push_ctor(
                                    node.members@.take(i as int),
                                    constructors@,
                                    methods@,
                                    old(types).names@,
                                    node.name@,
                                    node.members@[i as int],
                                    c,
                                );
                                assert(node.members@.take(i as int).push(node.members@[i as int])
                                    =~= node.members@.take(i as int + 1));
                            }
                            constructors.push(c);
                            saw_ctor = true;
                        },
                        Err(e) => {
                            return Err(e);
                        },
                    }
                },
                InterfaceMemberNode::Operation(op) => {
                    match Method::from_idl(op, types) {
                        Ok(m) => {
                            let mut m = m;
                            m.object_name = node.name.clone();
                            proof {
                                lemma_members_push_method(
                                    node.members@.take(i as int),
                                    constructors@,
                                    methods@,
                                    old(types).names@,
                                    node.name@,
                                    node.members@[i as int],
                                    m,
                                );
                                assert(node.members@.take(i as int).push(node.members@[i as int])
                                    =~= node.members@.take(i as int + 1));
                            }
                            methods.push(m);
                        },
                        Err(e) => {
                            return Err(e);
                        },
                    }
                },
                InterfaceMemberNode::Unsupported => {
                    return Err(
                        ConversionError::new(
                            ErrorKind::UnsupportedSyntax,
                            "this interface member kind is not supported",
                        ),
                    );
                },
            }
            i += 1;
        }
        proof {
            assert(node.members@.take(end as int) =~= node.members@);
        }
        if !saw_ctor {
            proof {
                assert(constructors@ =~= Seq::<Constructor>::empty());
            }
            constructors.push(Default::default());
        }
        Ok(
            Object {
                name: node.name.clone(),
                constructors,
                methods,
                ffi_func_free: Default::default(),
                threadsafe: iface.threadsafe,
                docs: Vec::new(),
            },
        )
    }

    /// Converts a native struct declaration into a bare object shell;
    /// constructors and methods arrive through later implementation
    /// blocks.
    pub fn from_native_struct(node: &NativeStructNode) -> (r: Result<Object, ConversionError>)
        ensures
            r is Ok <==> docs_ok(node.attributes@),
            r is Err ==> r->Err_0.kind == ErrorKind::AttributeViolation,
            r is Ok ==> r->Ok_0.name@ == node.name@ && r->Ok_0.constructors@.len() == 0
                && r->Ok_0.methods@.len() == 0 && r->Ok_0.threadsafe == false && docs_match(
                r->Ok_0.docs@,
                node.attributes@,
            ) && ffi_empty(r->Ok_0.ffi_func_free),
    {
        let docs = match parse_native_docs(&node.attributes) {
            Ok(d) => d,
            Err(e) => {
                return Err(e);
            },
        };
        Ok(
            Object {
                name: node.name.clone(),
                constructors: Vec::new(),
                methods: Vec::new(),
                ffi_func_free: Default::default(),
                threadsafe: false,
                docs,
            },
        )
    }
}

/// Whether the derived signature of a constructor is in place, the
/// logical content untouched.
pub open spec fn ctor_derived(
    o: Constructor,
    n: Constructor,
    prefix: Seq<char>,
    obj: Seq<char>,
) -> bool {
    &&& n.name == o.name
    &&& n.arguments == o.arguments
    &&& n.throws == o.throws
    &&& n.docs == o.docs
    &&& n.ffi_func.name@ == symbol3(prefix, obj, o.name@)
    &&& lowered_args(o.arguments@, n.ffi_func.arguments@, 0)
    &&& n.ffi_func.return_type == Some(FfiType::UInt64)
}

/// Whether the derived signature of a method is in place: an instance
/// method's lowered list has exactly one more entry, the leading handle,
/// than its logical list; a static method's has exactly as many.
pub open spec fn method_derived(o: Method, n: Method, prefix: Seq<char>, obj: Seq<char>) -> bool {
    &&& n.name == o.name
    &&& n.object_name == o.object_name
    &&& n.return_type == o.return_type
    &&& n.arguments == o.arguments
    &&& n.static_ == o.static_
    &&& n.throws == o.throws
    &&& n.docs == o.docs
    &&& n.ffi_func.name@ == symbol3(prefix, obj, o.name@)
    &&& if o.static_ {
        lowered_args(o.arguments@, n.ffi_func.arguments@, 0)
    } else {
        lowered_args(o.arguments@, n.ffi_func.arguments@, 1) && n.ffi_func.arguments@[0].name@
            == "handle"@ && n.ffi_func.arguments@[0].type_ == FfiType::UInt64
    }
    &&& n.ffi_func.return_type == match o.return_type {
        None => None,
        Some(t) => Some(lower_type(t)),
    }
}

/// Builds a constructor's flat signature: prefixed symbol name, lowered
/// arguments, and the handle as return value.
fn constructor_ffi(c: &Constructor, ci_prefix: &str, obj_prefix: &str) -> (r: FfiFunction)
    ensures
        r.name@ == symbol3(ci_prefix@, obj_prefix@, c.name@),
        lowered_args(c.arguments@, r.arguments@, 0),
        r.return_type == Some(FfiType::UInt64),
{
    let mut name = String::from_str(ci_prefix);
    push_part(&mut name, "_");
    push_part(&mut name, obj_prefix);
    push_part(&mut name, "_");
    push_part(&mut name, c.name.as_str());
    let arguments = crate::function::lower_args(&c.arguments);
    FfiFunction { name, arguments, return_type: Some(FfiType::UInt64) }
}

/// Builds a method's flat signature: prefixed symbol name, the receiving
/// handle first for instance methods, then the lowered arguments, and the
/// lowered return, absent for void.
fn method_ffi(m: &Method, ci_prefix: &str, obj_prefix: &str) -> (r: FfiFunction)
    ensures
        r.name@ == symbol3(ci_prefix@, obj_prefix@, m.name@),
        if m.static_ {
            lowered_args(m.arguments@, r.arguments@, 0)
        } else {
            lowered_args(m.arguments@, r.arguments@, 1) && r.arguments@[0].name@ == "handle"@
                && r.arguments@[0].type_ == FfiType::UInt64
        },
        r.return_type == match m.return_type {
            None => None,
            Some(t) => Some(lower_type(t)),
        },
{
    let mut name = String::from_str(ci_prefix);
    push_part(&mut name, "_");
    push_part(&mut name, obj_prefix);
    push_part(&mut name, "_");
    push_part(&mut name, m.name.as_str());
    let mut arguments: Vec<FfiArgument> = Vec::new();
    if !m.static_ {
        arguments.push(FfiArgument { name: String::from_str("handle"), type_: FfiType::UInt64 });
    }
    let off = arguments.len();
    let mut i: usize = 0;
    let end = m.arguments.len();
    while i < end
        invariant
            end == m.arguments@.len(),
            i <= end,
            off == if m.static_ { 0int } else { 1int },
            arguments@.len() == off + i,
            off == 1 ==> arguments@[0].name@ == "handle"@ && arguments@[0].type_
                == FfiType::UInt64,
            forall|j: int| 0 <= j < i ==> crate::function::lowered_arg(
                #[trigger] m.arguments@[j],
                arguments@[j + off],
            ),
        decreases end - i,
    {
        arguments.push(
            FfiArgument {
                name: m.arguments[i].name.clone(),
                type_: lower(&m.arguments[i].type_),
            },
        );
        i += 1;
    }
    let return_type = match &m.return_type {
        None => None,
        Some(t) => Some(lower(t)),
    };
    FfiFunction { name, arguments, return_type }
}

impl Constructor {
    /// Derives this constructor's flat signature under the given prefixes.
    pub fn derive_ffi_func(&mut self, ci_prefix: &str, obj_prefix: &str) -> (r: Result<
        (),
        ConversionError,
    >)
        ensures
            r is Ok,
            ctor_derived(*old(self), *final(self), ci_prefix@, obj_prefix@),
    {
        let f = constructor_ffi(self, ci_prefix, obj_prefix);
        self.ffi_func = f;
        Ok(())
    }
}

impl Method {
    /// Derives this method's flat signature under the given prefixes. The
    /// derived argument list of an instance method has exactly one more
    /// entry — the leading handle — than the logical list; a static
    /// method's has exactly as many entries.
    pub fn derive_ffi_func(&mut self, ci_prefix: &str, obj_prefix: &str) -> (r: Result<
        (),
        ConversionError,
    >)
        ensures
            r is Ok,
            method_derived(*old(self), *final(self), ci_prefix@, obj_prefix@),
    {
        let f = method_ffi(self, ci_prefix, obj_prefix);
        self.ffi_func = f;
        Ok(())
    }
}

impl Object {
    /// Derives the flat signatures of every constructor and method, and
    /// the synthesized free function, under the component's prefix. Runs
    /// once, after the full definition set is known.
    pub fn derive_ffi_funcs(&mut self, ci_prefix: &str) -> (r: Result<(), ConversionError>)
        ensures
            r is Ok,
            final(self).name == old(self).name,
            final(self).threadsafe == old(self).threadsafe,
            final(self).docs == old(self).docs,
            final(self).ffi_func_free.name@ == "ffi_"@ + ci_prefix@ + "_"@ + old(self).name@
                + "_object_free"@,
            final(self).ffi_func_free.arguments@.len() == 1,
            final(self).ffi_func_free.arguments@[0].name@ == "handle"@,
            final(self).ffi_func_free.arguments@[0].type_ == FfiType::UInt64,
            final(self).ffi_func_free.return_type is None,
            final(self).constructors@.len() == old(self).constructors@.len(),
            forall|i: int| 0 <= i < old(self).constructors@.len() ==> ctor_derived(
                old(self).constructors@[i],
                #[trigger] final(self).constructors@[i],
                ci_prefix@,
                old(self).name@,
            ),
            final(self).methods@.len() == old(self).methods@.len(),
            forall|i: int| 0 <= i < old(self).methods@.len() ==> method_derived(
                old(self).methods@[i],
                #[trigger] final(self).methods@[i],
                ci_prefix@,
                old(self).name@,
            ),
    {
        let mut free_name = String::from_str("ffi_");
        push_part(&mut free_name, ci_prefix);
        push_part(&mut free_name, "_");
        push_part(&mut free_name, self.name.as_str());
        push_part(&mut free_name, "_object_free");
        let mut free_args: Vec<FfiArgument> = Vec::new();
        free_args.push(FfiArgument { name: String::from_str("handle"), type_: FfiType::UInt64 });
        self.ffi_func_free = FfiFunction {
            name: free_name,
            arguments: free_args,
            return_type: None,
        };
        let obj_prefix = self.name.clone();
        let mut i: usize = 0;
        let cend = self.constructors.len();
        while i < cend
            invariant
                cend == self.constructors@.len(),
                i <= cend,
                self.constructors@.len() == old(self).constructors@.len(),
                self.name == old(self).name,
                self.threadsafe == old(self).threadsafe,
                self.docs == old(self).docs,
                self.methods == old(self).methods,
                self.ffi_func_free.name@ == "ffi_"@ + ci_prefix@ + "_"@ + old(self).name@
                    + "_object_free"@,
                self.ffi_func_free.arguments@.len() == 1,
                self.ffi_func_free.arguments@[0].name@ == "handle"@,
                self.ffi_func_free.arguments@[0].type_ == FfiType::UInt64,
                self.ffi_func_free.return_type is None,
                obj_prefix == old(self).name,
                forall|j: int| 0 <= j < i ==> ctor_derived(
                    old(self).constructors@[j],
                    #[trigger] self.constructors@[j],
                    ci_prefix@,
                    old(self).name@,
                ),
                forall|j: int| i <= j < cend ==> #[trigger] self.constructors@[j] == old(
                    self,
                ).constructors@[j],
            decreases cend - i,
        {
            let f = constructor_ffi(&self.constructors[i], ci_prefix, obj_prefix.as_str());
            self.constructors[i].ffi_func = f;
            i += 1;
        }
        let mut k: usize = 0;
        let mend = self.methods.len();
        while k < mend
            invariant
                mend == self.methods@.len(),
                k <= mend,
                self.methods@.len() == old(self).methods@.len(),
                self.name == old(self).name,
                self.threadsafe == old(self).threadsafe,
                self.docs == old(self).docs,
                self.constructors@.len() == old(self).constructors@.len(),
                forall|j: int| 0 <= j < old(self).constructors@.len() ==> ctor_derived(
                    old(self).constructors@[j],
                    #[trigger] self.constructors@[j],
                    ci_prefix@,
                    old(self).name@,
                ),
                self.ffi_func_free.name@ == "ffi_"@ + ci_prefix@ + "_"@ + old(self).name@
                    + "_object_free"@,
                self.ffi_func_free.arguments@.len() == 1,
                self.ffi_func_free.arguments@[0].name@ == "handle"@,
                self.ffi_func_free.arguments@[0].type_ == FfiType::UInt64,
                self.ffi_func_free.return_type is None,
                obj_prefix == old(self).name,
                forall|j: int| 0 <= j < k ==> method_derived(
                    old(self).methods@[j],
                    #[trigger] self.methods@[j],
                    ci_prefix@,
                    old(self).name@,
                ),
                forall|j: int| k <= j < mend ==> #[trigger] self.methods@[j] == old(
                    self,
                ).methods@[j],
            decreases mend - k,
        {
            let f = method_ffi(&self.methods[k], ci_prefix, obj_prefix.as_str());
            self.methods[k].ffi_func = f;
            k += 1;
        }
        Ok(())
    }
}

} // verus!

