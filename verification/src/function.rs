use vstd::prelude::*;

use crate::ast::{ArgNode, AttrNode, Literal, NativeArgNode, OperationNode};
use crate::attributes::{parse_throws_attrs, spec_throws, throws_attrs_ok};
use crate::error::{ConversionError, ErrorKind};
use crate::ffi::{lower, lower_type, FfiArgument, FfiFunction, FfiType};
use crate::text::push_part;
use crate::types::{resolvable, resolve_err_kind, resolves_to, NameEntry, CanonicalType, TypeUniverse};

verus! {

/// One argument of a callable: name, canonical type, by-reference flag,
/// optionality, and an optional default literal.
#[derive(Debug)]
pub struct Argument {
    pub name: String,
    pub type_: CanonicalType,
    pub by_ref: bool,
    pub optional: bool,
    pub default: Option<Literal>,
}

impl Argument {
    pub fn name(&self) -> (r: &str)
        ensures
            r@ == self.name@,
    {
        self.name.as_str()
    }

    pub fn type_(&self) -> (r: CanonicalType)
        ensures
            r == self.type_,
    {
        self.type_.duplicate()
    }

    pub fn by_ref(&self) -> (r: bool)
        ensures
            r == self.by_ref,
    {
        self.by_ref
    }
}

/// Whether every modifier on an argument is the by-reference marker.
pub open spec fn arg_attrs_ok(attrs: Seq<AttrNode>) -> bool {
    forall|i: int| 0 <= i < attrs.len() ==> ((#[trigger] attrs[i]) matches AttrNode::Word(w) && w@
        == "ByRef"@)
}

/// Whether an argument declaration converts.
pub open spec fn arg_ok(a: ArgNode, names: Seq<NameEntry>) -> bool {
    &&& !a.variadic
    &&& arg_attrs_ok(a.attributes@)
    &&& !(a.default matches Some(Literal::Unsupported))
    &&& resolvable(a.type_, names)
}

/// The error category a failing argument reports.
pub open spec fn arg_err_kind(a: ArgNode, names: Seq<NameEntry>) -> ErrorKind {
    if a.variadic {
        ErrorKind::UnsupportedSyntax
    } else if !arg_attrs_ok(a.attributes@) {
        ErrorKind::AttributeViolation
    } else if a.default matches Some(Literal::Unsupported) {
        ErrorKind::UnsupportedSyntax
    } else {
        resolve_err_kind(a.type_, names)
    }
}

/// Whether `r` is the argument that declaration `a` converts into.
pub open spec fn arg_matches(r: Argument, a: ArgNode, names: Seq<NameEntry>) -> bool {
    &&& r.name@ == a.name@
    &&& resolves_to(a.type_, names, r.type_)
    &&& r.by_ref == (a.attributes@.len() > 0)
    &&& r.optional == a.optional
    &&& r.default == a.default
}

/// The first failing argument's error category, scanning from `i` on.
pub open spec fn args_err_from(args: Seq<ArgNode>, names: Seq<NameEntry>, i: int) -> Option<
    ErrorKind,
>
    decreases args.len() - i,
{
    if i < 0 || i >= args.len() {
        None
    } else if !arg_ok(args[i], names) {
        Some(arg_err_kind(args[i], names))
    } else {
        args_err_from(args, names, i + 1)
    }
}

/// Whether `rs` is the argument list that `args` converts into.
pub open spec fn args_match(rs: Seq<Argument>, args: Seq<ArgNode>, names: Seq<NameEntry>) -> bool {
    rs.len() == args.len() && (forall|i: int| 0 <= i < args.len() ==> arg_matches(
        #[trigger] rs[i],
        args[i],
        names,
    ))
}

impl Argument {
    /// Converts one argument declaration, resolving its type.
    pub fn from_idl(a: &ArgNode, types: &mut TypeUniverse) -> (r: Result<
        Argument,
        ConversionError,
    >)
        ensures
            final(types).names@ == old(types).names@,
            r is Ok <==> arg_ok(*a, old(types).names@),
            r is Ok ==> arg_matches(r->Ok_0, *a, old(types).names@),
            r is Err ==> r->Err_0.kind == arg_err_kind(*a, old(types).names@),
    {
        if a.variadic {
            return Err(
                ConversionError::new(
                    ErrorKind::UnsupportedSyntax,
                    "variadic arguments are not supported",
                ),
            );
        }
        let mut by_ref = false;
        let mut i: usize = 0;
        let end = a.attributes.len();
        while i < end
            invariant
                !a.variadic,
                end == a.attributes@.len(),
                i <= end,
                by_ref == (i > 0),
                forall|j: int| 0 <= j < i ==> ((#[trigger] a.attributes@[j])
                    matches AttrNode::Word(w) && w@ == "ByRef"@),
            decreases end - i,
        {
            match &a.attributes[i] {
                AttrNode::Word(w) => {
                    if !crate::text::str_eq(w.as_str(), "ByRef") {
                        return Err(
                            ConversionError::new(
                                ErrorKind::AttributeViolation,
                                "unknown modifier on an argument",
                            ),
                        );
                    }
                    by_ref = true;
                },
                _ => {
                    return Err(
                        ConversionError::new(
                            ErrorKind::AttributeViolation,
                            "this modifier form is not legal on an argument",
                        ),
                    );
                },
            }
            i += 1;
        }
        let def = match &a.default {
            Some(l) => match l {
                Literal::Unsupported => {
                    return Err(
                        ConversionError::new(
                            ErrorKind::UnsupportedSyntax,
                            "unsupported default value form",
                        ),
                    );
                },
                _ => Some(l.duplicate()),
            },
            None => None,
        };
        let type_ = match types.resolve_type_expression(&a.type_) {
            Ok(t) => t,
            Err(e) => {
                return Err(e);
            },
        };
        Ok(Argument { name: a.name.clone(), type_, by_ref, optional: a.optional, default: def })
    }
}

/// Converts an argument list in order, stopping at the first violation.
pub fn convert_args(args: &Vec<ArgNode>, types: &mut TypeUniverse) -> (r: Result<
    Vec<Argument>,
    ConversionError,
>)
    ensures
        final(types).names@ == old(types).names@,
        r is Ok <==> args_err_from(args@, old(types).names@, 0) is None,
        r is Ok ==> args_match(r->Ok_0@, args@, old(types).names@),
        r is Err ==> r->Err_0.kind == args_err_from(args@, old(types).names@, 0)->Some_0,
{
    let mut out: Vec<Argument> = Vec::new();
    let mut i: usize = 0;
    let end = args.len();
    while i < end
        invariant
            end == args@.len(),
            i <= end,
            types.names@ == old(types).names@,
            out@.len() == i,
            forall|j: int| 0 <= j < i ==> arg_matches(
                #[trigger] out@[j],
                args@[j],
                old(types).names@,
            ),
            args_err_from(args@, old(types).names@, 0) == args_err_from(
                args@,
                old(types).names@,
                i as int,
            ),
        decreases end - i,
    {
        match Argument::from_idl(&args[i], types) {
            Ok(a) => {
                out.push(a);
            },
            Err(e) => {
                return Err(e);
            },
        }
        i += 1;
    }
    Ok(out)
}

/// A free-standing function of the component's namespace.
#[derive(Debug)]
pub struct Function {
    pub name: String,
    pub arguments: Vec<Argument>,
    pub return_type: Option<CanonicalType>,
    pub throws: Option<String>,
    pub ffi_func: FfiFunction,
    pub docs: Vec<String>,
}

/// Whether the stored error name agrees with the declared one.
pub open spec fn throws_agrees(stored: Option<String>, declared: Option<String>) -> bool {
    match (stored, declared) {
        (Some(a), Some(b)) => a@ == b@,
        (None, None) => true,
        _ => false,
    }
}

/// Whether a namespace operation converts into a function.
pub open spec fn fn_op_ok(op: OperationNode, names: Seq<NameEntry>) -> bool {
    &&& !op.special
    &&& !op.stringifier
    &&& match op.ret {
        None => true,
        Some(e) => resolvable(e, names),
    }
    &&& op.name is Some
    &&& args_err_from(op.args@, names, 0) is None
    &&& throws_attrs_ok(op.attributes@)
}

/// The error category a failing namespace operation reports.
pub open spec fn fn_op_err_kind(op: OperationNode, names: Seq<NameEntry>) -> ErrorKind {
    if op.special {
        ErrorKind::UnsupportedSyntax
    } else if op.stringifier {
        ErrorKind::UnsupportedSyntax
    } else if (op.ret matches Some(e) && !resolvable(e, names)) {
        resolve_err_kind(op.ret->Some_0, names)
    } else if op.name is None {
        ErrorKind::StructuralViolation
    } else if args_err_from(op.args@, names, 0) is Some {
        args_err_from(op.args@, names, 0)->Some_0
    } else {
        ErrorKind::AttributeViolation
    }
}

/// Whether `f` is the function that operation `op` converts into.
pub open spec fn fn_matches(f: Function, op: OperationNode, names: Seq<NameEntry>) -> bool {
    &&& f.name@ == op.name->Some_0@
    &&& args_match(f.arguments@, op.args@, names)
    &&& match (f.return_type, op.ret) {
        (None, None) => true,
        (Some(t), Some(e)) => resolves_to(e, names, t),
        _ => false,
    }
    &&& throws_agrees(f.throws, spec_throws(op.attributes@))
    &&& f.docs@.len() == 0
    &&& crate::ffi::ffi_empty(f.ffi_func)
}

/// The derived symbol name: the checksum-bearing namespace prefix, then
/// each name part separated by underscores.
pub open spec fn symbol2(prefix: Seq<char>, name: Seq<char>) -> Seq<char> {
    prefix + "_"@ + name
}

pub open spec fn symbol3(prefix: Seq<char>, mid: Seq<char>, name: Seq<char>) -> Seq<char> {
    prefix + "_"@ + mid + "_"@ + name
}

/// Whether `fa` is the lowering of logical argument `a`.
pub open spec fn lowered_arg(a: Argument, fa: FfiArgument) -> bool {
    fa.name@ == a.name@ && fa.type_ == lower_type(a.type_)
}

/// Whether `fargs` lowers `args` one for one after `offset` leading
/// entries.
pub open spec fn lowered_args(args: Seq<Argument>, fargs: Seq<FfiArgument>, offset: int) -> bool {
    fargs.len() == args.len() + offset && (forall|i: int| 0 <= i < args.len() ==> lowered_arg(
        #[trigger] args[i],
        fargs[i + offset],
    ))
}

/// Lowers a logical argument list, prepending nothing.
pub fn lower_args(args: &Vec<Argument>) -> (r: Vec<FfiArgument>)
    ensures
        lowered_args(args@, r@, 0),
{
    let mut out: Vec<FfiArgument> = Vec::new();
    let mut i: usize = 0;
    let end = args.len();
    while i < end
        invariant
            end == args@.len(),
            i <= end,
            out@.len() == i,
            forall|j: int| 0 <= j < i ==> lowered_arg(#[trigger] args@[j], out@[j]),
        decreases end - i,
    {
        out.push(FfiArgument { name: args[i].name.clone(), type_: lower(&args[i].type_) });
        i += 1;
    }
    out
}

impl Function {
    pub fn name(&self) -> (r: &str)
        ensures
            r@ == self.name@,
    {
        self.name.as_str()
    }

    pub fn arguments(&self) -> (r: Vec<&Argument>)
        ensures
            r@.len() == self.arguments@.len(),
            forall|i: int| 0 <= i < r@.len() ==> *(#[trigger] r@[i]) == self.arguments@[i],
    {
        let mut out: Vec<&Argument> = Vec::new();
        let mut i: usize = 0;
        let end = self.arguments.len();
        while i < end
            invariant
                end == self.arguments@.len(),
                i <= end,
                out@.len() == i,
                forall|j: int| 0 <= j < i ==> *(#[trigger] out@[j]) == self.arguments@[j],
            decreases end - i,
        {
            out.push(&self.arguments[i]);
            i += 1;
        }
        out
    }

    pub fn return_type(&self) -> (r: Option<&CanonicalType>)
        ensures
            match (r, self.return_type) {
                (Some(a), Some(b)) => *a == b,
                (None, None) => true,
                _ => false,
            },
    {
        match &self.return_type {
            Some(t) => Some(t),
            None => None,
        }
    }

    pub fn throws(&self) -> (r: Option<&str>)
        ensures
            match (r, self.throws) {
                (Some(a), Some(b)) => a@ == b@,
                (None, None) => true,
                _ => false,
            },
    {
        match &self.throws {
            Some(s) => Some(s.as_str()),
            None => None,
        }
    }

    pub fn ffi_func(&self) -> (r: &FfiFunction)
        ensures
            *r == self.ffi_func,
    {
        &self.ffi_func
    }

    /// Converts a namespace operation into a free-standing function.
    pub fn from_idl(op: &OperationNode, types: &mut TypeUniverse) -> (r: Result<
        Function,
        ConversionError,
    >)
        ensures
            final(types).names@ == old(types).names@,
            r is Ok <==> fn_op_ok(*op, old(types).names@),
            r is Ok ==> fn_matches(r->Ok_0, *op, old(types).names@),
            r is Err ==> r->Err_0.kind == fn_op_err_kind(*op, old(types).names@),
    {
        if op.special {
            return Err(
                ConversionError::new(
                    ErrorKind::UnsupportedSyntax,
                    "special operations are not supported",
                ),
            );
        }
        if op.stringifier {
            return Err(
                ConversionError::new(ErrorKind::UnsupportedSyntax, "stringifiers are not supported"),
            );
        }
        let return_type = match &op.ret {
            None => None,
            Some(e) => match types.resolve_type_expression(e) {
                Ok(t) => Some(t),
                Err(err) => {
                    return Err(err);
                },
            },
        };
        let name = match &op.name {
            None => {
                return Err(
                    ConversionError::new(
                        ErrorKind::StructuralViolation,
                        "anonymous operations are not supported",
                    ),
                );
            },
            Some(n) => n.clone(),
        };
        let arguments = match convert_args(&op.args, types) {
            Ok(a) => a,
            Err(err) => {
                return Err(err);
            },
        };
        let throws = match parse_throws_attrs(&op.attributes) {
            Ok(t) => t,
            Err(err) => {
                return Err(err);
            },
        };
        Ok(
            Function {
                name,
                arguments,
                return_type,
                throws,
                ffi_func: Default::default(),
                docs: Vec::new(),
            },
        )
    }

    /// Derives the flat signature: the prefixed symbol name, the lowered
    /// arguments in order, and the lowered return, absent for void.
    pub fn derive_ffi_func(&mut self, ci_prefix: &str) -> (r: Result<(), ConversionError>)
        ensures
            r is Ok,
            final(self).name == old(self).name,
            final(self).arguments == old(self).arguments,
            final(self).return_type == old(self).return_type,
            final(self).throws == old(self).throws,
            final(self).docs == old(self).docs,
            final(self).ffi_func.name@ == symbol2(ci_prefix@, old(self).name@),
            lowered_args(old(self).arguments@, final(self).ffi_func.arguments@, 0),
            final(self).ffi_func.return_type == match old(self).return_type {
                None => None,
                Some(t) => Some(lower_type(t)),
            },
    {
        let mut name = String::from_str(ci_prefix);
        push_part(&mut name, "_");
        push_part(&mut name, self.name.as_str());
        let arguments = lower_args(&self.arguments);
        let return_type = match &self.return_type {
            None => None,
            Some(t) => Some(lower(t)),
        };
        self.ffi_func = FfiFunction { name, arguments, return_type };
        Ok(())
    }
}


/// Whether a native argument declaration converts: it must bind a plain
/// name and its type must resolve.
pub open spec fn native_arg_ok(a: NativeArgNode, names: Seq<NameEntry>) -> bool {
    a.name is Some && resolvable(a.type_, names)
}

/// The error category a failing native argument reports.
pub open spec fn native_arg_err_kind(a: NativeArgNode, names: Seq<NameEntry>) -> ErrorKind {
    if a.name is None {
        ErrorKind::StructuralViolation
    } else {
        resolve_err_kind(a.type_, names)
    }
}

/// Whether `r` is the argument that native declaration `a` converts into.
pub open spec fn native_arg_matches(r: Argument, a: NativeArgNode, names: Seq<NameEntry>) -> bool {
    &&& r.name@ == a.name->Some_0@
    &&& resolves_to(a.type_, names, r.type_)
    &&& r.by_ref == a.by_ref
    &&& r.optional == false
    &&& r.default is None
}

/// The first failing native argument's error category, scanning from `i`
/// on.
pub open spec fn native_args_err_from(
    args: Seq<NativeArgNode>,
    names: Seq<NameEntry>,
    i: int,
) -> Option<ErrorKind>
    decreases args.len() - i,
{
    if i < 0 || i >= args.len() {
        None
    } else if !native_arg_ok(args[i], names) {
        Some(native_arg_err_kind(args[i], names))
    } else {
        native_args_err_from(args, names, i + 1)
    }
}

/// Whether `rs` is the argument list that the native list converts into.
pub open spec fn native_args_match(
    rs: Seq<Argument>,
    args: Seq<NativeArgNode>,
    names: Seq<NameEntry>,
) -> bool {
    rs.len() == args.len() && (forall|i: int| 0 <= i < args.len() ==> native_arg_matches(
        #[trigger] rs[i],
        args[i],
        names,
    ))
}

impl Argument {
    /// Converts one native argument, resolving its type.
    pub fn from_native(a: &NativeArgNode, types: &mut TypeUniverse) -> (r: Result<
        Argument,
        ConversionError,
    >)
        ensures
            final(types).names@ == old(types).names@,
            r is Ok <==> native_arg_ok(*a, old(types).names@),
            r is Ok ==> native_arg_matches(r->Ok_0, *a, old(types).names@),
            r is Err ==> r->Err_0.kind == native_arg_err_kind(*a, old(types).names@),
    {
        let name = match &a.name {
            None => {
                return Err(
                    ConversionError::new(
                        ErrorKind::StructuralViolation,
                        "arguments must bind a plain name",
                    ),
                );
            },
            Some(n) => n.clone(),
        };
        let type_ = match types.resolve_type_expression(&a.type_) {
            Ok(t) => t,
            Err(e) => {
                return Err(e);
            },
        };
        Ok(Argument { name, type_, by_ref: a.by_ref, optional: false, default: None })
    }
}

/// Converts a native argument list in order, stopping at the first
/// violation.
pub fn convert_native_args(args: &Vec<NativeArgNode>, types: &mut TypeUniverse) -> (r: Result<
    Vec<Argument>,
    ConversionError,
>)
    ensures
        final(types).names@ == old(types).names@,
        r is Ok <==> native_args_err_from(args@, old(types).names@, 0) is None,
        r is Ok ==> native_args_match(r->Ok_0@, args@, old(types).names@),
        r is Err ==> r->Err_0.kind == native_args_err_from(args@, old(types).names@, 0)->Some_0,
{
    let mut out: Vec<Argument> = Vec::new();
    let mut i: usize = 0;
    let end = args.len();
    while i < end
        invariant
            end == args@.len(),
            i <= end,
            types.names@ == old(types).names@,
            out@.len() == i,
            forall|j: int| 0 <= j < i ==> native_arg_matches(
                #[trigger] out@[j],
                args@[j],
                old(types).names@,
            ),
            native_args_err_from(args@, old(types).names@, 0) == native_args_err_from(
                args@,
                old(types).names@,
                i as int,
            ),
        decreases end - i,
    {
        match Argument::from_native(&args[i], types) {
            Ok(a) => {
                out.push(a);
            },
            Err(e) => {
                return Err(e);
            },
        }
        i += 1;
    }
    Ok(out)
}

} // verus!

