use vstd::prelude::*;

use crate::ast::{
    ArgNode, EnumNode, InterfaceMemberNode, InterfaceNode, NativeEnumNode, NativeFieldNode,
    NativeFieldsNode, NativeVariantNode, OperationNode, TypeExpr,
};
use crate::attributes::{docs_match, docs_ok, parse_native_docs};
use crate::error::{ConversionError, ErrorKind};
use crate::record::{resolved_is_object, Field};
use crate::text::str_eq;
use crate::types::{resolvable, resolve_err_kind, resolves_to, NameEntry, TypeUniverse};

verus! {

/// An individual variant of an enum: a name and zero or more fields.
#[derive(Debug)]
pub struct Variant {
    pub name: String,
    pub fields: Vec<Field>,
}

/// An enum with named variants, each of which may carry named, typed
/// fields. Both the plain string-list form and the data-carrying
/// enum-interface form desugar into this one shape.
///
/// Enums pass across the boundary as a serialized buffer whether or not
/// they carry associated data.
#[derive(Debug)]
pub struct Enum {
    pub name: String,
    pub variants: Vec<Variant>,
    pub docs: Vec<String>,
}

/// Whether any variant carries at least one field.
pub open spec fn spec_has_associated_data(e: Enum) -> bool {
    exists|i: int|
        0 <= i < e.variants@.len() && (#[trigger] e.variants@[i]).fields@.len() > 0
}

impl Variant {
    pub fn name(&self) -> (r: &str)
        ensures
            r@ == self.name@,
    {
        self.name.as_str()
    }

    pub fn fields(&self) -> (r: Vec<&Field>)
        ensures
            r@.len() == self.fields@.len(),
            forall|i: int| 0 <= i < r@.len() ==> *(#[trigger] r@[i]) == self.fields@[i],
    {
        let mut out: Vec<&Field> = Vec::new();
        let mut i: usize = 0;
        let end = self.fields.len();
        while i < end
            invariant
                end == self.fields@.len(),
                i <= end,
                out@.len() == i,
                forall|j: int| 0 <= j < i ==> *(#[trigger] out@[j]) == self.fields@[j],
            decreases end - i,
        {
            out.push(&self.fields[i]);
            i += 1;
        }
        out
    }

    pub fn has_fields(&self) -> (r: bool)
        ensures
            r == (self.fields@.len() > 0),
    {
        self.fields.len() > 0
    }
}

impl Enum {
    pub fn name(&self) -> (r: &str)
        ensures
            r@ == self.name@,
    {
        self.name.as_str()
    }

    pub fn variants(&self) -> (r: Vec<&Variant>)
        ensures
            r@.len() == self.variants@.len(),
            forall|i: int| 0 <= i < r@.len() ==> *(#[trigger] r@[i]) == self.variants@[i],
    {
        let mut out: Vec<&Variant> = Vec::new();
        let mut i: usize = 0;
        let end = self.variants.len();
        while i < end
            invariant
                end == self.variants@.len(),
                i <= end,
                out@.len() == i,
                forall|j: int| 0 <= j < i ==> *(#[trigger] out@[j]) == self.variants@[j],
            decreases end - i,
        {
            out.push(&self.variants[i]);
            i += 1;
        }
        out
    }

    pub fn docs(&self) -> (r: Vec<&str>)
        ensures
            r@.len() == self.docs@.len(),
            forall|i: int| 0 <= i < r@.len() ==> (#[trigger] r@[i])@ == self.docs@[i]@,
    {
        let mut out: Vec<&str> = Vec::new();
        let mut i: usize = 0;
        let end = self.docs.len();
        while i < end
            invariant
                end == self.docs@.len(),
                i <= end,
                out@.len() == i,
                forall|j: int| 0 <= j < i ==> (#[trigger] out@[j])@ == self.docs@[j]@,
            decreases end - i,
        {
            out.push(self.docs[i].as_str());
            i += 1;
        }
        out
    }

    /// True iff any variant has at least one field.
    pub fn has_associated_data(&self) -> (r: bool)
        ensures
            r == spec_has_associated_data(*self),
    {
        let mut i: usize = 0;
        let end = self.variants.len();
        while i < end
            invariant
                end == self.variants@.len(),
                i <= end,
                forall|j: int| 0 <= j < i ==> (#[trigger] self.variants@[j]).fields@.len() == 0,
            decreases end - i,
        {
            if self.variants[i].has_fields() {
                return true;
            }
            i += 1;
        }
        false
    }
}

/// Whether an argument declaration converts into a variant field.
/// Variant fields take no defaults, no modifiers, and no object types.
pub open spec fn enum_field_ok(a: ArgNode, names: Seq<NameEntry>) -> bool {
    &&& !a.variadic
    &&& resolvable(a.type_, names)
    &&& !resolved_is_object(a.type_, names)
    &&& a.default is None
    &&& a.attributes@.len() == 0
}

/// The error category a failing variant field reports.
pub open spec fn enum_field_err_kind(a: ArgNode, names: Seq<NameEntry>) -> ErrorKind {
    if a.variadic {
        ErrorKind::UnsupportedSyntax
    } else if !resolvable(a.type_, names) {
        resolve_err_kind(a.type_, names)
    } else if resolved_is_object(a.type_, names) {
        ErrorKind::SemanticViolation
    } else if a.default is Some {
        ErrorKind::StructuralViolation
    } else {
        ErrorKind::AttributeViolation
    }
}

/// Whether `f` is the variant field that `a` converts into.
pub open spec fn enum_field_matches(f: Field, a: ArgNode, names: Seq<NameEntry>) -> bool {
    &&& f.name@ == a.name@
    &&& resolves_to(a.type_, names, f.type_)
    &&& f.required == false
    &&& f.default is None
}

/// The first failing variant field's error category, scanning from `i` on.
pub open spec fn enum_fields_err_from(args: Seq<ArgNode>, names: Seq<NameEntry>, i: int) -> Option<
    ErrorKind,
>
    decreases args.len() - i,
{
    if i < 0 || i >= args.len() {
        None
    } else if !enum_field_ok(args[i], names) {
        Some(enum_field_err_kind(args[i], names))
    } else {
        enum_fields_err_from(args, names, i + 1)
    }
}

impl Field {
    /// Converts an operation argument into a variant field. Objects cannot
    /// be embedded as enum variant data.
    pub fn from_idl_arg(a: &ArgNode, types: &mut TypeUniverse) -> (r: Result<
        Field,
        ConversionError,
    >)
        ensures
            final(types).names@ == old(types).names@,
            r is Ok <==> enum_field_ok(*a, old(types).names@),
            r is Ok ==> enum_field_matches(r->Ok_0, *a, old(types).names@),
            r is Err ==> r->Err_0.kind == enum_field_err_kind(*a, old(types).names@),
    {
        if a.variadic {
            return Err(
                ConversionError::new(
                    ErrorKind::UnsupportedSyntax,
                    "variadic arguments are not supported",
                ),
            );
        }
        let type_ = match types.resolve_type_expression(&a.type_) {
            Ok(t) => t,
            Err(e) => {
                return Err(e);
            },
        };
        proof {
            crate::record::object_resolution_matches(a.type_, old(types).names@, type_);
        }
        if type_.is_object() {
            return Err(
                ConversionError::new(
                    ErrorKind::SemanticViolation,
                    "objects cannot be used in enum variant data",
                ),
            );
        }
        if a.default.is_some() {
            return Err(
                ConversionError::new(
                    ErrorKind::StructuralViolation,
                    "enum variant fields must not have default values",
                ),
            );
        }
        if a.attributes.len() != 0 {
            return Err(
                ConversionError::new(
                    ErrorKind::AttributeViolation,
                    "enum variant fields must not have attributes",
                ),
            );
        }
        Ok(Field { name: a.name.clone(), type_, required: false, default: None })
    }
}

/// Whether an interface operation converts into a variant.
///
/// The enum-interface syntax repurposes the operation's nominal return
/// type identifier as the variant's name, so the operation must be
/// anonymous and its return type a plain identifier.
pub open spec fn variant_op_ok(op: OperationNode, names: Seq<NameEntry>) -> bool {
    &&& !op.special
    &&& !op.stringifier
    &&& op.name is None
    &&& (op.ret matches Some(TypeExpr::Ident(_)))
    &&& enum_fields_err_from(op.args@, names, 0) is None
}

/// The error category a failing variant declaration reports.
pub open spec fn variant_op_err_kind(op: OperationNode, names: Seq<NameEntry>) -> ErrorKind {
    if op.special {
        ErrorKind::UnsupportedSyntax
    } else if op.stringifier {
        ErrorKind::UnsupportedSyntax
    } else if op.name is Some {
        ErrorKind::StructuralViolation
    } else if !(op.ret matches Some(TypeExpr::Ident(_))) {
        ErrorKind::StructuralViolation
    } else {
        enum_fields_err_from(op.args@, names, 0)->Some_0
    }
}

/// Whether `v` is the variant that operation `op` converts into.
pub open spec fn variant_op_matches(v: Variant, op: OperationNode, names: Seq<NameEntry>) -> bool {
    &&& (op.ret matches Some(TypeExpr::Ident(s)) && v.name@ == s@)
    &&& v.fields@.len() == op.args@.len()
    &&& forall|i: int| 0 <= i < op.args@.len() ==> enum_field_matches(
        #[trigger] v.fields@[i],
        op.args@[i],
        names,
    )
}

impl Variant {
    /// Converts an enum-interface operation into a variant, taking the
    /// return type identifier as the variant's name and the argument list
    /// as its field list.
    pub fn from_idl_operation(op: &OperationNode, types: &mut TypeUniverse) -> (r: Result<
        Variant,
        ConversionError,
    >)
        ensures
            final(types).names@ == old(types).names@,
            r is Ok <==> variant_op_ok(*op, old(types).names@),
            r is Ok ==> variant_op_matches(r->Ok_0, *op, old(types).names@),
            r is Err ==> r->Err_0.kind == variant_op_err_kind(*op, old(types).names@),
    {
        if op.special {
            return Err(
                ConversionError::new(
                    ErrorKind::UnsupportedSyntax,
                    "special operations are not supported",
                ),
            );
        }
        if op.stringifier {
            return Err(
                ConversionError::new(ErrorKind::UnsupportedSyntax, "stringifiers are not supported"),
            );
        }
        if op.name.is_some() {
            return Err(
                ConversionError::new(
                    ErrorKind::StructuralViolation,
                    "enum interface members must not have a method name",
                ),
            );
        }
        let name = match &op.ret {
            Some(TypeExpr::Ident(s)) => s.clone(),
            _ => {
                return Err(
                    ConversionError::new(
                        ErrorKind::StructuralViolation,
                        "enum interface members must have plain identifiers as names",
                    ),
                );
            },
        };
        let mut fields: Vec<Field> = Vec::new();
        let mut i: usize = 0;
        let end = op.args.len();
        while i < end
            invariant
                end == op.args@.len(),
                i <= end,
                types.names@ == old(types).names@,
                fields@.len() == i,
                forall|j: int| 0 <= j < i ==> enum_field_matches(
                    #[trigger] fields@[j],
                    op.args@[j],
                    old(types).names@,
                ),
                enum_fields_err_from(op.args@, old(types).names@, 0) == enum_fields_err_from(
                    op.args@,
                    old(types).names@,
                    i as int,
                ),
                !op.special,
                !op.stringifier,
                op.name is None,
                (op.ret matches Some(TypeExpr::Ident(_))),
            decreases end - i,
        {
            match Field::from_idl_arg(&op.args[i], types) {
                Ok(f) => {
                    fields.push(f);
                },
                Err(e) => {
                    return Err(e);
                },
            }
            i += 1;
        }
        Ok(Variant { name, fields })
    }
}

/// Whether one member of an enum-interface declaration yields a variant.
pub open spec fn member_variant_err(m: InterfaceMemberNode, names: Seq<NameEntry>) -> Option<
    ErrorKind,
> {
    match m {
        InterfaceMemberNode::Operation(op) => if variant_op_ok(op, names) {
            None
        } else {
            Some(variant_op_err_kind(op, names))
        },
        _ => Some(ErrorKind::UnsupportedSyntax),
    }
}

/// The first failing member's error category, scanning from `i` on.
pub open spec fn enum_members_err_from(
    ms: Seq<InterfaceMemberNode>,
    names: Seq<NameEntry>,
    i: int,
) -> Option<ErrorKind>
    decreases ms.len() - i,
{
    if i < 0 || i >= ms.len() {
        None
    } else if member_variant_err(ms[i], names) is Some {
        member_variant_err(ms[i], names)
    } else {
        enum_members_err_from(ms, names, i + 1)
    }
}

/// Whether the plain string-list declaration `node` converts into `e`:
/// one fieldless variant per declared value, in order, duplicate names
/// included.
pub open spec fn plain_enum_matches(e: Enum, node: EnumNode) -> bool {
    &&& e.name@ == node.name@
    &&& e.variants@.len() == node.values@.len()
    &&& forall|i: int| 0 <= i < node.values@.len() ==> (#[trigger] e.variants@[i]).name@
        == node.values@[i]@ && e.variants@[i].fields@.len() == 0
    &&& e.docs@.len() == 0
}

/// Whether the enum-interface declaration `node` converts into `e`: one
/// variant per member, in order, duplicate names included.
pub open spec fn enum_iface_matches(e: Enum, node: InterfaceNode, names: Seq<NameEntry>) -> bool {
    &&& e.name@ == node.name@
    &&& e.variants@.len() == node.members@.len()
    &&& forall|i: int| 0 <= i < node.members@.len() ==> ((#[trigger] node.members@[i])
        matches InterfaceMemberNode::Operation(op) && variant_op_matches(e.variants@[i], op, names))
    &&& e.docs@.len() == 0
}

impl Enum {
    /// Converts a plain string-list enum declaration. Every declared value
    /// becomes a variant, duplicates included.
    pub fn from_idl_enum(node: &EnumNode) -> (r: Enum)
        ensures
            plain_enum_matches(r, *node),
    {
        let mut variants: Vec<Variant> = Vec::new();
        let mut i: usize = 0;
        let end = node.values.len();
        while i < end
            invariant
                end == node.values@.len(),
                i <= end,
                variants@.len() == i,
                forall|j: int| 0 <= j < i ==> (#[trigger] variants@[j]).name@ == node.values@[j]@
                    && variants@[j].fields@.len() == 0,
            decreases end - i,
        {
            variants.push(Variant { name: node.values[i].clone(), fields: Vec::new() });
            i += 1;
        }
        Enum { name: node.name.clone(), variants, docs: Vec::new() }
    }

    /// Converts a data-carrying enum-interface declaration. The caller has
    /// already dispatched on the `[Enum]` modifier, so the modifiers are
    /// not re-validated here.
    pub fn from_idl_interface(node: &InterfaceNode, types: &mut TypeUniverse) -> (r: Result<
        Enum,
        ConversionError,
    >)
        ensures
            final(types).names@ == old(types).names@,
            r is Ok <==> !node.inherits && enum_members_err_from(
                node.members@,
                old(types).names@,
                0,
            ) is None,
            r is Ok ==> enum_iface_matches(r->Ok_0, *node, old(types).names@),
            r is Err ==> r->Err_0.kind == if node.inherits {
                ErrorKind::UnsupportedSyntax
            } else {
                enum_members_err_from(node.members@, old(types).names@, 0)->Some_0
            },
    {
        if node.inherits {
            return Err(
                ConversionError::new(
                    ErrorKind::UnsupportedSyntax,
                    "interface inheritance is not supported for enum interfaces",
                ),
            );
        }
        let mut variants: Vec<Variant> = Vec::new();
        let mut i: usize = 0;
        let end = node.members.len();
        while i < end
            invariant
                !node.inherits,
                end == node.members@.len(),
                i <= end,
                types.names@ == old(types).names@,
                variants@.len() == i,
                forall|j: int| 0 <= j < i ==> ((#[trigger] node.members@[j])
                    matches InterfaceMemberNode::Operation(op) && variant_op_matches(
                    variants@[j],
                    op,
                    old(types).names@,
                )),
                enum_members_err_from(node.members@, old(types).names@, 0)
                    == enum_members_err_from(node.members@, old(types).names@, i as int),
            decreases end - i,
        {
            match &node.members[i] {
                InterfaceMemberNode::Operation(op) => {
                    match Variant::from_idl_operation(op, types) {
                        Ok(v) => {
                            variants.push(v);
                        },
                        Err(e) => {
                            return Err(e);
                        },
                    }
                },
                _ => {
                    return Err(
                        ConversionError::new(
                            ErrorKind::UnsupportedSyntax,
                            "this member kind is not supported in an enum interface",
                        ),
                    );
                },
            }
            i += 1;
        }
        Ok(Enum { name: node.name.clone(), variants, docs: Vec::new() })
    }
}


/// Whether a native field declaration converts into a variant field.
pub open spec fn native_field_ok(f: NativeFieldNode, names: Seq<NameEntry>) -> bool {
    &&& docs_ok(f.attributes@)
    &&& !(f.vis is Restricted)
    &&& f.name is Some
    &&& resolvable(f.type_, names)
    &&& !resolved_is_object(f.type_, names)
}

/// The error category a failing native field reports.
pub open spec fn native_field_err_kind(f: NativeFieldNode, names: Seq<NameEntry>) -> ErrorKind {
    if !docs_ok(f.attributes@) {
        ErrorKind::AttributeViolation
    } else if f.vis is Restricted {
        ErrorKind::StructuralViolation
    } else if f.name is None {
        ErrorKind::StructuralViolation
    } else if !resolvable(f.type_, names) {
        resolve_err_kind(f.type_, names)
    } else {
        ErrorKind::SemanticViolation
    }
}

/// Whether `fd` is the variant field that native field `f` converts into.
pub open spec fn native_field_matches(fd: Field, f: NativeFieldNode, names: Seq<NameEntry>) -> bool {
    &&& fd.name@ == f.name->Some_0@
    &&& resolves_to(f.type_, names, fd.type_)
    &&& fd.required == false
    &&& fd.default is None
}

/// The first failing native field's error category, scanning from `i` on.
pub open spec fn native_fields_err_from(
    fs: Seq<NativeFieldNode>,
    names: Seq<NameEntry>,
    i: int,
) -> Option<ErrorKind>
    decreases fs.len() - i,
{
    if i < 0 || i >= fs.len() {
        None
    } else if !native_field_ok(fs[i], names) {
        Some(native_field_err_kind(fs[i], names))
    } else {
        native_fields_err_from(fs, names, i + 1)
    }
}

impl Field {
    /// Converts a native named field into a variant field. Fields must be
    /// public and named, and objects cannot be embedded as variant data.
    pub fn from_native(f: &NativeFieldNode, types: &mut TypeUniverse) -> (r: Result<
        Field,
        ConversionError,
    >)
        ensures
            final(types).names@ == old(types).names@,
            r is Ok <==> native_field_ok(*f, old(types).names@),
            r is Ok ==> native_field_matches(r->Ok_0, *f, old(types).names@),
            r is Err ==> r->Err_0.kind == native_field_err_kind(*f, old(types).names@),
    {
        match parse_native_docs(&f.attributes) {
            Ok(_) => {},
            Err(e) => {
                return Err(e);
            },
        }
        match &f.vis {
            crate::ast::NativeVisNode::Restricted => {
                return Err(
                    ConversionError::new(
                        ErrorKind::StructuralViolation,
                        "variant fields must be public",
                    ),
                );
            },
            _ => {},
        }
        let name = match &f.name {
            None => {
                return Err(
                    ConversionError::new(
                        ErrorKind::StructuralViolation,
                        "variant fields must be named",
                    ),
                );
            },
            Some(n) => n.clone(),
        };
        let type_ = match types.resolve_type_expression(&f.type_) {
            Ok(t) => t,
            Err(e) => {
                return Err(e);
            },
        };
        proof {
            crate::record::object_resolution_matches(f.type_, old(types).names@, type_);
        }
        if type_.is_object() {
            return Err(
                ConversionError::new(
                    ErrorKind::SemanticViolation,
                    "objects cannot be used in enum variant data",
                ),
            );
        }
        Ok(Field { name, type_, required: false, default: None })
    }
}

/// Whether a native variant declaration converts.
pub open spec fn native_variant_ok(v: NativeVariantNode, names: Seq<NameEntry>) -> bool {
    &&& docs_ok(v.attributes@)
    &&& !v.has_discriminant
    &&& match v.fields {
        NativeFieldsNode::Unit => true,
        NativeFieldsNode::Unnamed => false,
        NativeFieldsNode::Named(fs) => native_fields_err_from(fs@, names, 0) is None,
    }
}

/// The error category a failing native variant reports.
pub open spec fn native_variant_err_kind(v: NativeVariantNode, names: Seq<NameEntry>) -> ErrorKind {
    if !docs_ok(v.attributes@) {
        ErrorKind::AttributeViolation
    } else if v.has_discriminant {
        ErrorKind::UnsupportedSyntax
    } else {
        match v.fields {
            NativeFieldsNode::Unnamed => ErrorKind::StructuralViolation,
            NativeFieldsNode::Named(fs) => native_fields_err_from(fs@, names, 0)->Some_0,
            NativeFieldsNode::Unit => ErrorKind::UnsupportedSyntax,
        }
    }
}

/// Whether `var` is the variant that native declaration `v` converts into.
pub open spec fn native_variant_matches(
    var: Variant,
    v: NativeVariantNode,
    names: Seq<NameEntry>,
) -> bool {
    &&& var.name@ == v.name@
    &&& match v.fields {
        NativeFieldsNode::Unit => var.fields@.len() == 0,
        NativeFieldsNode::Unnamed => false,
        NativeFieldsNode::Named(fs) => var.fields@.len() == fs@.len() && (forall|i: int|
            0 <= i < fs@.len() ==> native_field_matches(#[trigger] var.fields@[i], fs@[i], names)),
    }
}

impl Variant {
    /// Converts a native enum variant: unit variants become fieldless,
    /// named fields become variant fields; tuple variants and explicit
    /// discriminants are rejected.
    pub fn from_native(v: &NativeVariantNode, types: &mut TypeUniverse) -> (r: Result<
        Variant,
        ConversionError,
    >)
        ensures
            final(types).names@ == old(types).names@,
            r is Ok <==> native_variant_ok(*v, old(types).names@),
            r is Ok ==> native_variant_matches(r->Ok_0, *v, old(types).names@),
            r is Err ==> r->Err_0.kind == native_variant_err_kind(*v, old(types).names@),
    {
        match parse_native_docs(&v.attributes) {
            Ok(_) => {},
            Err(e) => {
                return Err(e);
            },
        }
        if v.has_discriminant {
            return Err(
                ConversionError::new(
                    ErrorKind::UnsupportedSyntax,
                    "explicit enum discriminants are not supported",
                ),
            );
        }
        let fields = match &v.fields {
            NativeFieldsNode::Unit => Vec::new(),
            NativeFieldsNode::Unnamed => {
                return Err(
                    ConversionError::new(
                        ErrorKind::StructuralViolation,
                        "enum variants can only have named fields",
                    ),
                );
            },
            NativeFieldsNode::Named(fs) => {
                let mut out: Vec<Field> = Vec::new();
                let mut i: usize = 0;
                let end = fs.len();
                while i < end
                    invariant
                        end == fs@.len(),
                        i <= end,
                        types.names@ == old(types).names@,
                        out@.len() == i,
                        docs_ok(v.attributes@),
                        !v.has_discriminant,
                        v.fields matches NativeFieldsNode::Named(g) && g@ == fs@,
                        forall|j: int| 0 <= j < i ==> native_field_matches(
                            #[trigger] out@[j],
                            fs@[j],
                            old(types).names@,
                        ),
                        native_fields_err_from(fs@, old(types).names@, 0)
                            == native_fields_err_from(fs@, old(types).names@, i as int),
                    decreases end - i,
                {
                    match Field::from_native(&fs[i], types) {
                        Ok(f) => {
                            out.push(f);
                        },
                        Err(e) => {
                            return Err(e);
                        },
                    }
                    i += 1;
                }
                out
            },
        };
        Ok(Variant { name: v.name.clone(), fields })
    }
}

/// The first failing native variant's error category, scanning from `i`
/// on.
pub open spec fn native_variants_err_from(
    vs: Seq<NativeVariantNode>,
    names: Seq<NameEntry>,
    i: int,
) -> Option<ErrorKind>
    decreases vs.len() - i,
{
    if i < 0 || i >= vs.len() {
        None
    } else if !native_variant_ok(vs[i], names) {
        Some(native_variant_err_kind(vs[i], names))
    } else {
        native_variants_err_from(vs, names, i + 1)
    }
}

/// Whether the native enum declaration `node` converts into `e`: one
/// variant per declared variant, in order, duplicate names included.
pub open spec fn native_enum_matches(e: Enum, node: NativeEnumNode, names: Seq<NameEntry>) -> bool {
    &&& e.name@ == node.name@
    &&& e.variants@.len() == node.variants@.len()
    &&& forall|i: int| 0 <= i < node.variants@.len() ==> native_variant_matches(
        #[trigger] e.variants@[i],
        node.variants@[i],
        names,
    )
    &&& docs_match(e.docs@, node.attributes@)
}

impl Enum {
    /// Converts a native enum declaration. Both front ends desugar into
    /// the same shape, so a definition written here and one written in the
    /// interface definition language yield structurally identical results.
    pub fn from_native(node: &NativeEnumNode, types: &mut TypeUniverse) -> (r: Result<
        Enum,
        ConversionError,
    >)
        ensures
            final(types).names@ == old(types).names@,
            r is Ok <==> docs_ok(node.attributes@) && native_variants_err_from(
                node.variants@,
                old(types).names@,
                0,
            ) is None,
            r is Ok ==> native_enum_matches(r->Ok_0, *node, old(types).names@),
            r is Err ==> r->Err_0.kind == if !docs_ok(node.attributes@) {
                ErrorKind::AttributeViolation
            } else {
                native_variants_err_from(node.variants@, old(types).names@, 0)->Some_0
            },
    {
        let docs = match parse_native_docs(&node.attributes) {
            Ok(d) => d,
            Err(e) => {
                return Err(e);
            },
        };
        let mut variants: Vec<Variant> = Vec::new();
        let mut i: usize = 0;
        let end = node.variants.len();
        while i < end
            invariant
                end == node.variants@.len(),
                i <= end,
                types.names@ == old(types).names@,
                docs_ok(node.attributes@),
                variants@.len() == i,
                forall|j: int| 0 <= j < i ==> native_variant_matches(
                    #[trigger] variants@[j],
                    node.variants@[j],
                    old(types).names@,
                ),
                native_variants_err_from(node.variants@, old(types).names@, 0)
                    == native_variants_err_from(node.variants@, old(types).names@, i as int),
            decreases end - i,
        {
            match Variant::from_native(&node.variants[i], types) {
                Ok(v) => {
                    variants.push(v);
                },
                Err(e) => {
                    return Err(e);
                },
            }
            i += 1;
        }
        Ok(Enum { name: node.name.clone(), variants, docs })
    }
}


/// Whether a plain string-list declaration and a native enum declaration
/// express the same logical content: the same name and the same variant
/// names in order, every native variant fieldless.
pub open spec fn plain_enum_corresponds(idl: EnumNode, native: NativeEnumNode) -> bool {
    &&& idl.name@ == native.name@
    &&& idl.values@.len() == native.variants@.len()
    &&& forall|i: int| 0 <= i < idl.values@.len() ==> idl.values@[i]@ == (
        #[trigger] native.variants@[i]).name@ && native.variants@[i].fields is Unit
}

/// A definition with identical logical content expressed through the two
/// different front ends converts to structurally identical results with
/// identical checksums, here for the plain enumeration form.
pub proof fn lemma_front_ends_agree_on_plain_enums(
    idl: EnumNode,
    native: NativeEnumNode,
    e1: Enum,
    e2: Enum,
    names: Seq<NameEntry>,
)
    requires
        plain_enum_corresponds(idl, native),
        plain_enum_matches(e1, idl),
        native_enum_matches(e2, native, names),
    ensures
        crate::checksum::enum_view_eq(e1, e2),
        crate::checksum::enum_checksum(e1) == crate::checksum::enum_checksum(e2),
{
    assert forall|i: int|
        0 <= i < e1.variants@.len() implies crate::checksum::variant_view_eq(
        e1.variants@[i],
        e2.variants@[i],
    ) by {
        assert(native_variant_matches(e2.variants@[i], native.variants@[i], names));
    }
    crate::checksum::lemma_enum_checksum_respects_content(e1, e2);
}


/// Whether two type expressions, one from each grammar, denote one type:
/// whatever each resolves to under the registered names, the canonical
/// names agree.
pub open spec fn type_exprs_agree(a: TypeExpr, b: TypeExpr, names: Seq<NameEntry>) -> bool {
    forall|t1: crate::types::CanonicalType, t2: crate::types::CanonicalType|
        #[trigger] resolves_to(a, names, t1) && #[trigger] resolves_to(b, names, t2)
            ==> crate::types::canon(t1) == crate::types::canon(t2)
}

/// Whether a variant-field declaration of the enum-interface form and a
/// native field declaration express the same logical content.
pub open spec fn field_decls_correspond(
    a: ArgNode,
    f: NativeFieldNode,
    names: Seq<NameEntry>,
) -> bool {
    &&& f.name matches Some(n) && a.name@ == n@
    &&& type_exprs_agree(a.type_, f.type_, names)
}

/// Whether an enum-interface member and a native variant declaration
/// express the same logical content: the repurposed return-type
/// identifier names the native variant, and the argument list is the
/// native field list.
pub open spec fn variant_decls_correspond(
    m: InterfaceMemberNode,
    v: NativeVariantNode,
    names: Seq<NameEntry>,
) -> bool {
    m matches InterfaceMemberNode::Operation(op) && (op.ret matches Some(TypeExpr::Ident(s))
        && s@ == v.name@) && match v.fields {
        NativeFieldsNode::Unit => op.args@.len() == 0,
        NativeFieldsNode::Unnamed => false,
        NativeFieldsNode::Named(fs) => fs@.len() == op.args@.len() && (forall|j: int|
            0 <= j < fs@.len() ==> field_decls_correspond(#[trigger] op.args@[j], fs@[j], names)),
    }
}

/// Whether a data-carrying enum-interface declaration and a native enum
/// declaration express the same logical content.
pub open spec fn data_enum_corresponds(
    idl: InterfaceNode,
    native: NativeEnumNode,
    names: Seq<NameEntry>,
) -> bool {
    &&& idl.name@ == native.name@
    &&& idl.members@.len() == native.variants@.len()
    &&& forall|i: int| 0 <= i < idl.members@.len() ==> variant_decls_correspond(
        #[trigger] idl.members@[i],
        native.variants@[i],
        names,
    )
}

/// A definition with identical logical content expressed through the two
/// different front ends converts to structurally identical results with
/// identical checksums, here for the data-carrying enum-interface form.
pub proof fn lemma_front_ends_agree_on_data_enums(
    idl: InterfaceNode,
    native: NativeEnumNode,
    e1: Enum,
    e2: Enum,
    names: Seq<NameEntry>,
)
    requires
        data_enum_corresponds(idl, native, names),
        enum_iface_matches(e1, idl, names),
        native_enum_matches(e2, native, names),
    ensures
        crate::checksum::enum_view_eq(e1, e2),
        crate::checksum::enum_checksum(e1) == crate::checksum::enum_checksum(e2),
{
    assert forall|i: int|
        0 <= i < e1.variants@.len() implies crate::checksum::variant_view_eq(
        e1.variants@[i],
        e2.variants@[i],
    ) by {
        let v1 = e1.variants@[i];
        let v2 = e2.variants@[i];
        assert(variant_decls_correspond(idl.members@[i], native.variants@[i], names));
        assert(native_variant_matches(v2, native.variants@[i], names));
        match idl.members@[i] {
            InterfaceMemberNode::Operation(op) => {
                assert(variant_op_matches(v1, op, names));
                match native.variants@[i].fields {
                    NativeFieldsNode::Named(fs) => {
                        assert forall|j: int|
                            0 <= j < v1.fields@.len() implies crate::checksum::field_view_eq(
                            v1.fields@[j],
                            v2.fields@[j],
                        ) by {
                            assert(field_decls_correspond(op.args@[j], fs@[j], names));
                            assert(enum_field_matches(v1.fields@[j], op.args@[j], names));
                            assert(native_field_matches(v2.fields@[j], fs@[j], names));
                            assert(resolves_to(op.args@[j].type_, names, v1.fields@[j].type_));
                            assert(resolves_to(fs@[j].type_, names, v2.fields@[j].type_));
                        }
                    },
                    _ => {},
                }
            },
            _ => {},
        }
    }
    crate::checksum::lemma_enum_checksum_respects_content(e1, e2);
}

} // verus!



