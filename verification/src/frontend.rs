//! The trusted transcription layer: it reads the syntax trees that the two
//! outside parsers produce and copies them, node for node, into the plain
//! node types of [`crate::ast`]. Nothing is decided here — every check and
//! every interpretation happens in the verified converters.

use vstd::prelude::*;

use crate::ast::{
    ArgNode, AttrNode, DefinitionNode, DictMemberNode, DictionaryNode, EnumNode,
    InterfaceMemberNode, InterfaceNode, Literal, NamespaceNode, NativeArgNode, NativeAttrNode,
    NativeEnumNode, NativeFieldNode, NativeFieldsNode, NativeImplItemNode, NativeImplNode,
    NativeItemNode, NativeMethodNode, NativeStructNode, NativeVariantNode, NativeVisNode,
    OperationNode, TypeExpr,
};

verus! {

/// The parse result of the interface definition language on given source
/// text: a name for it only, since it is a function of the text alone.
pub uninterp spec fn parsed_idl(src: Seq<char>) -> Option<Seq<DefinitionNode>>;

/// The parse result of the native grammar on given source text: a name
/// for it only, since it is a function of the text alone.
pub uninterp spec fn parsed_native(src: Seq<char>) -> Option<Seq<NativeItemNode>>;

/// Relies on weedle's syntax tree type `Definition`.
#[verifier::external_type_specification]
#[verifier::external_body]
pub struct ExIdlDefinition<'a>(weedle::Definition<'a>);

/// Relies on weedle's syntax tree type `EnumDefinition`.
#[verifier::external_type_specification]
#[verifier::external_body]
pub struct ExIdlEnumDefinition<'a>(weedle::EnumDefinition<'a>);

/// Relies on weedle's syntax tree type `InterfaceDefinition`.
#[verifier::external_type_specification]
#[verifier::external_body]
pub struct ExIdlInterfaceDefinition<'a>(weedle::InterfaceDefinition<'a>);

/// Relies on weedle's syntax tree type `NamespaceDefinition`.
#[verifier::external_type_specification]
#[verifier::external_body]
pub struct ExIdlNamespaceDefinition<'a>(weedle::NamespaceDefinition<'a>);

/// Relies on weedle's syntax tree type `DictionaryDefinition`.
#[verifier::external_type_specification]
#[verifier::external_body]
pub struct ExIdlDictionaryDefinition<'a>(weedle::DictionaryDefinition<'a>);

/// Relies on weedle's syntax tree type `InterfaceMember`.
#[verifier::external_type_specification]
#[verifier::external_body]
pub struct ExIdlInterfaceMember<'a>(weedle::interface::InterfaceMember<'a>);

/// Relies on weedle's syntax tree type `OperationInterfaceMember`.
#[verifier::external_type_specification]
#[verifier::external_body]
pub struct ExIdlOperationMember<'a>(weedle::interface::OperationInterfaceMember<'a>);

/// Relies on weedle's syntax tree type `OperationNamespaceMember`.
#[verifier::external_type_specification]
#[verifier::external_body]
pub struct ExIdlNamespaceOperation<'a>(weedle::namespace::OperationNamespaceMember<'a>);

/// Relies on weedle's syntax tree type `DictionaryMember`.
#[verifier::external_type_specification]
#[verifier::external_body]
pub struct ExIdlDictionaryMember<'a>(weedle::dictionary::DictionaryMember<'a>);

/// Relies on weedle's syntax tree type `Type`.
#[verifier::external_type_specification]
#[verifier::external_body]
pub struct ExIdlType<'a>(weedle::types::Type<'a>);

/// Relies on weedle's syntax tree type `NonAnyType`.
#[verifier::external_type_specification]
#[verifier::external_body]
pub struct ExIdlNonAnyType<'a>(weedle::types::NonAnyType<'a>);

/// Relies on weedle's syntax tree type `ReturnType`.
#[verifier::external_type_specification]
#[verifier::external_body]
pub struct ExIdlReturnType<'a>(weedle::types::ReturnType<'a>);

/// Relies on weedle's syntax tree type `ConstructorInterfaceMember`.
#[verifier::external_type_specification]
#[verifier::external_body]
pub struct ExIdlConstructorMember<'a>(weedle::interface::ConstructorInterfaceMember<'a>);

/// Relies on weedle's syntax tree type `VariadicArgument`.
#[verifier::external_type_specification]
#[verifier::external_body]
pub struct ExIdlVariadicArgument<'a>(weedle::argument::VariadicArgument<'a>);

/// Relies on weedle's syntax tree type `SingleArgument`.
#[verifier::external_type_specification]
#[verifier::external_body]
pub struct ExIdlSingleArgument<'a>(weedle::argument::SingleArgument<'a>);

/// Relies on weedle's syntax tree type `ExtendedAttribute`.
#[verifier::external_type_specification]
#[verifier::external_body]
pub struct ExIdlExtendedAttribute<'a>(weedle::attribute::ExtendedAttribute<'a>);

/// Relies on weedle's syntax tree type `DefaultValue`.
#[verifier::external_type_specification]
#[verifier::external_body]
pub struct ExIdlDefaultValue<'a>(weedle::literal::DefaultValue<'a>);

/// Relies on weedle's `Definitions::parse`: the interface definition
/// source, parsed into its syntax tree, transcribed definition by
/// definition. A source the grammar rejects, or one with trailing text
/// the grammar cannot consume, reports an error with no detail; the
/// crate's `weedle::parse` convenience function is avoided because it
/// panics on such a remainder instead of returning it.
#[verifier::external_body]
pub(crate) fn parse_idl(src: &str) -> (r: Result<Vec<DefinitionNode>, ()>)
    ensures
        r matches Ok(d) ==> parsed_idl(src@) == Some(d@),
        r is Err ==> parsed_idl(src@) is None,
{
    match <weedle::Definitions as weedle::Parse>::parse(src) {
        Ok((remaining, defs)) => if remaining.is_empty() {
            Ok(defs.iter().map(def_node).collect())
        } else {
            Err(())
        },
        Err(_) => Err(()),
    }
}

/// Relies on weedle's `Definition`: one arm per definition kind.
#[verifier::external_body]
fn def_node(d: &weedle::Definition) -> DefinitionNode {
    match d {
        weedle::Definition::Enum(e) => DefinitionNode::EnumDef(enum_node(e)),
        weedle::Definition::Interface(i) => DefinitionNode::InterfaceDef(interface_node(i)),
        weedle::Definition::Namespace(n) => DefinitionNode::NamespaceDef(namespace_node(n)),
        weedle::Definition::Dictionary(dd) => DefinitionNode::DictionaryDef(dictionary_node(dd)),
        _ => DefinitionNode::Unsupported,
    }
}

/// Relies on weedle's `EnumDefinition`: the identifier and the value list.
#[verifier::external_body]
fn enum_node(d: &weedle::EnumDefinition) -> EnumNode {
    EnumNode {
        name: d.identifier.0.to_string(),
        values: d.values.body.list.iter().map(|v| v.0.to_string()).collect(),
    }
}

/// Relies on weedle's `InterfaceDefinition`: attributes, identifier,
/// inheritance marker and member list.
#[verifier::external_body]
fn interface_node(d: &weedle::InterfaceDefinition) -> InterfaceNode {
    InterfaceNode {
        attributes: d.attributes.iter().flat_map(|l| l.body.list.iter()).map(attr_node).collect(),
        name: d.identifier.0.to_string(),
        inherits: d.inheritance.is_some(),
        members: d.members.body.iter().map(member_node).collect(),
    }
}

/// Relies on weedle's `NamespaceDefinition`: the identifier and the
/// operation members; any other member kind is marked, not dropped.
#[verifier::external_body]
fn namespace_node(d: &weedle::NamespaceDefinition) -> NamespaceNode {
    let mut operations = Vec::new();
    let mut unsupported_member = false;
    for m in &d.members.body {
        match m {
            weedle::namespace::NamespaceMember::Operation(o) => operations.push(ns_operation_node(o)),
            _ => unsupported_member = true,
        }
    }
    NamespaceNode { name: d.identifier.0.to_string(), operations, unsupported_member }
}

/// Relies on weedle's `DictionaryDefinition`: identifier, inheritance
/// marker and member list.
#[verifier::external_body]
fn dictionary_node(d: &weedle::DictionaryDefinition) -> DictionaryNode {
    DictionaryNode {
        name: d.identifier.0.to_string(),
        inherits: d.inheritance.is_some(),
        members: d.members.body.iter().map(dict_member_node).collect(),
    }
}

/// Relies on weedle's `DictionaryMember`: attributes, required marker,
/// type, identifier and default.
#[verifier::external_body]
fn dict_member_node(m: &weedle::dictionary::DictionaryMember) -> DictMemberNode {
    DictMemberNode {
        attributes: m.attributes.iter().flat_map(|l| l.body.list.iter()).map(attr_node).collect(),
        required: m.required.is_some(),
        type_: idl_type_node(&m.type_),
        name: m.identifier.0.to_string(),
        default: m.default.as_ref().map(|d| lit_node(&d.value)),
    }
}

/// Relies on weedle's `InterfaceMember`: one arm per member kind.
#[verifier::external_body]
fn member_node(m: &weedle::interface::InterfaceMember) -> InterfaceMemberNode {
    match m {
        weedle::interface::InterfaceMember::Constructor(c) => InterfaceMemberNode::Constructor {
            attributes: c.attributes.iter().flat_map(|l| l.body.list.iter()).map(attr_node).collect(),
            args: (0..c.args.body.list.len()).map(|i| ctor_arg_at(c, i)).collect(),
        },
        weedle::interface::InterfaceMember::Operation(o) => InterfaceMemberNode::Operation(
            operation_node(o),
        ),
        _ => InterfaceMemberNode::Unsupported,
    }
}

/// Relies on weedle's `OperationInterfaceMember`: attributes, modifier,
/// special marker, return type, identifier and argument list.
#[verifier::external_body]
fn operation_node(o: &weedle::interface::OperationInterfaceMember) -> OperationNode {
    OperationNode {
        attributes: o.attributes.iter().flat_map(|l| l.body.list.iter()).map(attr_node).collect(),
        stringifier: matches!(
            o.modifier,
            Some(weedle::interface::StringifierOrStatic::Stringifier(_)),
        ),
        static_: matches!(o.modifier, Some(weedle::interface::StringifierOrStatic::Static(_))),
        special: o.special.is_some(),
        ret: ret_node(&o.return_type),
        name: o.identifier.as_ref().map(|i| i.0.to_string()),
        args: (0..o.args.body.list.len()).map(|i| op_arg_at(o, i)).collect(),
    }
}

/// Relies on weedle's `OperationNamespaceMember`, which has no modifier
/// and no special marker in the grammar.
#[verifier::external_body]
fn ns_operation_node(o: &weedle::namespace::OperationNamespaceMember) -> OperationNode {
    OperationNode {
        attributes: o.attributes.iter().flat_map(|l| l.body.list.iter()).map(attr_node).collect(),
        stringifier: false,
        static_: false,
        special: false,
        ret: ret_node(&o.return_type),
        name: o.identifier.as_ref().map(|i| i.0.to_string()),
        args: (0..o.args.body.list.len()).map(|i| ns_arg_at(o, i)).collect(),
    }
}

/// Relies on weedle's `ReturnType`: void or a type.
#[verifier::external_body]
fn ret_node(r: &weedle::types::ReturnType) -> Option<TypeExpr> {
    match r {
        weedle::types::ReturnType::Void(_) => None,
        weedle::types::ReturnType::Type(t) => Some(idl_type_node(t)),
    }
}

/// Relies on weedle's `Type`: only single non-any types are carried.
#[verifier::external_body]
fn idl_type_node(t: &weedle::types::Type) -> TypeExpr {
    match t {
        weedle::types::Type::Single(weedle::types::SingleType::NonAny(n)) => nonany_node(n),
        _ => TypeExpr::Unsupported,
    }
}

/// Relies on weedle's `NonAnyType`: identifiers, the boolean keyword and
/// sequences, each possibly marked nullable.
#[verifier::external_body]
fn nonany_node(n: &weedle::types::NonAnyType) -> TypeExpr {
    match n {
        weedle::types::NonAnyType::Identifier(m) => may_wrap(
            TypeExpr::Ident(m.type_.0.to_string()),
            m.q_mark.is_some(),
        ),
        weedle::types::NonAnyType::Boolean(m) => may_wrap(
            TypeExpr::Ident("boolean".to_string()),
            m.q_mark.is_some(),
        ),
        weedle::types::NonAnyType::Sequence(m) => may_wrap(
            TypeExpr::Sequence(Box::new(idl_type_node(&m.type_.generics.body))),
            m.q_mark.is_some(),
        ),
        _ => TypeExpr::Unsupported,
    }
}

/// Wraps a transcribed type in the nullable marker when the source wrote
/// one.
fn may_wrap(e: TypeExpr, nullable: bool) -> TypeExpr {
    if nullable {
        TypeExpr::Nullable(Box::new(e))
    } else {
        e
    }
}

/// Relies on weedle's `OperationInterfaceMember` and `Argument`: hands
/// the argument at one position on, one arm per argument kind.
#[verifier::external_body]
fn op_arg_at(o: &weedle::interface::OperationInterfaceMember, i: usize) -> ArgNode {
    match o.args.body.list.get(i) {
        Some(weedle::argument::Argument::Single(s)) => single_arg_node(s),
        Some(weedle::argument::Argument::Variadic(v)) => variadic_arg_node(v),
        None => variadic_placeholder(),
    }
}

/// Relies on weedle's `OperationNamespaceMember` and `Argument`: hands
/// the argument at one position on, one arm per argument kind.
#[verifier::external_body]
fn ns_arg_at(o: &weedle::namespace::OperationNamespaceMember, i: usize) -> ArgNode {
    match o.args.body.list.get(i) {
        Some(weedle::argument::Argument::Single(s)) => single_arg_node(s),
        Some(weedle::argument::Argument::Variadic(v)) => variadic_arg_node(v),
        None => variadic_placeholder(),
    }
}

/// Relies on weedle's `ConstructorInterfaceMember` and `Argument`: hands
/// the argument at one position on, one arm per argument kind.
#[verifier::external_body]
fn ctor_arg_at(c: &weedle::interface::ConstructorInterfaceMember, i: usize) -> ArgNode {
    match c.args.body.list.get(i) {
        Some(weedle::argument::Argument::Single(s)) => single_arg_node(s),
        Some(weedle::argument::Argument::Variadic(v)) => variadic_arg_node(v),
        None => variadic_placeholder(),
    }
}

/// The node an out-of-range argument position yields; it can never be
/// reached, and it converts to nothing.
fn variadic_placeholder() -> ArgNode {
    ArgNode {
        variadic: true,
        attributes: Vec::new(),
        optional: false,
        type_: TypeExpr::Unsupported,
        name: String::new(),
        default: None,
    }
}

/// Relies on weedle's `VariadicArgument`: its type and identifier.
#[verifier::external_body]
fn variadic_arg_node(v: &weedle::argument::VariadicArgument) -> ArgNode {
    ArgNode {
        variadic: true,
        attributes: Vec::new(),
        optional: false,
        type_: idl_type_node(&v.type_),
        name: v.identifier.0.to_string(),
        default: None,
    }
}

/// Relies on weedle's `SingleArgument`: attributes, optional marker,
/// type, identifier and default.
#[verifier::external_body]
fn single_arg_node(s: &weedle::argument::SingleArgument) -> ArgNode {
    ArgNode {
        variadic: false,
        attributes: s.attributes.iter().flat_map(|l| l.body.list.iter()).map(attr_node).collect(),
        optional: s.optional.is_some(),
        type_: idl_type_node(&s.type_.type_),
        name: s.identifier.0.to_string(),
        default: s.default.as_ref().map(|d| lit_node(&d.value)),
    }
}

/// Relies on weedle's `ExtendedAttribute`: bare words and identifier
/// assignments are carried, other forms marked.
#[verifier::external_body]
fn attr_node(a: &weedle::attribute::ExtendedAttribute) -> AttrNode {
    match a {
        weedle::attribute::ExtendedAttribute::NoArgs(n) => AttrNode::Word(n.0.0.to_string()),
        weedle::attribute::ExtendedAttribute::Ident(i) => AttrNode::Assigned(
            i.lhs_identifier.0.to_string(),
            match &i.rhs {
                weedle::attribute::IdentifierOrString::Identifier(x) => x.0.to_string(),
                weedle::attribute::IdentifierOrString::String(s) => s.0.to_string(),
            },
        ),
        _ => AttrNode::Unsupported,
    }
}

/// Relies on weedle's `DefaultValue`: one arm per literal kind.
#[verifier::external_body]
fn lit_node(d: &weedle::literal::DefaultValue) -> Literal {
    match d {
        weedle::literal::DefaultValue::Boolean(b) => Literal::Boolean(b.0),
        weedle::literal::DefaultValue::String(s) => Literal::Str(s.0.to_string()),
        weedle::literal::DefaultValue::Integer(weedle::literal::IntegerLit::Dec(x)) => Literal::Number(x.0.to_string()),
        weedle::literal::DefaultValue::Integer(weedle::literal::IntegerLit::Hex(x)) => Literal::Number(x.0.to_string()),
        weedle::literal::DefaultValue::Integer(weedle::literal::IntegerLit::Oct(x)) => Literal::Number(x.0.to_string()),
        weedle::literal::DefaultValue::EmptyArray(_) => Literal::EmptyList,
        weedle::literal::DefaultValue::Null(_) => Literal::Null,
        _ => Literal::Unsupported,
    }
}

/// Relies on syn's syntax tree type `Item`.
#[verifier::external_type_specification]
#[verifier::external_body]
pub struct ExNativeItem(syn::Item);

/// Relies on syn's syntax tree type `ItemEnum`.
#[verifier::external_type_specification]
#[verifier::external_body]
pub struct ExNativeItemEnum(syn::ItemEnum);

/// Relies on syn's syntax tree type `ItemStruct`.
#[verifier::external_type_specification]
#[verifier::external_body]
pub struct ExNativeItemStruct(syn::ItemStruct);

/// Relies on syn's syntax tree type `ItemImpl`.
#[verifier::external_type_specification]
#[verifier::external_body]
pub struct ExNativeItemImpl(syn::ItemImpl);

/// Relies on syn's syntax tree type `Visibility`.
#[verifier::external_type_specification]
#[verifier::external_body]
pub struct ExNativeVisibility(syn::Visibility);

/// Relies on syn's syntax tree type `Attribute`.
#[verifier::external_type_specification]
#[verifier::external_body]
pub struct ExNativeAttribute(syn::Attribute);

/// Relies on syn's syntax tree type `ImplItem`.
#[verifier::external_type_specification]
#[verifier::external_body]
pub struct ExNativeImplItem(syn::ImplItem);

/// Relies on syn's syntax tree type `ImplItemMethod`.
#[verifier::external_type_specification]
#[verifier::external_body]
pub struct ExNativeImplItemMethod(syn::ImplItemMethod);

/// Relies on syn's syntax tree type `PatType`.
#[verifier::external_type_specification]
#[verifier::external_body]
pub struct ExNativePatType(syn::PatType);

/// Relies on syn's syntax tree type `Type`.
#[verifier::external_type_specification]
#[verifier::external_body]
pub struct ExNativeType(syn::Type);

/// Relies on syn's syntax tree type `Path`.
#[verifier::external_type_specification]
#[verifier::external_body]
pub struct ExNativePath(syn::Path);

/// Relies on syn::parse_file: the native source, parsed into its syntax
/// tree, transcribed item by item.
#[verifier::external_body]
pub(crate) fn parse_native(src: &str) -> (r: Result<Vec<NativeItemNode>, ()>)
    ensures
        r matches Ok(d) ==> parsed_native(src@) == Some(d@),
        r is Err ==> parsed_native(src@) is None,
{
    match syn::parse_file(src) {
        Ok(f) => Ok(f.items.iter().map(item_node).collect()),
        Err(_) => Err(()),
    }
}

/// Relies on syn's `Item`: one arm per item kind.
#[verifier::external_body]
fn item_node(i: &syn::Item) -> NativeItemNode {
    match i {
        syn::Item::Enum(e) => NativeItemNode::EnumItem(native_enum_node(e)),
        syn::Item::Struct(s) => NativeItemNode::StructItem(native_struct_node(s)),
        syn::Item::Impl(im) => NativeItemNode::ImplItem(native_impl_node(im)),
        _ => NativeItemNode::Unsupported,
    }
}

/// Relies on syn's `ItemEnum`: attributes, identifier and variants.
#[verifier::external_body]
fn native_enum_node(e: &syn::ItemEnum) -> NativeEnumNode {
    NativeEnumNode {
        attributes: e.attrs.iter().map(native_attr_node).collect(),
        name: e.ident.to_string(),
        variants: (0..e.variants.len()).map(|vi| native_variant_at(e, vi)).collect(),
    }
}

/// Relies on syn's `ItemStruct`: attributes and identifier; the struct's
/// own fields never reach the model.
#[verifier::external_body]
fn native_struct_node(st: &syn::ItemStruct) -> NativeStructNode {
    NativeStructNode {
        attributes: st.attrs.iter().map(native_attr_node).collect(),
        name: st.ident.to_string(),
    }
}

/// Relies on syn's `ItemImpl`: the implemented type's plain name, when it
/// has one, and the item list.
#[verifier::external_body]
fn native_impl_node(im: &syn::ItemImpl) -> NativeImplNode {
    NativeImplNode {
        self_name: match &*im.self_ty {
            syn::Type::Path(p) => p.path.get_ident().map(|i| i.to_string()),
            _ => None,
        },
        items: im.items.iter().map(impl_item_node).collect(),
    }
}

/// Relies on syn's `ItemEnum` and `Variant`: the variant at one position,
/// its attributes, identifier, discriminant marker and field shape.
#[verifier::external_body]
fn native_variant_at(e: &syn::ItemEnum, vi: usize) -> NativeVariantNode {
    match e.variants.iter().nth(vi) {
        Some(v) => NativeVariantNode {
            attributes: v.attrs.iter().map(native_attr_node).collect(),
            name: v.ident.to_string(),
            has_discriminant: v.discriminant.is_some(),
            fields: native_variant_fields_at(e, vi),
        },
        None => NativeVariantNode {
            attributes: Vec::new(),
            name: String::new(),
            has_discriminant: true,
            fields: NativeFieldsNode::Unnamed,
        },
    }
}

/// Relies on syn's `Fields`: the field list shape of the variant at one
/// position, one arm per shape.
#[verifier::external_body]
fn native_variant_fields_at(e: &syn::ItemEnum, vi: usize) -> NativeFieldsNode {
    match e.variants.iter().nth(vi).map(|v| &v.fields) {
        Some(syn::Fields::Unit) => NativeFieldsNode::Unit,
        Some(syn::Fields::Named(f)) => NativeFieldsNode::Named(
            (0..f.named.len()).map(|fi| native_field_at(e, vi, fi)).collect(),
        ),
        _ => NativeFieldsNode::Unnamed,
    }
}

/// Relies on syn's `Field`: the named field at one position, its
/// attributes, visibility, name and type.
#[verifier::external_body]
fn native_field_at(e: &syn::ItemEnum, vi: usize, fi: usize) -> NativeFieldNode {
    let found = e.variants.iter().nth(vi).and_then(|v| match &v.fields {
        syn::Fields::Named(f) => f.named.iter().nth(fi),
        _ => None,
    });
    match found {
        Some(f) => NativeFieldNode {
            attributes: f.attrs.iter().map(native_attr_node).collect(),
            vis: vis_node(&f.vis),
            name: f.ident.as_ref().map(|i| i.to_string()),
            type_: native_type_node(&f.ty),
        },
        None => placeholder_field_node(),
    }
}

/// The node an out-of-range field position yields; it can never be
/// reached, and it converts to nothing.
fn placeholder_field_node() -> NativeFieldNode {
    NativeFieldNode {
        attributes: Vec::new(),
        vis: NativeVisNode::Restricted,
        name: None,
        type_: TypeExpr::Unsupported,
    }
}

/// Relies on syn's `Visibility`: one arm per visibility kind.
#[verifier::external_body]
fn vis_node(v: &syn::Visibility) -> NativeVisNode {
    match v {
        syn::Visibility::Public(_) => NativeVisNode::Public,
        syn::Visibility::Inherited => NativeVisNode::Inherited,
        _ => NativeVisNode::Restricted,
    }
}

/// Relies on syn's `Attribute` and `Meta`: a name given a string value is
/// carried, every other form marked.
#[verifier::external_body]
fn native_attr_node(a: &syn::Attribute) -> NativeAttrNode {
    match (a.path.get_ident(), a.parse_meta()) {
        (Some(id), Ok(syn::Meta::NameValue(nv))) => match nv.lit {
            syn::Lit::Str(s) => NativeAttrNode::NameValueStr(id.to_string(), s.value()),
            _ => NativeAttrNode::Unsupported,
        },
        _ => NativeAttrNode::Unsupported,
    }
}

/// Relies on syn's `ImplItem`: one arm per item kind.
#[verifier::external_body]
fn impl_item_node(it: &syn::ImplItem) -> NativeImplItemNode {
    match it {
        syn::ImplItem::Method(m) => NativeImplItemNode::Method(native_method_node(m)),
        _ => NativeImplItemNode::Unsupported,
    }
}

/// Relies on syn's `ImplItemMethod` and `Signature`: attributes, name,
/// variadic marker, receiver presence, typed arguments and output.
#[verifier::external_body]
fn native_method_node(m: &syn::ImplItemMethod) -> NativeMethodNode {
    NativeMethodNode {
        attributes: m.attrs.iter().map(native_attr_node).collect(),
        name: m.sig.ident.to_string(),
        variadic: m.sig.variadic.is_some(),
        has_receiver: m.sig.receiver().is_some(),
        args: m.sig.inputs.iter().filter_map(|a| match a {
            syn::FnArg::Receiver(_) => None,
            syn::FnArg::Typed(pt) => Some(native_arg_node(pt)),
        }).collect(),
        ret: match &m.sig.output {
            syn::ReturnType::Default => None,
            syn::ReturnType::Type(_, t) => Some(native_type_node(t)),
        },
    }
}

/// Relies on syn's `PatType`: the binding's plain name, when it has one,
/// a reference marker, and the type behind it.
#[verifier::external_body]
fn native_arg_node(pt: &syn::PatType) -> NativeArgNode {
    let (by_ref, ty) = match &*pt.ty {
        syn::Type::Reference(r) => (true, &*r.elem),
        t => (false, t),
    };
    NativeArgNode {
        name: match &*pt.pat {
            syn::Pat::Ident(p) => Some(p.ident.to_string()),
            _ => None,
        },
        by_ref,
        type_: native_type_node(ty),
    }
}

/// Relies on syn's `Type`: plain names, paths, tuples and references are
/// carried structurally, other forms marked.
#[verifier::external_body]
fn native_type_node(t: &syn::Type) -> TypeExpr {
    match t {
        syn::Type::Path(p) => match p.path.get_ident() {
            Some(id) => TypeExpr::Ident(id.to_string()),
            None => path_node(&p.path),
        },
        syn::Type::Tuple(tp) => TypeExpr::Tuple(tp.elems.iter().map(native_type_node).collect()),
        syn::Type::Reference(r) => native_type_node(&r.elem),
        _ => TypeExpr::Unsupported,
    }
}

/// Relies on syn's `Path` and `PathArguments`: the last segment's name
/// and its type arguments, carried as a generic application.
#[verifier::external_body]
fn path_node(path: &syn::Path) -> TypeExpr {
    let seg = match path.segments.last() {
        Some(s) => s,
        None => return TypeExpr::Unsupported,
    };
    let args = match &seg.arguments {
        syn::PathArguments::None => Vec::new(),
        syn::PathArguments::AngleBracketed(a) => a.args.iter().map(|g| match g {
            syn::GenericArgument::Type(t) => native_type_node(t),
            _ => TypeExpr::Unsupported,
        }).collect(),
        _ => return TypeExpr::Unsupported,
    };
    TypeExpr::Apply(seg.ident.to_string(), args)
}

} // verus!
