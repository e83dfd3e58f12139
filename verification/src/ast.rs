use vstd::prelude::*;

verus! {

/// A default-value literal as written in a declaration.
#[derive(Debug)]
pub enum Literal {
    Boolean(bool),
    Str(String),
    /// A numeric literal, kept as its source text.
    Number(String),
    EmptyList,
    Null,
    /// A literal form outside the supported subset.
    Unsupported,
}

/// A source type expression, reduced to the shape the model reads.
///
/// Both front-end grammars transcribe into this one shape: the interface
/// definition language writes `u32?` and `sequence<string>`, the native
/// syntax writes `Option<u32>` and `Vec<String>`.
#[derive(Debug)]
pub enum TypeExpr {
    /// A plain type name: a scalar keyword or a user-defined name.
    Ident(String),
    /// An optional type: `T?` or `Option<T>`.
    Nullable(Box<TypeExpr>),
    /// A sequence type as the interface definition language writes it:
    /// `sequence<T>`.
    Sequence(Box<TypeExpr>),
    /// A generic application as the native syntax writes it: a name and
    /// its type arguments, `Option<T>`, `Vec<T>`, `Result<T, E>`.
    Apply(String, Vec<TypeExpr>),
    /// A tuple type of the native syntax; only the empty tuple, the void
    /// return, is meaningful.
    Tuple(Vec<TypeExpr>),
    /// A type syntax outside the supported subset.
    Unsupported,
}

/// A bracket-style or keyword modifier as written in the source.
#[derive(Debug)]
pub enum AttrNode {
    /// A bare modifier, e.g. `[Enum]`, `[Threadsafe]`, `[ByRef]`.
    Word(String),
    /// An assigned modifier, e.g. `[Throws=DemoError]`.
    Assigned(String, String),
    /// A modifier form outside the supported subset.
    Unsupported,
}

/// One argument of an operation or constructor declaration.
#[derive(Debug)]
pub struct ArgNode {
    pub variadic: bool,
    pub attributes: Vec<AttrNode>,
    pub optional: bool,
    pub type_: TypeExpr,
    pub name: String,
    pub default: Option<Literal>,
}

/// An operation member of an interface or namespace declaration.
#[derive(Debug)]
pub struct OperationNode {
    pub attributes: Vec<AttrNode>,
    pub stringifier: bool,
    pub static_: bool,
    pub special: bool,
    /// The declared return type; absent for `void`.
    pub ret: Option<TypeExpr>,
    /// The operation name; anonymous operations have none.
    pub name: Option<String>,
    pub args: Vec<ArgNode>,
}

/// One member of an interface declaration.
#[derive(Debug)]
pub enum InterfaceMemberNode {
    Constructor { attributes: Vec<AttrNode>, args: Vec<ArgNode> },
    Operation(OperationNode),
    /// A member kind outside the supported subset.
    Unsupported,
}

/// A plain string-list enum declaration.
#[derive(Debug)]
pub struct EnumNode {
    pub name: String,
    pub values: Vec<String>,
}

/// An interface declaration: an object, or with the `[Enum]` modifier a
/// data-carrying enum.
#[derive(Debug)]
pub struct InterfaceNode {
    pub attributes: Vec<AttrNode>,
    pub name: String,
    pub inherits: bool,
    pub members: Vec<InterfaceMemberNode>,
}

/// A namespace declaration holding the free-standing functions.
#[derive(Debug)]
pub struct NamespaceNode {
    pub name: String,
    pub operations: Vec<OperationNode>,
    /// True when the declaration also held a member kind outside the
    /// supported subset.
    pub unsupported_member: bool,
}

/// One member of a dictionary declaration.
#[derive(Debug)]
pub struct DictMemberNode {
    pub attributes: Vec<AttrNode>,
    pub required: bool,
    pub type_: TypeExpr,
    pub name: String,
    pub default: Option<Literal>,
}

/// A dictionary declaration: a record of named, typed fields.
#[derive(Debug)]
pub struct DictionaryNode {
    pub name: String,
    pub inherits: bool,
    pub members: Vec<DictMemberNode>,
}

/// One top-level definition of the interface definition language.
#[derive(Debug)]
pub enum DefinitionNode {
    EnumDef(EnumNode),
    InterfaceDef(InterfaceNode),
    NamespaceDef(NamespaceNode),
    DictionaryDef(DictionaryNode),
    /// A definition kind outside the supported subset.
    Unsupported,
}

/// An attribute of a native declaration, reduced to the one form the
/// model reads: a name given a string value, which is how doc comments
/// arrive.
#[derive(Debug)]
pub enum NativeAttrNode {
    NameValueStr(String, String),
    /// Any other attribute form.
    Unsupported,
}

/// The visibility written on a native field.
#[derive(Debug)]
pub enum NativeVisNode {
    Public,
    Restricted,
    Inherited,
}

/// A field of a native enum variant.
#[derive(Debug)]
pub struct NativeFieldNode {
    pub attributes: Vec<NativeAttrNode>,
    pub vis: NativeVisNode,
    /// The field name; tuple fields have none.
    pub name: Option<String>,
    pub type_: TypeExpr,
}

/// The field list of a native enum variant.
#[derive(Debug)]
pub enum NativeFieldsNode {
    Unit,
    Unnamed,
    Named(Vec<NativeFieldNode>),
}

/// A variant of a native enum declaration.
#[derive(Debug)]
pub struct NativeVariantNode {
    pub attributes: Vec<NativeAttrNode>,
    pub name: String,
    pub has_discriminant: bool,
    pub fields: NativeFieldsNode,
}

/// A native enum declaration.
#[derive(Debug)]
pub struct NativeEnumNode {
    pub attributes: Vec<NativeAttrNode>,
    pub name: String,
    pub variants: Vec<NativeVariantNode>,
}

/// A native struct declaration; only its name and attributes matter, its
/// members arrive through later implementation blocks.
#[derive(Debug)]
pub struct NativeStructNode {
    pub attributes: Vec<NativeAttrNode>,
    pub name: String,
}

/// An argument of a native method, the receiver excluded.
#[derive(Debug)]
pub struct NativeArgNode {
    /// The binding's name, when the pattern is a plain name.
    pub name: Option<String>,
    pub by_ref: bool,
    pub type_: TypeExpr,
}

/// A method of a native implementation block.
#[derive(Debug)]
pub struct NativeMethodNode {
    pub attributes: Vec<NativeAttrNode>,
    pub name: String,
    pub variadic: bool,
    pub has_receiver: bool,
    pub args: Vec<NativeArgNode>,
    /// The declared return type; absent when the signature has none.
    pub ret: Option<TypeExpr>,
}

/// One item of a native implementation block.
#[derive(Debug)]
pub enum NativeImplItemNode {
    Method(NativeMethodNode),
    /// An item kind outside the supported subset.
    Unsupported,
}

/// A native implementation block, attaching members to a named object.
#[derive(Debug)]
pub struct NativeImplNode {
    /// The implemented type's name, when it is a plain name.
    pub self_name: Option<String>,
    pub items: Vec<NativeImplItemNode>,
}

/// One top-level item of the native front end.
#[derive(Debug)]
pub enum NativeItemNode {
    EnumItem(NativeEnumNode),
    StructItem(NativeStructNode),
    ImplItem(NativeImplNode),
    /// An item kind outside the supported subset.
    Unsupported,
}


impl Literal {
    /// An equal copy of this literal.
    pub fn duplicate(&self) -> (r: Self)
        ensures
            r == *self,
    {
        match self {
            Literal::Boolean(b) => Literal::Boolean(*b),
            Literal::Str(s) => Literal::Str(s.clone()),
            Literal::Number(s) => Literal::Number(s.clone()),
            Literal::EmptyList => Literal::EmptyList,
            Literal::Null => Literal::Null,
            Literal::Unsupported => Literal::Unsupported,
        }
    }
}

} // verus!

