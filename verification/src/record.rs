use vstd::prelude::*;

use crate::ast::{DictMemberNode, DictionaryNode, Literal, TypeExpr};
use crate::error::{ConversionError, ErrorKind};
use crate::types::{
    resolvable, resolve_err_kind, resolves_to, NameEntry, CanonicalType, TypeUniverse,
};

verus! {

/// A named, typed field, as used by records and by enum variants.
/// Variant fields never carry defaults and are never required.
#[derive(Debug)]
pub struct Field {
    pub name: String,
    pub type_: CanonicalType,
    pub required: bool,
    pub default: Option<Literal>,
}

impl Field {
    pub fn name(&self) -> (r: &str)
        ensures
            r@ == self.name@,
    {
        self.name.as_str()
    }

    pub fn type_(&self) -> (r: CanonicalType)
        ensures
            r == self.type_,
    {
        self.type_.duplicate()
    }

    pub fn required(&self) -> (r: bool)
        ensures
            r == self.required,
    {
        self.required
    }
}

/// Whether the resolved type of `e` would be an object reference. Only a
/// plain name can resolve to one, so the check is syntactic.
pub open spec fn resolved_is_object(e: TypeExpr, names: Seq<NameEntry>) -> bool {
    match e {
        TypeExpr::Ident(s) => crate::types::scalar_of(s@) is None && crate::types::name_kind(
            names,
            s@,
        ) == Some(crate::types::NameKind::ObjectName),
        _ => false,
    }
}

/// Whether a dictionary member converts into a record field.
pub open spec fn dict_member_ok(m: DictMemberNode, names: Seq<NameEntry>) -> bool {
    &&& m.attributes@.len() == 0
    &&& resolvable(m.type_, names)
    &&& !resolved_is_object(m.type_, names)
    &&& !(m.default matches Some(Literal::Unsupported))
}

/// The error category a failing dictionary member reports.
pub open spec fn dict_member_err_kind(m: DictMemberNode, names: Seq<NameEntry>) -> ErrorKind {
    if m.attributes@.len() != 0 {
        ErrorKind::AttributeViolation
    } else if !resolvable(m.type_, names) {
        resolve_err_kind(m.type_, names)
    } else if resolved_is_object(m.type_, names) {
        ErrorKind::SemanticViolation
    } else {
        ErrorKind::UnsupportedSyntax
    }
}

/// Whether `f` is the field a dictionary member converts into.
pub open spec fn dict_member_matches(f: Field, m: DictMemberNode, names: Seq<NameEntry>) -> bool {
    &&& f.name@ == m.name@
    &&& resolves_to(m.type_, names, f.type_)
    &&& f.required == m.required
    &&& f.default == m.default
}

impl Field {
    /// Converts a dictionary member declaration into a record field.
    /// Object types cannot be embedded as record field data.
    pub fn from_dict_member(m: &DictMemberNode, types: &mut TypeUniverse) -> (r: Result<
        Field,
        ConversionError,
    >)
        ensures
            final(types).names@ == old(types).names@,
            r is Ok <==> dict_member_ok(*m, old(types).names@),
            r is Ok ==> dict_member_matches(r->Ok_0, *m, old(types).names@),
            r is Err ==> r->Err_0.kind == dict_member_err_kind(*m, old(types).names@),
    {
        if attrs_nonempty(m) {
            return Err(
                ConversionError::new(
                    ErrorKind::AttributeViolation,
                    "dictionary members must not have attributes",
                ),
            );
        }
        let type_ = match types.resolve_type_expression(&m.type_) {
            Ok(t) => t,
            Err(e) => {
                return Err(e);
            },
        };
        if type_.is_object() {
            proof {
                object_resolution_matches(m.type_, old(types).names@, type_);
            }
            return Err(
                ConversionError::new(
                    ErrorKind::SemanticViolation,
                    "objects cannot be used in record field data",
                ),
            );
        }
        proof {
            object_resolution_matches(m.type_, old(types).names@, type_);
        }
        let def = match &m.default {
            Some(l) => match l {
                Literal::Unsupported => {
                    return Err(
                        ConversionError::new(
                            ErrorKind::UnsupportedSyntax,
                            "unsupported default value form",
                        ),
                    );
                },
                _ => Some(l.duplicate()),
            },
            None => None,
        };
        Ok(Field { name: m.name.clone(), type_, required: m.required, default: def })
    }
}

/// A resolved type is an object reference exactly when the expression was a
/// plain name registered as an object.
pub proof fn object_resolution_matches(e: TypeExpr, names: Seq<NameEntry>, t: CanonicalType)
    requires
        resolves_to(e, names, t),
    ensures
        (t is Object) == resolved_is_object(e, names),
{
}

fn attrs_nonempty(m: &DictMemberNode) -> (r: bool)
    ensures
        r == (m.attributes@.len() != 0),
{
    m.attributes.len() != 0
}

/// A record: a named collection of named, typed fields, passed by value
/// across the boundary as a serialized buffer.
#[derive(Debug)]
pub struct Record {
    pub name: String,
    pub fields: Vec<Field>,
}

/// The first failing member's error category, scanning from `i` on.
pub open spec fn dict_members_err_from(
    ms: Seq<DictMemberNode>,
    names: Seq<NameEntry>,
    i: int,
) -> Option<ErrorKind>
    decreases ms.len() - i,
{
    if i < 0 || i >= ms.len() {
        None
    } else if !dict_member_ok(ms[i], names) {
        Some(dict_member_err_kind(ms[i], names))
    } else {
        dict_members_err_from(ms, names, i + 1)
    }
}

/// Whether `r` is the record a dictionary declaration converts into.
pub open spec fn record_matches(r: Record, node: DictionaryNode, names: Seq<NameEntry>) -> bool {
    &&& r.name@ == node.name@
    &&& r.fields@.len() == node.members@.len()
    &&& forall|i: int| 0 <= i < node.members@.len() ==> dict_member_matches(
        #[trigger] r.fields@[i],
        node.members@[i],
        names,
    )
}

impl Record {
    pub fn name(&self) -> (r: &str)
        ensures
            r@ == self.name@,
    {
        self.name.as_str()
    }

    pub fn fields(&self) -> (r: Vec<&Field>)
        ensures
            r@.len() == self.fields@.len(),
            forall|i: int| 0 <= i < r@.len() ==> *(#[trigger] r@[i]) == self.fields@[i],
    {
        let mut out: Vec<&Field> = Vec::new();
        let mut i: usize = 0;
        let end = self.fields.len();
        while i < end
            invariant
                end == self.fields@.len(),
                i <= end,
                out@.len() == i,
                forall|j: int| 0 <= j < i ==> *(#[trigger] out@[j]) == self.fields@[j],
            decreases end - i,
        {
            out.push(&self.fields[i]);
            i += 1;
        }
        out
    }

    /// Converts a dictionary declaration into a record.
    pub fn from_idl(node: &DictionaryNode, types: &mut TypeUniverse) -> (r: Result<
        Record,
        ConversionError,
    >)
        ensures
            final(types).names@ == old(types).names@,
            r is Ok <==> !node.inherits && dict_members_err_from(
                node.members@,
                old(types).names@,
                0,
            ) is None,
            r is Ok ==> record_matches(r->Ok_0, *node, old(types).names@),
            r is Err ==> r->Err_0.kind == if node.inherits {
                ErrorKind::UnsupportedSyntax
            } else {
                dict_members_err_from(node.members@, old(types).names@, 0)->Some_0
            },
    {
        if node.inherits {
            return Err(
                ConversionError::new(
                    ErrorKind::UnsupportedSyntax,
                    "dictionary inheritance is not supported",
                ),
            );
        }
        let mut fields: Vec<Field> = Vec::new();
        let mut i: usize = 0;
        let end = node.members.len();
        while i < end
            invariant
                !node.inherits,
                end == node.members@.len(),
                i <= end,
                types.names@ == old(types).names@,
                fields@.len() == i,
                forall|j: int| 0 <= j < i ==> dict_member_matches(
                    #[trigger] fields@[j],
                    node.members@[j],
                    old(types).names@,
                ),
                dict_members_err_from(node.members@, old(types).names@, 0)
                    == dict_members_err_from(node.members@, old(types).names@, i as int),
            decreases end - i,
        {
            match Field::from_dict_member(&node.members[i], types) {
                Ok(f) => {
                    fields.push(f);
                },
                Err(e) => {
                    return Err(e);
                },
            }
            i += 1;
        }
        Ok(Record { name: node.name.clone(), fields })
    }
}

} // verus!
