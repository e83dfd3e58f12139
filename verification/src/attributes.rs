use vstd::prelude::*;

use crate::ast::{AttrNode, NativeAttrNode};
use crate::error::{ConversionError, ErrorKind};
use crate::text::str_eq;

verus! {

/// Whether every modifier in the list is a `Throws` assignment, the only
/// modifier legal on callables.
pub open spec fn throws_attrs_ok(attrs: Seq<AttrNode>) -> bool {
    forall|i: int| 0 <= i < attrs.len() ==> ((#[trigger] attrs[i]) matches AttrNode::Assigned(k, _)
        && k@ == "Throws"@)
}

/// The first `Throws` assignment's error name, scanning from index `i` on.
pub open spec fn first_throws_from(attrs: Seq<AttrNode>, i: int) -> Option<String>
    decreases attrs.len() - i,
{
    if i < 0 || i >= attrs.len() {
        None
    } else {
        match attrs[i] {
            AttrNode::Assigned(k, v) => if k@ == "Throws"@ {
                Some(v)
            } else {
                first_throws_from(attrs, i + 1)
            },
            _ => first_throws_from(attrs, i + 1),
        }
    }
}

/// The declared error type of a callable's modifier list, if any.
pub open spec fn spec_throws(attrs: Seq<AttrNode>) -> Option<String> {
    first_throws_from(attrs, 0)
}

/// Parses the modifier list of a callable into its `Throws` error name,
/// rejecting any other modifier.
pub fn parse_throws_attrs(attrs: &Vec<AttrNode>) -> (r: Result<Option<String>, ConversionError>)
    ensures
        r is Ok <==> throws_attrs_ok(attrs@),
        r is Ok ==> match (r->Ok_0, spec_throws(attrs@)) {
            (Some(a), Some(b)) => a@ == b@,
            (None, None) => true,
            _ => false,
        },
        r is Err ==> r->Err_0.kind == ErrorKind::AttributeViolation,
{
    let mut found: Option<String> = None;
    let mut i: usize = 0;
    let end = attrs.len();
    while i < end
        invariant
            end == attrs@.len(),
            i <= end,
            forall|j: int| 0 <= j < i ==> ((#[trigger] attrs@[j]) matches AttrNode::Assigned(
                k,
                _,
            ) && k@ == "Throws"@),
            if i == 0 {
                found is None
            } else {
                (found matches Some(a) && attrs@[0] matches AttrNode::Assigned(_, v0) && a@ == v0@)
            },
        decreases end - i,
    {
        match &attrs[i] {
            AttrNode::Assigned(k, v) => {
                if !str_eq(k.as_str(), "Throws") {
                    return Err(
                        ConversionError::new(
                            ErrorKind::AttributeViolation,
                            "this modifier is not legal on a callable",
                        ),
                    );
                }
                if i == 0 {
                    found = Some(v.clone());
                }
            },
            _ => {
                return Err(
                    ConversionError::new(
                        ErrorKind::AttributeViolation,
                        "unknown modifier on a callable",
                    ),
                );
            },
        }
        i += 1;
    }
    Ok(found)
}

/// The validated modifiers of an interface declaration.
#[derive(Clone, Copy, Debug)]
pub struct InterfaceAttrs {
    /// The declaration is the data-carrying enum form.
    pub enum_: bool,
    /// Foreign-side calls need no external synchronization.
    pub threadsafe: bool,
}

/// Whether every modifier in the list is legal on an interface.
pub open spec fn iface_attrs_ok(attrs: Seq<AttrNode>) -> bool {
    forall|i: int| 0 <= i < attrs.len() ==> ((#[trigger] attrs[i]) matches AttrNode::Word(w) && (w@
        == "Enum"@ || w@ == "Threadsafe"@))
}

/// Whether the list holds the bare word `w`.
pub open spec fn has_word(attrs: Seq<AttrNode>, w: Seq<char>) -> bool {
    exists|i: int| 0 <= i < attrs.len() && ((#[trigger] attrs[i]) matches AttrNode::Word(x) && x@
        == w)
}

/// Parses the modifier list of an interface declaration, rejecting any
/// modifier other than the enum-interface and threadsafe markers.
pub fn parse_interface_attrs(attrs: &Vec<AttrNode>) -> (r: Result<
    InterfaceAttrs,
    ConversionError,
>)
    ensures
        r is Ok <==> iface_attrs_ok(attrs@),
        r is Ok ==> r->Ok_0.enum_ == has_word(attrs@, "Enum"@) && r->Ok_0.threadsafe == has_word(
            attrs@,
            "Threadsafe"@,
        ),
        r is Err ==> r->Err_0.kind == ErrorKind::AttributeViolation,
{
    let mut enum_ = false;
    let mut threadsafe = false;
    let mut i: usize = 0;
    let end = attrs.len();
    while i < end
        invariant
            end == attrs@.len(),
            i <= end,
            forall|j: int| 0 <= j < i ==> ((#[trigger] attrs@[j]) matches AttrNode::Word(w) && (w@
                == "Enum"@ || w@ == "Threadsafe"@)),
            enum_ == exists|j: int| 0 <= j < i && ((#[trigger] attrs@[j]) matches AttrNode::Word(x)
                && x@ == "Enum"@),
            threadsafe == exists|j: int| 0 <= j < i && ((#[trigger] attrs@[j])
                matches AttrNode::Word(x) && x@ == "Threadsafe"@),
        decreases end - i,
    {
        match &attrs[i] {
            AttrNode::Word(w) => {
                proof {
                    reveal_strlit("Enum");
                    reveal_strlit("Threadsafe");
                    assert("Enum"@.len() == 4);
                    assert("Threadsafe"@.len() == 10);
                    assert("Enum"@ != "Threadsafe"@);
                }
                if str_eq(w.as_str(), "Enum") {
                    enum_ = true;
                } else if str_eq(w.as_str(), "Threadsafe") {
                    threadsafe = true;
                } else {
                    return Err(
                        ConversionError::new(
                            ErrorKind::AttributeViolation,
                            "unknown modifier on an interface",
                        ),
                    );
                }
            },
            _ => {
                return Err(
                    ConversionError::new(
                        ErrorKind::AttributeViolation,
                        "this modifier form is not legal on an interface",
                    ),
                );
            },
        }
        i += 1;
    }
    Ok(InterfaceAttrs { enum_, threadsafe })
}

/// Whether every native attribute is a doc comment line: a string value
/// assigned to the name the doc syntax desugars into.
pub open spec fn docs_ok(attrs: Seq<NativeAttrNode>) -> bool {
    forall|i: int| 0 <= i < attrs.len() ==> ((#[trigger] attrs[i])
        matches NativeAttrNode::NameValueStr(k, _) && k@ == "doc"@)
}

/// Whether `docs` holds exactly the doc lines of `attrs`, in order.
pub open spec fn docs_match(docs: Seq<String>, attrs: Seq<NativeAttrNode>) -> bool {
    docs.len() == attrs.len() && (forall|i: int| 0 <= i < attrs.len() ==> ((#[trigger] attrs[i])
        matches NativeAttrNode::NameValueStr(_, s) && docs[i]@ == s@))
}

/// Parses the attribute list of a native declaration into its doc lines,
/// rejecting any attribute that is not a doc comment.
pub fn parse_native_docs(attrs: &Vec<NativeAttrNode>) -> (r: Result<Vec<String>, ConversionError>)
    ensures
        r is Ok <==> docs_ok(attrs@),
        r is Ok ==> docs_match(r->Ok_0@, attrs@),
        r is Err ==> r->Err_0.kind == ErrorKind::AttributeViolation,
{
    let mut docs: Vec<String> = Vec::new();
    let mut i: usize = 0;
    let end = attrs.len();
    while i < end
        invariant
            end == attrs@.len(),
            i <= end,
            docs@.len() == i,
            forall|j: int| 0 <= j < i ==> ((#[trigger] attrs@[j])
                matches NativeAttrNode::NameValueStr(k, s) && k@ == "doc"@ && docs@[j]@ == s@),
        decreases end - i,
    {
        match &attrs[i] {
            NativeAttrNode::NameValueStr(k, s) => {
                if !str_eq(k.as_str(), "doc") {
                    return Err(
                        ConversionError::new(
                            ErrorKind::AttributeViolation,
                            "unknown attribute on a native declaration",
                        ),
                    );
                }
                docs.push(s.clone());
            },
            _ => {
                return Err(
                    ConversionError::new(
                        ErrorKind::AttributeViolation,
                        "unknown attribute on a native declaration",
                    ),
                );
            },
        }
        i += 1;
    }
    Ok(docs)
}


/// Whether the list holds the bare word `w`, without validating the rest;
/// used to dispatch an interface declaration before conversion.
pub fn contains_word(attrs: &Vec<AttrNode>, w: &str) -> (r: bool)
    ensures
        r == has_word(attrs@, w@),
{
    let mut i: usize = 0;
    let end = attrs.len();
    while i < end
        invariant
            end == attrs@.len(),
            i <= end,
            !(exists|j: int| 0 <= j < i && ((#[trigger] attrs@[j]) matches AttrNode::Word(x) && x@
                == w@)),
        decreases end - i,
    {
        match &attrs[i] {
            AttrNode::Word(x) => {
                if str_eq(x.as_str(), w) {
                    return true;
                }
            },
            _ => {},
        }
        i += 1;
    }
    false
}

} // verus!

