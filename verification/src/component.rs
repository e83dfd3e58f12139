use vstd::prelude::*;

use crate::ast::{DefinitionNode, NativeImplNode, NativeItemNode, TypeExpr};
use crate::checksum::{
    enum_checksum, function_checksum, hex_digits, hex_string, object_checksum, record_checksum,
    CHECKSUM_SEED,
};
use crate::enum_::Enum;
use crate::error::{ConversionError, ErrorKind};
use crate::ffi::FfiType;
use crate::function::Function;
use crate::object::{default_constructor, obj_members_match, Constructor, Method, Object};
use crate::record::Record;
use crate::text::{push_part, str_eq};
use crate::types::{NameKind, CanonicalType, TypeUniverse};

verus! {

/// The canonical in-memory model of one component's interface: all its
/// definitions, keyed by name per kind, plus the type universe. It is
/// mutable while the front ends register definitions and append members,
/// and is queried read-only once the derivation pass has run.
#[derive(Debug)]
pub struct ComponentInterface {
    pub namespace: String,
    pub types: TypeUniverse,
    pub enums: Vec<Enum>,
    pub records: Vec<Record>,
    pub functions: Vec<Function>,
    pub objects: Vec<Object>,
}

pub open spec fn find_enum_from(es: Seq<Enum>, n: Seq<char>, i: int) -> Option<int>
    decreases es.len() - i,
{
    if i < 0 || i >= es.len() {
        None
    } else if es[i].name@ == n {
        Some(i)
    } else {
        find_enum_from(es, n, i + 1)
    }
}

pub open spec fn find_object_from(os: Seq<Object>, n: Seq<char>, i: int) -> Option<int>
    decreases os.len() - i,
{
    if i < 0 || i >= os.len() {
        None
    } else if os[i].name@ == n {
        Some(i)
    } else {
        find_object_from(os, n, i + 1)
    }
}

pub open spec fn find_function_from(fs: Seq<Function>, n: Seq<char>, i: int) -> Option<int>
    decreases fs.len() - i,
{
    if i < 0 || i >= fs.len() {
        None
    } else if fs[i].name@ == n {
        Some(i)
    } else {
        find_function_from(fs, n, i + 1)
    }
}

pub open spec fn find_record_from(rs: Seq<Record>, n: Seq<char>, i: int) -> Option<int>
    decreases rs.len() - i,
{
    if i < 0 || i >= rs.len() {
        None
    } else if rs[i].name@ == n {
        Some(i)
    } else {
        find_record_from(rs, n, i + 1)
    }
}

/// Folds each definition kind's checksums into the interface checksum.
pub open spec fn hash_enums_from(h: u64, es: Seq<Enum>, i: int) -> u64
    decreases es.len() - i,
{
    if i < 0 || i >= es.len() {
        h
    } else {
        hash_enums_from(crate::checksum::mix(h, enum_checksum(es[i])), es, i + 1)
    }
}

pub open spec fn hash_records_from(h: u64, rs: Seq<Record>, i: int) -> u64
    decreases rs.len() - i,
{
    if i < 0 || i >= rs.len() {
        h
    } else {
        hash_records_from(crate::checksum::mix(h, record_checksum(rs[i])), rs, i + 1)
    }
}

pub open spec fn hash_functions_from(h: u64, fs: Seq<Function>, i: int) -> u64
    decreases fs.len() - i,
{
    if i < 0 || i >= fs.len() {
        h
    } else {
        hash_functions_from(crate::checksum::mix(h, function_checksum(fs[i])), fs, i + 1)
    }
}

pub open spec fn hash_objects_from(h: u64, os: Seq<Object>, i: int) -> u64
    decreases os.len() - i,
{
    if i < 0 || i >= os.len() {
        h
    } else {
        hash_objects_from(crate::checksum::mix(h, object_checksum(os[i])), os, i + 1)
    }
}

/// The structural checksum of the whole interface: the namespace and
/// every definition's checksum, in registration order. Derived flat
/// signatures contribute nothing, so deriving them does not move the
/// checksum that their symbol names embed.
pub open spec fn interface_checksum(ci: ComponentInterface) -> u64 {
    hash_objects_from(
        hash_functions_from(
            hash_records_from(
                hash_enums_from(
                    crate::checksum::hash_str(CHECKSUM_SEED, ci.namespace@),
                    ci.enums@,
                    0,
                ),
                ci.records@,
                0,
            ),
            ci.functions@,
            0,
        ),
        ci.objects@,
        0,
    )
}

/// The checksum-bearing prefix every derived symbol name starts with.
pub open spec fn spec_ffi_namespace(ci: ComponentInterface) -> Seq<char> {
    ci.namespace@ + "_"@ + hex_digits(interface_checksum(ci) as nat)
}

/// The shape every object has once derivation has run: at least one
/// constructor; a free function taking exactly the handle and returning
/// nothing; every constructor's flat list as long as its logical list and
/// returning the handle; every instance method's flat list exactly one
/// entry longer than its logical list, every static method's exactly as
/// long.
pub open spec fn obj_derived_shape(o: Object) -> bool {
    &&& o.constructors@.len() >= 1
    &&& o.ffi_func_free.arguments@.len() == 1
    &&& o.ffi_func_free.return_type is None
    &&& forall|j: int| 0 <= j < o.constructors@.len() ==> (#[trigger] o.constructors@[j]).ffi_func.arguments@.len()
        == o.constructors@[j].arguments@.len() && o.constructors@[j].ffi_func.return_type == Some(
        FfiType::UInt64,
    )
    &&& forall|j: int| 0 <= j < o.methods@.len() ==> (#[trigger] o.methods@[j]).ffi_func.arguments@.len()
        == o.methods@[j].arguments@.len() + (if o.methods@[j].static_ {
        0int
    } else {
        1int
    })
}

/// The shape the whole interface has once derivation has run.
pub open spec fn interface_derived(ci: ComponentInterface) -> bool {
    &&& forall|i: int| 0 <= i < ci.objects@.len() ==> obj_derived_shape(#[trigger] ci.objects@[i])
    &&& forall|i: int| 0 <= i < ci.functions@.len() ==> (#[trigger] ci.functions@[i]).ffi_func.arguments@.len()
        == ci.functions@[i].arguments@.len()
}

impl ComponentInterface {
    /// An empty interface for the given namespace.
    pub fn new(namespace: String) -> (r: Self)
        ensures
            r.namespace == namespace,
            r.types.known@.len() == 0,
            r.types.names@.len() == 0,
            r.enums@.len() == 0,
            r.records@.len() == 0,
            r.functions@.len() == 0,
            r.objects@.len() == 0,
    {
        ComponentInterface {
            namespace,
            types: TypeUniverse::new(),
            enums: Vec::new(),
            records: Vec::new(),
            functions: Vec::new(),
            objects: Vec::new(),
        }
    }

    pub fn namespace(&self) -> (r: &str)
        ensures
            r@ == self.namespace@,
    {
        self.namespace.as_str()
    }

    /// Resolves a type expression against this interface's universe.
    pub fn resolve_type_expression(&mut self, e: &TypeExpr) -> (r: Result<CanonicalType, ConversionError>)
        ensures
            final(self).namespace == old(self).namespace,
            final(self).enums == old(self).enums,
            final(self).records == old(self).records,
            final(self).functions == old(self).functions,
            final(self).objects == old(self).objects,
            final(self).types.names@ == old(self).types.names@,
            r is Ok <==> crate::types::resolvable(*e, old(self).types.names@),
            r is Ok ==> crate::types::resolves_to(*e, old(self).types.names@, r->Ok_0),
            r is Err ==> r->Err_0.kind == crate::types::resolve_err_kind(
                *e,
                old(self).types.names@,
            ),
    {
        self.types.resolve_type_expression(e)
    }

    /// The registered canonical types, in registration order.
    pub fn iter_types(&self) -> (r: Vec<&CanonicalType>)
        ensures
            r@.len() == self.types.known@.len(),
            forall|i: int| 0 <= i < r@.len() ==> *(#[trigger] r@[i]) == self.types.known@[i],
    {
        self.types.iter_types()
    }

    pub fn iter_enum_definitions(&self) -> (r: Vec<&Enum>)
        ensures
            r@.len() == self.enums@.len(),
            forall|i: int| 0 <= i < r@.len() ==> *(#[trigger] r@[i]) == self.enums@[i],
    {
        let mut out: Vec<&Enum> = Vec::new();
        let mut i: usize = 0;
        let end = self.enums.len();
        while i < end
            invariant
                end == self.enums@.len(),
                i <= end,
                out@.len() == i,
                forall|j: int| 0 <= j < i ==> *(#[trigger] out@[j]) == self.enums@[j],
            decreases end - i,
        {
            out.push(&self.enums[i]);
            i += 1;
        }
        out
    }

    pub fn get_enum_definition(&self, name: &str) -> (r: Option<&Enum>)
        ensures
            match find_enum_from(self.enums@, name@, 0) {
                None => r is None,
                Some(ix) => r matches Some(e) && *e == self.enums@[ix],
            },
    {
        let mut i: usize = 0;
        let end = self.enums.len();
        while i < end
            invariant
                end == self.enums@.len(),
                i <= end,
                find_enum_from(self.enums@, name@, 0) == find_enum_from(
                    self.enums@,
                    name@,
                    i as int,
                ),
            decreases end - i,
        {
            if str_eq(self.enums[i].name.as_str(), name) {
                return Some(&self.enums[i]);
            }
            i += 1;
        }
        None
    }

    pub fn iter_object_definitions(&self) -> (r: Vec<&Object>)
        ensures
            r@.len() == self.objects@.len(),
            forall|i: int| 0 <= i < r@.len() ==> *(#[trigger] r@[i]) == self.objects@[i],
    {
        let mut out: Vec<&Object> = Vec::new();
        let mut i: usize = 0;
        let end = self.objects.len();
        while i < end
            invariant
                end == self.objects@.len(),
                i <= end,
                out@.len() == i,
                forall|j: int| 0 <= j < i ==> *(#[trigger] out@[j]) == self.objects@[j],
            decreases end - i,
        {
            out.push(&self.objects[i]);
            i += 1;
        }
        out
    }

    pub fn get_object_definition(&self, name: &str) -> (r: Option<&Object>)
        ensures
            match find_object_from(self.objects@, name@, 0) {
                None => r is None,
                Some(ix) => r matches Some(o) && *o == self.objects@[ix],
            },
    {
        let mut i: usize = 0;
        let end = self.objects.len();
        while i < end
            invariant
                end == self.objects@.len(),
                i <= end,
                find_object_from(self.objects@, name@, 0) == find_object_from(
                    self.objects@,
                    name@,
                    i as int,
                ),
            decreases end - i,
        {
            if str_eq(self.objects[i].name.as_str(), name) {
                return Some(&self.objects[i]);
            }
            i += 1;
        }
        None
    }

    pub fn iter_function_definitions(&self) -> (r: Vec<&Function>)
        ensures
            r@.len() == self.functions@.len(),
            forall|i: int| 0 <= i < r@.len() ==> *(#[trigger] r@[i]) == self.functions@[i],
    {
        let mut out: Vec<&Function> = Vec::new();
        let mut i: usize = 0;
        let end = self.functions.len();
        while i < end
            invariant
                end == self.functions@.len(),
                i <= end,
                out@.len() == i,
                forall|j: int| 0 <= j < i ==> *(#[trigger] out@[j]) == self.functions@[j],
            decreases end - i,
        {
            out.push(&self.functions[i]);
            i += 1;
        }
        out
    }

    pub fn get_function_definition(&self, name: &str) -> (r: Option<&Function>)
        ensures
            match find_function_from(self.functions@, name@, 0) {
                None => r is None,
                Some(ix) => r matches Some(f) && *f == self.functions@[ix],
            },
    {
        let mut i: usize = 0;
        let end = self.functions.len();
        while i < end
            invariant
                end == self.functions@.len(),
                i <= end,
                find_function_from(self.functions@, name@, 0) == find_function_from(
                    self.functions@,
                    name@,
                    i as int,
                ),
            decreases end - i,
        {
            if str_eq(self.functions[i].name.as_str(), name) {
                return Some(&self.functions[i]);
            }
            i += 1;
        }
        None
    }

    pub fn iter_record_definitions(&self) -> (r: Vec<&Record>)
        ensures
            r@.len() == self.records@.len(),
            forall|i: int| 0 <= i < r@.len() ==> *(#[trigger] r@[i]) == self.records@[i],
    {
        let mut out: Vec<&Record> = Vec::new();
        let mut i: usize = 0;
        let end = self.records.len();
        while i < end
            invariant
                end == self.records@.len(),
                i <= end,
                out@.len() == i,
                forall|j: int| 0 <= j < i ==> *(#[trigger] out@[j]) == self.records@[j],
            decreases end - i,
        {
            out.push(&self.records[i]);
            i += 1;
        }
        out
    }

    pub fn get_record_definition(&self, name: &str) -> (r: Option<&Record>)
        ensures
            match find_record_from(self.records@, name@, 0) {
                None => r is None,
                Some(ix) => r matches Some(rec) && *rec == self.records@[ix],
            },
    {
        let mut i: usize = 0;
        let end = self.records.len();
        while i < end
            invariant
                end == self.records@.len(),
                i <= end,
                find_record_from(self.records@, name@, 0) == find_record_from(
                    self.records@,
                    name@,
                    i as int,
                ),
            decreases end - i,
        {
            if str_eq(self.records[i].name.as_str(), name) {
                return Some(&self.records[i]);
            }
            i += 1;
        }
        None
    }

    /// The structural checksum of the whole interface.
    pub fn checksum(&self) -> (r: u64)
        ensures
            r == interface_checksum(*self),
    {
        let h0 = crate::checksum::hash_str_for(CHECKSUM_SEED, self.namespace.as_str());
        let mut acc = h0;
        let mut i: usize = 0;
        let eend = self.enums.len();
        while i < eend
            invariant
                eend == self.enums@.len(),
                i <= eend,
                hash_enums_from(h0, self.enums@, 0) == hash_enums_from(acc, self.enums@, i as int),
            decreases eend - i,
        {
            acc = acc.wrapping_mul(31).wrapping_add(self.enums[i].checksum());
            i += 1;
        }
        let h1 = acc;
        let mut i: usize = 0;
        let rend = self.records.len();
        while i < rend
            invariant
                rend == self.records@.len(),
                i <= rend,
                hash_records_from(h1, self.records@, 0) == hash_records_from(
                    acc,
                    self.records@,
                    i as int,
                ),
            decreases rend - i,
        {
            acc = acc.wrapping_mul(31).wrapping_add(self.records[i].checksum());
            i += 1;
        }
        let h2 = acc;
        let mut i: usize = 0;
        let fend = self.functions.len();
        while i < fend
            invariant
                fend == self.functions@.len(),
                i <= fend,
                hash_functions_from(h2, self.functions@, 0) == hash_functions_from(
                    acc,
                    self.functions@,
                    i as int,
                ),
            decreases fend - i,
        {
            acc = acc.wrapping_mul(31).wrapping_add(self.functions[i].checksum());
            i += 1;
        }
        let h3 = acc;
        let mut i: usize = 0;
        let oend = self.objects.len();
        while i < oend
            invariant
                oend == self.objects@.len(),
                i <= oend,
                hash_objects_from(h3, self.objects@, 0) == hash_objects_from(
                    acc,
                    self.objects@,
                    i as int,
                ),
            decreases oend - i,
        {
            acc = acc.wrapping_mul(31).wrapping_add(self.objects[i].checksum());
            i += 1;
        }
        acc
    }

    /// The checksum-bearing prefix of every derived symbol name. A binding
    /// compiled against one snapshot fails to resolve symbols of a
    /// structurally different snapshot instead of silently calling it.
    pub fn ffi_namespace(&self) -> (r: String)
        ensures
            r@ == spec_ffi_namespace(*self),
    {
        let sum = self.checksum();
        let mut s = self.namespace.clone();
        push_part(&mut s, "_");
        let hx = hex_string(sum);
        push_part(&mut s, hx.as_str());
        s
    }
}


/// Whether the synthesized-constructor pass turned `o` into `n`.
pub open spec fn obj_ctors_ensured(o: Object, n: Object) -> bool {
    &&& n.name == o.name
    &&& n.methods == o.methods
    &&& n.threadsafe == o.threadsafe
    &&& n.docs == o.docs
    &&& n.ffi_func_free == o.ffi_func_free
    &&& if o.constructors@.len() == 0 {
        n.constructors@.len() == 1 && default_constructor(n.constructors@[0])
    } else {
        n.constructors == o.constructors
    }
}

/// Whether the derivation pass turned function `o` into `n` under
/// `prefix`.
pub open spec fn function_derived_ci(o: Function, n: Function, prefix: Seq<char>) -> bool {
    &&& n.name == o.name
    &&& n.arguments == o.arguments
    &&& n.return_type == o.return_type
    &&& n.throws == o.throws
    &&& n.docs == o.docs
    &&& n.ffi_func.name@ == crate::function::symbol2(prefix, o.name@)
    &&& crate::function::lowered_args(o.arguments@, n.ffi_func.arguments@, 0)
    &&& n.ffi_func.return_type == match o.return_type {
        None => None,
        Some(t) => Some(crate::ffi::lower_type(t)),
    }
}

/// Whether the derivation pass turned object `o` into `n` under `prefix`.
pub open spec fn object_derived_ci(o: Object, n: Object, prefix: Seq<char>) -> bool {
    &&& n.name == o.name
    &&& n.threadsafe == o.threadsafe
    &&& n.docs == o.docs
    &&& n.ffi_func_free.name@ == "ffi_"@ + prefix + "_"@ + o.name@ + "_object_free"@
    &&& n.ffi_func_free.arguments@.len() == 1
    &&& n.ffi_func_free.arguments@[0].name@ == "handle"@
    &&& n.ffi_func_free.arguments@[0].type_ == FfiType::UInt64
    &&& n.ffi_func_free.return_type is None
    &&& n.constructors@.len() == o.constructors@.len()
    &&& forall|j: int| 0 <= j < o.constructors@.len() ==> crate::object::ctor_derived(
        o.constructors@[j],
        #[trigger] n.constructors@[j],
        prefix,
        o.name@,
    )
    &&& n.methods@.len() == o.methods@.len()
    &&& forall|j: int| 0 <= j < o.methods@.len() ==> crate::object::method_derived(
        o.methods@[j],
        #[trigger] n.methods@[j],
        prefix,
        o.name@,
    )
}

/// Whether an implementation block's processing extended `o` into `n`:
/// the declared members are untouched and only appended to, and every
/// appended method carries the owning object's name.
pub open spec fn object_extended(o: Object, n: Object, obj: Seq<char>) -> bool {
    &&& n.name == o.name
    &&& n.threadsafe == o.threadsafe
    &&& n.docs == o.docs
    &&& n.ffi_func_free == o.ffi_func_free
    &&& o.constructors@.is_prefix_of(n.constructors@)
    &&& o.methods@.is_prefix_of(n.methods@)
    &&& forall|j: int| o.methods@.len() <= j < n.methods@.len() ==> (#[trigger] n.methods@[j]).object_name@
        == obj
}

/// As `crate::object::method_native_matches`, with the owning object's
/// name filled in.
pub open spec fn method_native_matches_owned(
    r: Method,
    m: crate::ast::NativeMethodNode,
    names: Seq<crate::types::NameEntry>,
    obj: Seq<char>,
) -> bool {
    &&& r.name@ == m.name@
    &&& r.object_name@ == obj
    &&& crate::function::native_args_match(r.arguments@, m.args@, names)
    &&& crate::object::native_ret_matches(r.return_type, m.ret, names)
    &&& r.static_ == !m.has_receiver
    &&& match (r.throws, crate::object::native_throws_of(m.ret)) {
        (Some(a), Some(b)) => a@ == b@,
        (None, None) => true,
        _ => false,
    }
    &&& crate::attributes::docs_match(r.docs@, m.attributes@)
    &&& crate::ffi::ffi_empty(r.ffi_func)
}

/// Whether the items of an implementation block convert exactly into the
/// given constructor and method lists, each in declaration order: an item
/// bearing the fixed constructor token becomes a constructor, every other
/// item a method owned by the object.
pub open spec fn impl_items_match(
    items: Seq<crate::ast::NativeImplItemNode>,
    cs: Seq<Constructor>,
    ms: Seq<Method>,
    names: Seq<crate::types::NameEntry>,
    obj: Seq<char>,
) -> bool
    decreases items.len(),
{
    if items.len() == 0 {
        cs.len() == 0 && ms.len() == 0
    } else {
        match items[0] {
            crate::ast::NativeImplItemNode::Method(m) => if m.name@ == "new"@ {
                cs.len() > 0 && crate::object::ctor_native_matches(cs[0], m, names)
                    && impl_items_match(items.skip(1), cs.skip(1), ms, names, obj)
            } else {
                ms.len() > 0 && method_native_matches_owned(ms[0], m, names, obj)
                    && impl_items_match(items.skip(1), cs, ms.skip(1), names, obj)
            },
            crate::ast::NativeImplItemNode::Unsupported => false,
        }
    }
}

proof fn lemma_impl_items_push_ctor(
    items: Seq<crate::ast::NativeImplItemNode>,
    cs: Seq<Constructor>,
    ms: Seq<Method>,
    names: Seq<crate::types::NameEntry>,
    obj: Seq<char>,
    it: crate::ast::NativeImplItemNode,
    c: Constructor,
)
    requires
        impl_items_match(items, cs, ms, names, obj),
        it matches crate::ast::NativeImplItemNode::Method(m) && m.name@ == "new"@
            && crate::object::ctor_native_matches(c, m, names),
    ensures
        impl_items_match(items.push(it), cs.push(c), ms, names, obj),
    decreases items.len(),
{
    if items.len() == 0 {
        assert(items.push(it).skip(1) =~= items);
        assert(cs.push(c).skip(1) =~= cs);
        assert(items.push(it)[0] == it);
        assert(cs.push(c)[0] == c);
    } else {
        assert(items.push(it).skip(1) =~= items.skip(1).push(it));
        match items[0] {
            crate::ast::NativeImplItemNode::Method(m0) => {
                if m0.name@ == "new"@ {
                    lemma_impl_items_push_ctor(items.skip(1), cs.skip(1), ms, names, obj, it, c);
                    assert(cs.push(c).skip(1) =~= cs.skip(1).push(c));
                    assert(cs.push(c)[0] == cs[0]);
                } else {
                    lemma_impl_items_push_ctor(items.skip(1), cs, ms.skip(1), names, obj, it, c);
                }
                assert(items.push(it)[0] == items[0]);
            },
            crate::ast::NativeImplItemNode::Unsupported => {},
        }
    }
}

proof fn lemma_impl_items_push_method(
    items: Seq<crate::ast::NativeImplItemNode>,
    cs: Seq<Constructor>,
    ms: Seq<Method>,
    names: Seq<crate::types::NameEntry>,
    obj: Seq<char>,
    it: crate::ast::NativeImplItemNode,
    meth: Method,
)
    requires
        impl_items_match(items, cs, ms, names, obj),
        it matches crate::ast::NativeImplItemNode::Method(m) && m.name@ != "new"@
            && method_native_matches_owned(meth, m, names, obj),
    ensures
        impl_items_match(items.push(it), cs, ms.push(meth), names, obj),
    decreases items.len(),
{
    if items.len() == 0 {
        assert(items.push(it).skip(1) =~= items);
        assert(ms.push(meth).skip(1) =~= ms);
        assert(items.push(it)[0] == it);
        assert(ms.push(meth)[0] == meth);
    } else {
        assert(items.push(it).skip(1) =~= items.skip(1).push(it));
        match items[0] {
            crate::ast::NativeImplItemNode::Method(m0) => {
                if m0.name@ == "new"@ {
                    lemma_impl_items_push_method(items.skip(1), cs.skip(1), ms, names, obj, it, meth);
                } else {
                    lemma_impl_items_push_method(items.skip(1), cs, ms.skip(1), names, obj, it, meth);
                    assert(ms.push(meth).skip(1) =~= ms.skip(1).push(meth));
                    assert(ms.push(meth)[0] == ms[0]);
                }
                assert(items.push(it)[0] == items[0]);
            },
            crate::ast::NativeImplItemNode::Unsupported => {},
        }
    }
}


proof fn lemma_items_methods_owned(
    items: Seq<crate::ast::NativeImplItemNode>,
    cs: Seq<Constructor>,
    ms: Seq<Method>,
    names: Seq<crate::types::NameEntry>,
    obj: Seq<char>,
)
    requires
        impl_items_match(items, cs, ms, names, obj),
    ensures
        forall|j: int| 0 <= j < ms.len() ==> (#[trigger] ms[j]).object_name@ == obj,
    decreases items.len(),
{
    if items.len() > 0 {
        match items[0] {
            crate::ast::NativeImplItemNode::Method(m0) => {
                if m0.name@ == "new"@ {
                    lemma_items_methods_owned(items.skip(1), cs.skip(1), ms, names, obj);
                } else {
                    lemma_items_methods_owned(items.skip(1), cs, ms.skip(1), names, obj);
                    assert forall|j: int| 0 <= j < ms.len() implies (#[trigger] ms[j]).object_name@
                        == obj by {
                        if j > 0 {
                            assert(ms.skip(1)[j - 1] == ms[j]);
                        }
                    }
                }
            },
            crate::ast::NativeImplItemNode::Unsupported => {},
        }
    }
}

/// Whether one implementation item converts, and with which error.
pub open spec fn impl_item_err(
    it: crate::ast::NativeImplItemNode,
    names: Seq<crate::types::NameEntry>,
) -> Option<ErrorKind> {
    match it {
        crate::ast::NativeImplItemNode::Method(m) => if m.name@ == "new"@ {
            if crate::object::ctor_native_ok(m, names) {
                None
            } else {
                Some(crate::object::ctor_native_err_kind(m, names))
            }
        } else {
            if crate::object::method_native_ok(m, names) {
                None
            } else {
                Some(crate::object::method_native_err_kind(m, names))
            }
        },
        crate::ast::NativeImplItemNode::Unsupported => Some(ErrorKind::UnsupportedSyntax),
    }
}

/// The first failing implementation item's error category, scanning from
/// `i` on.
pub open spec fn impl_items_err_from(
    items: Seq<crate::ast::NativeImplItemNode>,
    names: Seq<crate::types::NameEntry>,
    i: int,
) -> Option<ErrorKind>
    decreases items.len() - i,
{
    if i < 0 || i >= items.len() {
        None
    } else if impl_item_err(items[i], names) is Some {
        impl_item_err(items[i], names)
    } else {
        impl_items_err_from(items, names, i + 1)
    }
}

/// Whether an implementation block attaches: it names a plain type, an
/// object with that name is registered, and every item converts.
pub open spec fn impl_block_ok(
    node: NativeImplNode,
    objects: Seq<Object>,
    names: Seq<crate::types::NameEntry>,
) -> bool {
    &&& node.self_name is Some
    &&& find_object_from(objects, node.self_name->Some_0@, 0) is Some
    &&& impl_items_err_from(node.items@, names, 0) is None
}

/// The error category a failing implementation block reports.
pub open spec fn impl_block_err_kind(
    node: NativeImplNode,
    objects: Seq<Object>,
    names: Seq<crate::types::NameEntry>,
) -> ErrorKind {
    if node.self_name is None {
        ErrorKind::UnsupportedSyntax
    } else if find_object_from(objects, node.self_name->Some_0@, 0) is None {
        ErrorKind::UnknownTypeName
    } else {
        impl_items_err_from(node.items@, names, 0)->Some_0
    }
}

/// Whether processing an implementation block turned `o` into `n`: the
/// untouched old members first, then exactly the conversions of the
/// block's items.
pub open spec fn object_gains(
    o: Object,
    n: Object,
    items: Seq<crate::ast::NativeImplItemNode>,
    names: Seq<crate::types::NameEntry>,
    obj: Seq<char>,
) -> bool {
    &&& object_extended(o, n, obj)
    &&& impl_items_match(
        items,
        n.constructors@.skip(o.constructors@.len() as int),
        n.methods@.skip(o.methods@.len() as int),
        names,
        obj,
    )
}

impl ComponentInterface {
    /// The build step that guarantees every object at least one
    /// constructor: an object that accumulated none receives exactly one
    /// synthesized default constructor before derivation runs.
    pub fn ensure_constructors(&mut self)
        ensures
            final(self).namespace == old(self).namespace,
            final(self).types == old(self).types,
            final(self).enums == old(self).enums,
            final(self).records == old(self).records,
            final(self).functions == old(self).functions,
            final(self).objects@.len() == old(self).objects@.len(),
            forall|i: int| 0 <= i < old(self).objects@.len() ==> obj_ctors_ensured(
                old(self).objects@[i],
                #[trigger] final(self).objects@[i],
            ),
            forall|i: int|
                #![trigger final(self).objects@[i]]
                0 <= i < final(self).objects@.len() ==> final(self).objects@[i].constructors@.len() >= 1,
    {
        let mut i: usize = 0;
        let end = self.objects.len();
        while i < end
            invariant
                end == self.objects@.len(),
                i <= end,
                self.objects@.len() == old(self).objects@.len(),
                self.namespace == old(self).namespace,
                self.types == old(self).types,
                self.enums == old(self).enums,
                self.records == old(self).records,
                self.functions == old(self).functions,
                forall|j: int| 0 <= j < i ==> obj_ctors_ensured(
                    old(self).objects@[j],
                    #[trigger] self.objects@[j],
                ),
                forall|j: int| 0 <= j < i ==> (#[trigger] self.objects@[j]).constructors@.len()
                    >= 1,
                forall|j: int| i <= j < end ==> #[trigger] self.objects@[j] == old(self).objects@[j],
            decreases end - i,
        {
            if self.objects[i].constructors.len() == 0 {
                let ghost before = self.objects@;
                let mut o = self.objects.remove(i);
                o.constructors.push(Default::default());
                self.objects.insert(i, o);
                proof {
                    assert(self.objects@ =~= before.update(i as int, self.objects@[i as int]));
                }
            }
            i += 1;
        }
    }

    /// The derivation pass: computes the checksum-bearing prefix once,
    /// over the finished logical content, then derives every function's,
    /// constructor's and method's flat signature and every object's free
    /// function. Runs once, after all definitions are registered and
    /// every object has its constructors.
    pub fn derive_ffi_funcs(&mut self) -> (r: Result<(), ConversionError>)
        requires
            forall|i: int| 0 <= i < old(self).objects@.len() ==> (#[trigger] old(self).objects@[i]).constructors@.len() >= 1,
        ensures
            r is Ok,
            final(self).namespace == old(self).namespace,
            final(self).types == old(self).types,
            final(self).enums == old(self).enums,
            final(self).records == old(self).records,
            final(self).functions@.len() == old(self).functions@.len(),
            forall|i: int| 0 <= i < old(self).functions@.len() ==> function_derived_ci(
                old(self).functions@[i],
                #[trigger] final(self).functions@[i],
                spec_ffi_namespace(*old(self)),
            ),
            final(self).objects@.len() == old(self).objects@.len(),
            forall|i: int| 0 <= i < old(self).objects@.len() ==> object_derived_ci(
                old(self).objects@[i],
                #[trigger] final(self).objects@[i],
                spec_ffi_namespace(*old(self)),
            ),
            interface_derived(*final(self)),
    {
        let prefix = self.ffi_namespace();
        let ghost prefix_view = prefix@;
        let mut fns: Vec<Function> = Vec::new();
        let ghost old_fns = self.functions@;
        while self.functions.len() > 0
            invariant
                prefix@ == prefix_view,
                fns@.len() + self.functions@.len() == old_fns.len(),
                forall|j: int| 0 <= j < fns@.len() ==> function_derived_ci(
                    old_fns[j],
                    #[trigger] fns@[j],
                    prefix_view,
                ),
                forall|j: int| 0 <= j < self.functions@.len() ==> #[trigger] self.functions@[j]
                    == old_fns[j + fns@.len()],
                self.namespace == old(self).namespace,
                self.types == old(self).types,
                self.enums == old(self).enums,
                self.records == old(self).records,
                self.objects == old(self).objects,
            decreases self.functions@.len(),
        {
            let mut f = self.functions.remove(0);
            let dr = f.derive_ffi_func(prefix.as_str());
            proof {
                assert(dr is Ok);
            }
            fns.push(f);
        }
        self.functions = fns;
        let mut objs: Vec<Object> = Vec::new();
        let ghost old_objs = self.objects@;
        while self.objects.len() > 0
            invariant
                prefix@ == prefix_view,
                objs@.len() + self.objects@.len() == old_objs.len(),
                forall|j: int| 0 <= j < objs@.len() ==> object_derived_ci(
                    old_objs[j],
                    #[trigger] objs@[j],
                    prefix_view,
                ),
                forall|j: int| 0 <= j < self.objects@.len() ==> #[trigger] self.objects@[j]
                    == old_objs[j + objs@.len()],
                self.namespace == old(self).namespace,
                self.types == old(self).types,
                self.enums == old(self).enums,
                self.records == old(self).records,
                forall|j: int| 0 <= j < self.functions@.len() ==> function_derived_ci(
                    old(self).functions@[j],
                    #[trigger] self.functions@[j],
                    prefix_view,
                ),
                self.functions@.len() == old(self).functions@.len(),
            decreases self.objects@.len(),
        {
            let mut o = self.objects.remove(0);
            let dr = o.derive_ffi_funcs(prefix.as_str());
            proof {
                assert(dr is Ok);
            }
            objs.push(o);
        }
        self.objects = objs;
        proof {
            assert forall|i: int| 0 <= i < final(self).objects@.len() implies obj_derived_shape(
                #[trigger] final(self).objects@[i],
            ) by {
                assert(object_derived_ci(
                    old(self).objects@[i],
                    final(self).objects@[i],
                    prefix_view,
                ));
            }
        }
        Ok(())
    }
}


impl ComponentInterface {
    /// Attaches the members of a native implementation block to the
    /// already-registered object it names. Members convert first; the
    /// object changes only when every member of the block converts.
    /// An associated function bearing the fixed constructor token becomes
    /// a constructor, every other item a method owned by the object.
    pub fn process_native_impl(&mut self, node: &NativeImplNode) -> (r: Result<
        (),
        ConversionError,
    >)
        ensures
            final(self).namespace == old(self).namespace,
            final(self).enums == old(self).enums,
            final(self).records == old(self).records,
            final(self).functions == old(self).functions,
            final(self).types.names@ == old(self).types.names@,
            final(self).objects@.len() == old(self).objects@.len(),
            forall|i: int|
                0 <= i < old(self).objects@.len() ==> (#[trigger] final(self).objects@[i] == old(
                    self,
                ).objects@[i]) || (node.self_name matches Some(sn) && object_extended(
                    old(self).objects@[i],
                    final(self).objects@[i],
                    sn@,
                )),
            r is Ok <==> impl_block_ok(*node, old(self).objects@, old(self).types.names@),
            r is Err ==> r->Err_0.kind == impl_block_err_kind(
                *node,
                old(self).objects@,
                old(self).types.names@,
            ),
            r is Ok ==> (node.self_name matches Some(sn) && find_object_from(
                old(self).objects@,
                sn@,
                0,
            ) matches Some(gix) && final(self).objects@ == old(self).objects@.update(
                gix,
                final(self).objects@[gix],
            ) && object_gains(
                old(self).objects@[gix],
                final(self).objects@[gix],
                node.items@,
                old(self).types.names@,
                sn@,
            )),
            r is Err ==> final(self).objects@ == old(self).objects@,
    {
        let sname = match &node.self_name {
            None => {
                return Err(
                    ConversionError::new(
                        ErrorKind::UnsupportedSyntax,
                        "an implementation block must name a plain type",
                    ),
                );
            },
            Some(s) => s.clone(),
        };
        let mut ix: usize = 0;
        let mut found = false;
        let oend = self.objects.len();
        while ix < oend
            invariant_except_break
                oend == self.objects@.len(),
                ix <= oend,
                !found,
                find_object_from(self.objects@, sname@, 0) == find_object_from(
                    self.objects@,
                    sname@,
                    ix as int,
                ),
            ensures
                oend == self.objects@.len(),
                found ==> ix < oend && find_object_from(self.objects@, sname@, 0) == Some(
                    ix as int,
                ),
                !found ==> find_object_from(self.objects@, sname@, 0) is None,
            decreases oend - ix,
        {
            if str_eq(self.objects[ix].name.as_str(), sname.as_str()) {
                found = true;
                break;
            }
            ix += 1;
        }
        if !found {
            return Err(
                ConversionError::new(
                    ErrorKind::UnknownTypeName,
                    "no object with this name is registered",
                ),
            );
        }
        let mut new_ctors: Vec<Constructor> = Vec::new();
        let mut new_meths: Vec<Method> = Vec::new();
        let mut i: usize = 0;
        let end = node.items.len();
        while i < end
            invariant
                end == node.items@.len(),
                i <= end,
                node.self_name is Some,
                sname@ == node.self_name->Some_0@,
                self.types.names@ == old(self).types.names@,
                self.namespace == old(self).namespace,
                self.enums == old(self).enums,
                self.records == old(self).records,
                self.functions == old(self).functions,
                self.objects == old(self).objects,
                ix < self.objects@.len(),
                find_object_from(self.objects@, sname@, 0) == Some(ix as int),
                impl_items_err_from(node.items@, old(self).types.names@, 0)
                    == impl_items_err_from(node.items@, old(self).types.names@, i as int),
                impl_items_match(
                    node.items@.take(i as int),
                    new_ctors@,
                    new_meths@,
                    old(self).types.names@,
                    sname@,
                ),
            decreases end - i,
        {
            match &node.items[i] {
                crate::ast::NativeImplItemNode::Method(m) => {
                    if str_eq(m.name.as_str(), "new") {
                        match Constructor::from_native(m, &mut self.types) {
                            Ok(c) => {
                                proof {
                                    lemma_impl_items_push_ctor(
                                        node.items@.take(i as int),
                                        new_ctors@,
                                        new_meths@,
                                        old(self).types.names@,
                                        sname@,
                                        node.items@[i as int],
                                        c,
                                    );
                                    assert(node.items@.take(i as int).push(
                                        node.items@[i as int],
                                    ) =~= node.items@.take(i as int + 1));
                                }
                                new_ctors.push(c);
                            },
                            Err(e) => {
                                return Err(e);
                            },
                        }
                    } else {
                        match Method::from_native(m, &mut self.types) {
                            Ok(meth) => {
                                let mut meth = meth;
                                meth.object_name = sname.clone();
                                proof {
                                    lemma_impl_items_push_method(
                                        node.items@.take(i as int),
                                        new_ctors@,
                                        new_meths@,
                                        old(self).types.names@,
                                        sname@,
                                        node.items@[i as int],
                                        meth,
                                    );
                                    assert(node.items@.take(i as int).push(
                                        node.items@[i as int],
                                    ) =~= node.items@.take(i as int + 1));
                                }
                                new_meths.push(meth);
                            },
                            Err(e) => {
                                return Err(e);
                            },
                        }
                    }
                },
                crate::ast::NativeImplItemNode::Unsupported => {
                    return Err(
                        ConversionError::new(
                            ErrorKind::UnsupportedSyntax,
                            "this implementation item kind is not supported",
                        ),
                    );
                },
            }
            i += 1;
        }
        proof {
            assert(node.items@.take(end as int) =~= node.items@);
        }
        let ghost before = self.objects@;
        let ghost all_c = new_ctors@;
        let ghost all_m = new_meths@;
        let mut obj = self.objects.remove(ix);
        let ghost obj0 = obj;
        while new_ctors.len() > 0
            invariant
                obj.name == obj0.name,
                obj.methods == obj0.methods,
                obj.threadsafe == obj0.threadsafe,
                obj.docs == obj0.docs,
                obj.ffi_func_free == obj0.ffi_func_free,
                new_ctors@.len() <= all_c.len(),
                obj.constructors@ == obj0.constructors@ + all_c.take(
                    all_c.len() - new_ctors@.len(),
                ),
                new_ctors@ == all_c.skip(all_c.len() - new_ctors@.len()),
            decreases new_ctors@.len(),
        {
            let ghost k = all_c.len() - new_ctors@.len();
            let c = new_ctors.remove(0);
            proof {
                assert(c == all_c[k]);
                assert(all_c.skip(k).remove(0) =~= all_c.skip(k + 1));
                assert((obj0.constructors@ + all_c.take(k)).push(c) =~= obj0.constructors@
                    + all_c.take(k + 1));
            }
            obj.constructors.push(c);
        }
        proof {
            assert(all_c.take(all_c.len() as int) =~= all_c);
        }
        while new_meths.len() > 0
            invariant
                obj.name == obj0.name,
                obj.threadsafe == obj0.threadsafe,
                obj.docs == obj0.docs,
                obj.ffi_func_free == obj0.ffi_func_free,
                obj.constructors@ == obj0.constructors@ + all_c,
                new_meths@.len() <= all_m.len(),
                obj.methods@ == obj0.methods@ + all_m.take(all_m.len() - new_meths@.len()),
                new_meths@ == all_m.skip(all_m.len() - new_meths@.len()),
            decreases new_meths@.len(),
        {
            let ghost k = all_m.len() - new_meths@.len();
            let m = new_meths.remove(0);
            proof {
                assert(m == all_m[k]);
                assert(all_m.skip(k).remove(0) =~= all_m.skip(k + 1));
                assert((obj0.methods@ + all_m.take(k)).push(m) =~= obj0.methods@ + all_m.take(
                    k + 1,
                ));
            }
            obj.methods.push(m);
        }
        proof {
            assert(all_m.take(all_m.len() as int) =~= all_m);
        }
        self.objects.insert(ix, obj);
        proof {
            let sn = node.self_name->Some_0@;
            let n = self.objects@[ix as int];
            assert(self.objects@ =~= before.update(ix as int, n));
            assert(n.constructors@.skip(obj0.constructors@.len() as int) =~= all_c);
            assert(n.methods@.skip(obj0.methods@.len() as int) =~= all_m);
            assert(obj0.constructors@.is_prefix_of(n.constructors@)) by {
                assert(n.constructors@.take(obj0.constructors@.len() as int)
                    =~= obj0.constructors@);
            }
            assert(obj0.methods@.is_prefix_of(n.methods@)) by {
                assert(n.methods@.take(obj0.methods@.len() as int) =~= obj0.methods@);
            }
            lemma_items_methods_owned(node.items@, all_c, all_m, old(self).types.names@, sn);
            assert(object_gains(before[ix as int], n, node.items@, old(self).types.names@, sn));
        }
        Ok(())
    }

    /// Builds an interface from the parsed definitions of the interface
    /// definition language: one pass registers every definition's name so
    /// that forward references resolve, a second pass converts each
    /// definition, then the constructor-synthesis and derivation passes
    /// finish the model. It succeeds exactly when one namespace is
    /// declared, every name registers once and every definition converts,
    /// and the result holds exactly those conversions, finalized.
    pub fn build_from_idl(defs: &Vec<DefinitionNode>) -> (r: Result<
        ComponentInterface,
        ConversionError,
    >)
        ensures
            r is Ok <==> idl_build_ok(defs@),
            r is Ok ==> interface_derived(r->Ok_0),
            r is Ok ==> exists|j: int|
                0 <= j < defs@.len() && ((#[trigger] defs@[j]) matches DefinitionNode::NamespaceDef(
                    n,
                ) && r->Ok_0.namespace@ == n.name@),
            r is Ok ==> exists|mid: ComponentInterface| #[trigger] idl_assembled(defs@, mid)
                && finalized_from(mid, r->Ok_0),
    {
        let mut namespace: Option<String> = None;
        let mut i: usize = 0;
        let end = defs.len();
        while i < end
            invariant
                end == defs@.len(),
                i <= end,
                ns_count_from(defs@, 0) == (if namespace is Some {
                    1nat
                } else {
                    0nat
                }) + ns_count_from(defs@, i as int),
                namespace matches Some(s) ==> exists|j: int|
                    0 <= j < i && ((#[trigger] defs@[j]) matches DefinitionNode::NamespaceDef(n)
                        && s@ == n.name@),
            decreases end - i,
        {
            match &defs[i] {
                DefinitionNode::NamespaceDef(n) => {
                    if namespace.is_some() {
                        return Err(
                            ConversionError::new(
                                ErrorKind::StructuralViolation,
                                "a component has exactly one namespace definition",
                            ),
                        );
                    }
                    namespace = Some(n.name.clone());
                },
                _ => {},
            }
            i += 1;
        }
        let namespace = match namespace {
            None => {
                return Err(
                    ConversionError::new(
                        ErrorKind::StructuralViolation,
                        "a namespace definition is required",
                    ),
                );
            },
            Some(n) => n,
        };
        let ghost nsv = namespace@;
        let mut ci = ComponentInterface::new(namespace);
        let mut i: usize = 0;
        while i < end
            invariant
                end == defs@.len(),
                i <= end,
                ci.namespace@ == nsv,
                ns_count_from(defs@, 0) == 1,
                exists|j: int|
                    0 <= j < defs@.len() && ((#[trigger] defs@[j])
                        matches DefinitionNode::NamespaceDef(n) && nsv == n.name@),
                ci.enums@.len() == 0,
                ci.records@.len() == 0,
                ci.functions@.len() == 0,
                ci.objects@.len() == 0,
                ci.types.names@ == reg_names_upto(defs@, i as int),
                reg_err_from(defs@, 0) == reg_err_from(defs@, i as int),
            decreases end - i,
        {
            match &defs[i] {
                DefinitionNode::EnumDef(e) => {
                    match ci.types.add_name(e.name.clone(), NameKind::EnumName) {
                        Ok(_) => {},
                        Err(err) => {
                            return Err(err);
                        },
                    }
                },
                DefinitionNode::InterfaceDef(n) => {
                    let kind = if crate::attributes::contains_word(&n.attributes, "Enum") {
                        NameKind::EnumName
                    } else {
                        NameKind::ObjectName
                    };
                    match ci.types.add_name(n.name.clone(), kind) {
                        Ok(_) => {},
                        Err(err) => {
                            return Err(err);
                        },
                    }
                },
                DefinitionNode::DictionaryDef(d) => {
                    match ci.types.add_name(d.name.clone(), NameKind::RecordName) {
                        Ok(_) => {},
                        Err(err) => {
                            return Err(err);
                        },
                    }
                },
                DefinitionNode::NamespaceDef(_) => {},
                DefinitionNode::Unsupported => {
                    return Err(
                        ConversionError::new(
                            ErrorKind::UnsupportedSyntax,
                            "this definition kind is not supported",
                        ),
                    );
                },
            }
            i += 1;
        }
        let ghost nsall = reg_names_upto(defs@, defs@.len() as int);
        let mut i: usize = 0;
        while i < end
            invariant
                end == defs@.len(),
                i <= end,
                ci.namespace@ == nsv,
                ns_count_from(defs@, 0) == 1,
                exists|j: int|
                    0 <= j < defs@.len() && ((#[trigger] defs@[j])
                        matches DefinitionNode::NamespaceDef(n) && nsv == n.name@),
                reg_err_from(defs@, 0) is None,
                nsall == reg_names_upto(defs@, defs@.len() as int),
                ci.types.names@ == nsall,
                conv_err_from(defs@, nsall, 0) == conv_err_from(defs@, nsall, i as int),
                defs_built(
                    defs@.take(i as int),
                    ci.enums@,
                    ci.records@,
                    ci.functions@,
                    ci.objects@,
                    nsall,
                ),
            decreases end - i,
        {
            match &defs[i] {
                DefinitionNode::EnumDef(e) => {
                    let ghost es0 = ci.enums@;
                    let converted = Enum::from_idl_enum(e);
                    ci.enums.push(converted);
                    proof {
                        assert(defs@.take(i as int + 1).last() == defs@[i as int]);
                        assert(defs@.take(i as int + 1).drop_last() =~= defs@.take(i as int));
                        assert(ci.enums@.drop_last() =~= es0);
                    }
                },
                DefinitionNode::InterfaceDef(n) => {
                    if crate::attributes::contains_word(&n.attributes, "Enum") {
                        match Enum::from_idl_interface(n, &mut ci.types) {
                            Ok(e2) => {
                                let ghost es0 = ci.enums@;
                                ci.enums.push(e2);
                                proof {
                                    assert(defs@.take(i as int + 1).last() == defs@[i as int]);
                                    assert(defs@.take(i as int + 1).drop_last() =~= defs@.take(
                                        i as int,
                                    ));
                                    assert(ci.enums@.drop_last() =~= es0);
                                }
                            },
                            Err(err) => {
                                return Err(err);
                            },
                        }
                    } else {
                        match Object::from_idl(n, &mut ci.types) {
                            Ok(o) => {
                                proof {
                                    assert(obj_built_matches(o, *n, nsall));
                                }
                                let ghost os0 = ci.objects@;
                                ci.objects.push(o);
                                proof {
                                    assert(defs@.take(i as int + 1).last() == defs@[i as int]);
                                    assert(defs@.take(i as int + 1).drop_last() =~= defs@.take(
                                        i as int,
                                    ));
                                    assert(ci.objects@.drop_last() =~= os0);
                                }
                            },
                            Err(err) => {
                                return Err(err);
                            },
                        }
                    }
                },
                DefinitionNode::DictionaryDef(d) => {
                    match Record::from_idl(d, &mut ci.types) {
                        Ok(rec) => {
                            let ghost rs0 = ci.records@;
                            ci.records.push(rec);
                            proof {
                                assert(defs@.take(i as int + 1).last() == defs@[i as int]);
                                assert(defs@.take(i as int + 1).drop_last() =~= defs@.take(
                                    i as int,
                                ));
                                assert(ci.records@.drop_last() =~= rs0);
                            }
                        },
                        Err(err) => {
                            return Err(err);
                        },
                    }
                },
                DefinitionNode::NamespaceDef(n) => {
                    if n.unsupported_member {
                        return Err(
                            ConversionError::new(
                                ErrorKind::UnsupportedSyntax,
                                "this namespace member kind is not supported",
                            ),
                        );
                    }
                    let ghost fs_start = ci.functions@;
                    let mut k: usize = 0;
                    let opend = n.operations.len();
                    while k < opend
                        invariant
                            opend == n.operations@.len(),
                            k <= opend,
                            end == defs@.len(),
                            i < end,
                            defs@[i as int] matches DefinitionNode::NamespaceDef(nd) && nd == *n,
                            !n.unsupported_member,
                            ci.namespace@ == nsv,
                            ns_count_from(defs@, 0) == 1,
                            exists|j: int|
                                0 <= j < defs@.len() && ((#[trigger] defs@[j])
                                    matches DefinitionNode::NamespaceDef(nd2) && nsv == nd2.name@),
                            reg_err_from(defs@, 0) is None,
                            nsall == reg_names_upto(defs@, defs@.len() as int),
                            ci.types.names@ == nsall,
                            conv_err_from(defs@, nsall, 0) == conv_err_from(
                                defs@,
                                nsall,
                                i as int,
                            ),
                            defs_built(
                                defs@.take(i as int),
                                ci.enums@,
                                ci.records@,
                                fs_start,
                                ci.objects@,
                                nsall,
                            ),
                            ci.functions@.len() == fs_start.len() + k,
                            ci.functions@.take(fs_start.len() as int) == fs_start,
                            forall|j: int| 0 <= j < k ==> crate::function::fn_matches(
                                #[trigger] ci.functions@[fs_start.len() + j],
                                n.operations@[j],
                                nsall,
                            ),
                            fn_ops_err_from(n.operations@, nsall, 0) == fn_ops_err_from(
                                n.operations@,
                                nsall,
                                k as int,
                            ),
                        decreases opend - k,
                    {
                        match Function::from_idl(&n.operations[k], &mut ci.types) {
                            Ok(f) => {
                                ci.functions.push(f);
                                proof {
                                    assert(ci.functions@.take(fs_start.len() as int)
                                        =~= fs_start);
                                }
                            },
                            Err(err) => {
                                return Err(err);
                            },
                        }
                        k += 1;
                    }
                    proof {
                        assert(defs@.take(i as int + 1).last() == defs@[i as int]);
                        assert(defs@.take(i as int + 1).drop_last() =~= defs@.take(i as int));
                        assert(ci.functions@.len() - n.operations@.len() == fs_start.len());
                        assert(ci.functions@.take(fs_start.len() as int) =~= fs_start);
                        assert forall|j: int|
                            0 <= j < n.operations@.len() implies crate::function::fn_matches(
                            #[trigger] ci.functions@[ci.functions@.len() - n.operations@.len()
                                + j],
                            n.operations@[j],
                            nsall,
                        ) by {
                            assert(ci.functions@.len() - n.operations@.len() + j == fs_start.len()
                                + j);
                        }
                    }
                },
                DefinitionNode::Unsupported => {
                    proof {
                        lemma_reg_err_none_no_unsupported(defs@, 0, i as int);
                    }
                    return Err(
                        ConversionError::new(
                            ErrorKind::UnsupportedSyntax,
                            "this definition kind is not supported",
                        ),
                    );
                },
            }
            i += 1;
        }
        proof {
            assert(defs@.take(end as int) =~= defs@);
        }
        let ghost mid0 = ci;
        ci.ensure_constructors();
        proof {
            assert(ensured_from(mid0, ci));
        }
        let ghost mid1 = ci;
        match ci.derive_ffi_funcs() {
            Ok(_) => {},
            Err(err) => {
                return Err(err);
            },
        }
        proof {
            assert(ensured_from(mid0, mid1));
            assert(derived_from(mid1, ci));
            assert(finalized_from(mid0, ci));
            assert(idl_assembled(defs@, mid0));
        }
        Ok(ci)
    }

    /// Builds an interface from parsed native declarations under the
    /// given namespace: registration first, then conversion — an object's
    /// shell may arrive as a struct declaration and its members through
    /// later implementation blocks — then synthesis and derivation. It
    /// succeeds exactly when every name registers once and every item
    /// converts against an already-declared struct, and the result holds
    /// exactly those conversions, finalized.
    pub fn build_from_native(namespace: &str, items: &Vec<NativeItemNode>) -> (r: Result<
        ComponentInterface,
        ConversionError,
    >)
        ensures
            r is Ok <==> native_build_ok(items@),
            r is Ok ==> interface_derived(r->Ok_0),
            r is Ok ==> r->Ok_0.namespace@ == namespace@,
            r is Ok ==> exists|mid: ComponentInterface| #[trigger] native_assembled(
                items@,
                namespace@,
                mid,
            ) && finalized_from(mid, r->Ok_0),
    {
        let mut ci = ComponentInterface::new(String::from_str(namespace));
        let mut i: usize = 0;
        let end = items.len();
        while i < end
            invariant
                end == items@.len(),
                i <= end,
                ci.namespace@ == namespace@,
                ci.enums@.len() == 0,
                ci.records@.len() == 0,
                ci.functions@.len() == 0,
                ci.objects@.len() == 0,
                ci.types.names@ == native_reg_names_upto(items@, i as int),
                native_reg_err_from(items@, 0) == native_reg_err_from(items@, i as int),
            decreases end - i,
        {
            match &items[i] {
                NativeItemNode::EnumItem(e) => {
                    match ci.types.add_name(e.name.clone(), NameKind::EnumName) {
                        Ok(_) => {},
                        Err(err) => {
                            return Err(err);
                        },
                    }
                },
                NativeItemNode::StructItem(st) => {
                    match ci.types.add_name(st.name.clone(), NameKind::ObjectName) {
                        Ok(_) => {},
                        Err(err) => {
                            return Err(err);
                        },
                    }
                },
                NativeItemNode::ImplItem(_) => {},
                NativeItemNode::Unsupported => {
                    return Err(
                        ConversionError::new(
                            ErrorKind::UnsupportedSyntax,
                            "this item kind is not supported",
                        ),
                    );
                },
            }
            i += 1;
        }
        let ghost nsall = native_reg_names_upto(items@, items@.len() as int);
        let mut i: usize = 0;
        while i < end
            invariant
                end == items@.len(),
                i <= end,
                ci.namespace@ == namespace@,
                ci.records@.len() == 0,
                ci.functions@.len() == 0,
                native_reg_err_from(items@, 0) is None,
                nsall == native_reg_names_upto(items@, items@.len() as int),
                ci.types.names@ == nsall,
                native_conv_err_from(items@, nsall, 0) == native_conv_err_from(
                    items@,
                    nsall,
                    i as int,
                ),
                native_steps(items@.take(i as int), ci.enums@, ci.objects@, nsall),
                ci.objects@.len() == struct_names(items@.take(i as int)).len(),
                forall|k: int| 0 <= k < ci.objects@.len() ==> (#[trigger] ci.objects@[k]).name@
                    == struct_names(items@.take(i as int))[k],
            decreases end - i,
        {
            match &items[i] {
                NativeItemNode::EnumItem(e) => {
                    match Enum::from_native(e, &mut ci.types) {
                        Ok(converted) => {
                            let ghost es0 = ci.enums@;
                            ci.enums.push(converted);
                            proof {
                                assert(items@.take(i as int + 1).last() == items@[i as int]);
                                assert(items@.take(i as int + 1).drop_last() =~= items@.take(
                                    i as int,
                                ));
                                assert(ci.enums@.drop_last() =~= es0);
                            }
                        },
                        Err(err) => {
                            return Err(err);
                        },
                    }
                },
                NativeItemNode::StructItem(st) => {
                    match Object::from_native_struct(st) {
                        Ok(o) => {
                            let ghost os0 = ci.objects@;
                            ci.objects.push(o);
                            proof {
                                assert(items@.take(i as int + 1).last() == items@[i as int]);
                                assert(items@.take(i as int + 1).drop_last() =~= items@.take(
                                    i as int,
                                ));
                                assert(ci.objects@.drop_last() =~= os0);
                                assert(struct_names(items@.take(i as int + 1)) =~= struct_names(
                                    items@.take(i as int),
                                ).push(st.name@));
                            }
                        },
                        Err(err) => {
                            return Err(err);
                        },
                    }
                },
                NativeItemNode::ImplItem(im) => {
                    let ghost os0 = ci.objects@;
                    proof {
                        if im.self_name is Some {
                            let sn = im.self_name->Some_0@;
                            lemma_find_object_contains(os0, sn, 0);
                            if exists|k: int|
                                0 <= k < os0.len() && (#[trigger] os0[k]).name@ == sn {
                                let k = choose|k: int|
                                    0 <= k < os0.len() && (#[trigger] os0[k]).name@ == sn;
                                assert(struct_names(items@.take(i as int))[k] == sn);
                            }
                            if struct_declared_before(items@, i as int, sn) {
                                let k = choose|k: int|
                                    0 <= k < struct_names(items@.take(i as int)).len()
                                        && #[trigger] struct_names(items@.take(i as int))[k]
                                        == sn;
                                assert(os0[k].name@ == sn);
                            }
                            assert((find_object_from(os0, sn, 0) is Some)
                                == struct_declared_before(items@, i as int, sn));
                        }
                    }
                    match ci.process_native_impl(im) {
                        Ok(_) => {
                            proof {
                                assert(items@.take(i as int + 1).last() == items@[i as int]);
                                assert(items@.take(i as int + 1).drop_last() =~= items@.take(
                                    i as int,
                                ));
                                assert(im.self_name is Some);
                                let sn = im.self_name->Some_0@;
                                assert(find_object_from(os0, sn, 0) is Some);
                                lemma_find_object_index(os0, sn, 0);
                                let gix = find_object_from(os0, sn, 0)->Some_0;
                                assert(0 <= gix < os0.len());
                                assert(ci.objects@ == os0.update(gix, ci.objects@[gix]));
                                assert(object_gains(
                                    os0[gix],
                                    ci.objects@[gix],
                                    im.items@,
                                    nsall,
                                    sn,
                                ));
                                assert(native_steps(
                                    items@.take(i as int + 1),
                                    ci.enums@,
                                    ci.objects@,
                                    nsall,
                                ));
                                assert(struct_names(items@.take(i as int + 1)) =~= struct_names(
                                    items@.take(i as int),
                                ));
                                assert forall|k: int|
                                    0 <= k < ci.objects@.len() implies (#[trigger] ci.objects@[k]).name@
                                    == struct_names(items@.take(i as int + 1))[k] by {
                                    if k == gix {
                                        assert(ci.objects@[k].name@ == os0[k].name@);
                                    }
                                }
                            }
                        },
                        Err(err) => {
                            return Err(err);
                        },
                    }
                },
                NativeItemNode::Unsupported => {
                    proof {
                        lemma_native_reg_err_none_no_unsupported(items@, 0, i as int);
                    }
                    return Err(
                        ConversionError::new(
                            ErrorKind::UnsupportedSyntax,
                            "this item kind is not supported",
                        ),
                    );
                },
            }
            i += 1;
        }
        proof {
            assert(items@.take(end as int) =~= items@);
        }
        let ghost mid0 = ci;
        ci.ensure_constructors();
        proof {
            assert(ensured_from(mid0, ci));
        }
        let ghost mid1 = ci;
        match ci.derive_ffi_funcs() {
            Ok(_) => {},
            Err(err) => {
                return Err(err);
            },
        }
        proof {
            assert(ensured_from(mid0, mid1));
            assert(derived_from(mid1, ci));
            assert(finalized_from(mid0, ci));
            assert(native_assembled(items@, namespace@, mid0));
        }
        Ok(ci)
    }
}


impl ComponentInterface {
    /// Builds a finalized interface from interface-definition-language
    /// source text. The outside parser only produces the syntax tree;
    /// every conversion decision is made by the verified build pass.
    pub fn from_webidl(idl: &str) -> (r: Result<ComponentInterface, ConversionError>)
        ensures
            r is Ok ==> interface_derived(r->Ok_0),
            crate::frontend::parsed_idl(idl@) is None ==> r is Err && r->Err_0.kind
                == ErrorKind::UnsupportedSyntax,
            crate::frontend::parsed_idl(idl@) matches Some(d) ==> ((r is Ok <==> idl_build_ok(d))
                && (r is Ok ==> (exists|j: int|
                    0 <= j < d.len() && ((#[trigger] d[j]) matches DefinitionNode::NamespaceDef(n)
                        && r->Ok_0.namespace@ == n.name@)) && (exists|mid: ComponentInterface|
                    #[trigger] idl_assembled(d, mid) && finalized_from(mid, r->Ok_0)))),
    {
        let defs = match crate::frontend::parse_idl(idl) {
            Ok(d) => d,
            Err(_) => {
                return Err(
                    ConversionError::new(
                        ErrorKind::UnsupportedSyntax,
                        "the interface definition source does not parse",
                    ),
                );
            },
        };
        ComponentInterface::build_from_idl(&defs)
    }

    /// Builds a finalized interface from native declarations under the
    /// given namespace. The outside parser only produces the syntax tree;
    /// every conversion decision is made by the verified build pass.
    pub fn from_native(namespace: &str, src: &str) -> (r: Result<
        ComponentInterface,
        ConversionError,
    >)
        ensures
            r is Ok ==> interface_derived(r->Ok_0),
            r is Ok ==> r->Ok_0.namespace@ == namespace@,
            crate::frontend::parsed_native(src@) is None ==> r is Err && r->Err_0.kind
                == ErrorKind::UnsupportedSyntax,
            crate::frontend::parsed_native(src@) matches Some(d) ==> ((r is Ok
                <==> native_build_ok(d)) && (r is Ok ==> exists|mid: ComponentInterface|
                #[trigger] native_assembled(d, namespace@, mid) && finalized_from(mid, r->Ok_0))),
    {
        let items = match crate::frontend::parse_native(src) {
            Ok(d) => d,
            Err(_) => {
                return Err(
                    ConversionError::new(
                        ErrorKind::UnsupportedSyntax,
                        "the native source does not parse",
                    ),
                );
            },
        };
        ComponentInterface::build_from_native(namespace, &items)
    }
}


/// Whether an argument declaration of the interface definition language
/// and a native argument declaration express the same logical content.
pub open spec fn arg_decls_correspond(
    a: crate::ast::ArgNode,
    na: crate::ast::NativeArgNode,
    names: Seq<crate::types::NameEntry>,
) -> bool {
    &&& na.name matches Some(n) && a.name@ == n@
    &&& crate::enum_::type_exprs_agree(a.type_, na.type_, names)
    &&& (a.attributes@.len() > 0) == na.by_ref
    &&& a.optional == false
    &&& a.default is None
}

/// The expression whose resolution becomes a native return value, if any:
/// void forms yield none, a fallible form yields its success side.
pub open spec fn native_ret_value_expr(ret: Option<crate::ast::TypeExpr>) -> Option<
    crate::ast::TypeExpr,
> {
    match ret {
        None => None,
        Some(e) => match e {
            crate::ast::TypeExpr::Tuple(_) => None,
            crate::ast::TypeExpr::Apply(n, args) => if n@ == "Result"@ {
                if crate::object::is_empty_tuple(args@[0]) {
                    None
                } else {
                    Some(args@[0])
                }
            } else {
                Some(crate::ast::TypeExpr::Apply(n, args))
            },
            _ => Some(e),
        },
    }
}

/// Whether a constructor member and a native associated function express
/// the same logical content.
pub open spec fn ctor_decls_correspond(
    attrs: Seq<crate::ast::AttrNode>,
    args: Seq<crate::ast::ArgNode>,
    m: crate::ast::NativeMethodNode,
    names: Seq<crate::types::NameEntry>,
) -> bool {
    &&& m.name@ == "new"@
    &&& args.len() == m.args@.len()
    &&& forall|j: int| 0 <= j < args.len() ==> arg_decls_correspond(
        #[trigger] args[j],
        m.args@[j],
        names,
    )
    &&& crate::function::throws_agrees(
        crate::attributes::spec_throws(attrs),
        crate::object::native_throws_of(m.ret),
    )
}

/// Whether an operation member and a native method express the same
/// logical content.
pub open spec fn op_method_correspond(
    op: crate::ast::OperationNode,
    m: crate::ast::NativeMethodNode,
    names: Seq<crate::types::NameEntry>,
) -> bool {
    &&& op.name matches Some(n) && n@ == m.name@
    &&& m.name@ != "new"@
    &&& op.static_ == !m.has_receiver
    &&& op.args@.len() == m.args@.len()
    &&& forall|j: int| 0 <= j < op.args@.len() ==> arg_decls_correspond(
        #[trigger] op.args@[j],
        m.args@[j],
        names,
    )
    &&& match (op.ret, native_ret_value_expr(m.ret)) {
        (None, None) => true,
        (Some(a), Some(b)) => crate::enum_::type_exprs_agree(a, b, names),
        _ => false,
    }
    &&& crate::function::throws_agrees(
        crate::attributes::spec_throws(op.attributes@),
        crate::object::native_throws_of(m.ret),
    )
}

/// Whether one interface member and one implementation item express the
/// same logical content.
pub open spec fn member_decls_correspond(
    mem: crate::ast::InterfaceMemberNode,
    it: crate::ast::NativeImplItemNode,
    names: Seq<crate::types::NameEntry>,
) -> bool {
    match (mem, it) {
        (
            crate::ast::InterfaceMemberNode::Constructor { attributes, args },
            crate::ast::NativeImplItemNode::Method(m),
        ) => ctor_decls_correspond(attributes@, args@, m, names),
        (
            crate::ast::InterfaceMemberNode::Operation(op),
            crate::ast::NativeImplItemNode::Method(m),
        ) => op_method_correspond(op, m, names),
        _ => false,
    }
}

/// Whether an interface declaration's member list and an implementation
/// block's item list express the same logical content, pairwise in order.
pub open spec fn decls_correspond(
    ms: Seq<crate::ast::InterfaceMemberNode>,
    items: Seq<crate::ast::NativeImplItemNode>,
    names: Seq<crate::types::NameEntry>,
) -> bool {
    ms.len() == items.len() && (forall|i: int| 0 <= i < ms.len() ==> member_decls_correspond(
        #[trigger] ms[i],
        items[i],
        names,
    ))
}

proof fn lemma_corresponding_ctors_view_eq(
    attrs: Seq<crate::ast::AttrNode>,
    args: Seq<crate::ast::ArgNode>,
    m: crate::ast::NativeMethodNode,
    c1: Constructor,
    c2: Constructor,
    names: Seq<crate::types::NameEntry>,
)
    requires
        ctor_decls_correspond(attrs, args, m, names),
        crate::object::ctor_matches(c1, attrs, args, names),
        crate::object::ctor_native_matches(c2, m, names),
    ensures
        crate::checksum::ctor_view_eq(c1, c2),
{
    assert forall|j: int|
        0 <= j < c1.arguments@.len() implies crate::checksum::arg_view_eq(
        c1.arguments@[j],
        c2.arguments@[j],
    ) by {
        assert(arg_decls_correspond(args[j], m.args@[j], names));
        assert(crate::function::arg_matches(c1.arguments@[j], args[j], names));
        assert(crate::function::native_arg_matches(c2.arguments@[j], m.args@[j], names));
        assert(crate::types::resolves_to(args[j].type_, names, c1.arguments@[j].type_));
        assert(crate::types::resolves_to(m.args@[j].type_, names, c2.arguments@[j].type_));
    }
}

proof fn lemma_corresponding_methods_view_eq(
    op: crate::ast::OperationNode,
    m: crate::ast::NativeMethodNode,
    m1: Method,
    m2: Method,
    names: Seq<crate::types::NameEntry>,
    obj: Seq<char>,
)
    requires
        op_method_correspond(op, m, names),
        crate::object::method_op_matches_owned(m1, op, names, obj),
        method_native_matches_owned(m2, m, names, obj),
    ensures
        crate::checksum::method_view_eq(m1, m2),
{
    assert forall|j: int|
        0 <= j < m1.arguments@.len() implies crate::checksum::arg_view_eq(
        m1.arguments@[j],
        m2.arguments@[j],
    ) by {
        assert(arg_decls_correspond(op.args@[j], m.args@[j], names));
        assert(crate::function::arg_matches(m1.arguments@[j], op.args@[j], names));
        assert(crate::function::native_arg_matches(m2.arguments@[j], m.args@[j], names));
        assert(crate::types::resolves_to(op.args@[j].type_, names, m1.arguments@[j].type_));
        assert(crate::types::resolves_to(m.args@[j].type_, names, m2.arguments@[j].type_));
    }
    match (m1.return_type, m2.return_type) {
        (Some(t1), Some(t2)) => {
            let a = op.ret->Some_0;
            let b = native_ret_value_expr(m.ret)->Some_0;
            assert(crate::types::resolves_to(a, names, t1));
            assert(crate::types::resolves_to(b, names, t2));
            assert(crate::enum_::type_exprs_agree(a, b, names));
        },
        _ => {},
    }
}

proof fn lemma_members_items_agree(
    ms: Seq<crate::ast::InterfaceMemberNode>,
    items: Seq<crate::ast::NativeImplItemNode>,
    cs1: Seq<Constructor>,
    ms1: Seq<Method>,
    cs2: Seq<Constructor>,
    ms2: Seq<Method>,
    names: Seq<crate::types::NameEntry>,
    obj: Seq<char>,
)
    requires
        obj_members_match(ms, cs1, ms1, names, obj),
        impl_items_match(items, cs2, ms2, names, obj),
        decls_correspond(ms, items, names),
    ensures
        cs1.len() == cs2.len(),
        forall|j: int| 0 <= j < cs1.len() ==> crate::checksum::ctor_view_eq(
            #[trigger] cs1[j],
            cs2[j],
        ),
        ms1.len() == ms2.len(),
        forall|j: int| 0 <= j < ms1.len() ==> crate::checksum::method_view_eq(
            #[trigger] ms1[j],
            ms2[j],
        ),
    decreases ms.len(),
{
    if ms.len() > 0 {
        assert(member_decls_correspond(ms[0], items[0], names));
        assert forall|i: int|
            0 <= i < ms.skip(1).len() implies member_decls_correspond(
            #[trigger] ms.skip(1)[i],
            items.skip(1)[i],
            names,
        ) by {
            assert(ms.skip(1)[i] == ms[i + 1]);
            assert(items.skip(1)[i] == items[i + 1]);
        }
        match (ms[0], items[0]) {
            (
                crate::ast::InterfaceMemberNode::Constructor { attributes, args },
                crate::ast::NativeImplItemNode::Method(m),
            ) => {
                lemma_members_items_agree(
                    ms.skip(1),
                    items.skip(1),
                    cs1.skip(1),
                    ms1,
                    cs2.skip(1),
                    ms2,
                    names,
                    obj,
                );
                lemma_corresponding_ctors_view_eq(attributes@, args@, m, cs1[0], cs2[0], names);
                assert forall|j: int|
                    0 <= j < cs1.len() implies crate::checksum::ctor_view_eq(
                    #[trigger] cs1[j],
                    cs2[j],
                ) by {
                    if j > 0 {
                        assert(cs1.skip(1)[j - 1] == cs1[j]);
                        assert(cs2.skip(1)[j - 1] == cs2[j]);
                    }
                }
            },
            (
                crate::ast::InterfaceMemberNode::Operation(op),
                crate::ast::NativeImplItemNode::Method(m),
            ) => {
                lemma_members_items_agree(
                    ms.skip(1),
                    items.skip(1),
                    cs1,
                    ms1.skip(1),
                    cs2,
                    ms2.skip(1),
                    names,
                    obj,
                );
                lemma_corresponding_methods_view_eq(op, m, ms1[0], ms2[0], names, obj);
                assert forall|j: int|
                    0 <= j < ms1.len() implies crate::checksum::method_view_eq(
                    #[trigger] ms1[j],
                    ms2[j],
                ) by {
                    if j > 0 {
                        assert(ms1.skip(1)[j - 1] == ms1[j]);
                        assert(ms2.skip(1)[j - 1] == ms2[j]);
                    }
                }
            },
            _ => {},
        }
    }
}

/// An object whose members were declared through the interface definition
/// language and one whose members arrived through an implementation block
/// carry the same logical content, and so the same checksum, whenever the
/// two declaration lists correspond pairwise.
pub proof fn lemma_front_ends_agree_on_objects(
    ms: Seq<crate::ast::InterfaceMemberNode>,
    items: Seq<crate::ast::NativeImplItemNode>,
    o1: Object,
    o2: Object,
    names: Seq<crate::types::NameEntry>,
)
    requires
        o1.name@ == o2.name@,
        o1.threadsafe == o2.threadsafe,
        obj_members_match(ms, o1.constructors@, o1.methods@, names, o1.name@),
        impl_items_match(items, o2.constructors@, o2.methods@, names, o2.name@),
        decls_correspond(ms, items, names),
    ensures
        crate::checksum::object_view_eq(o1, o2),
        crate::checksum::object_checksum(o1) == crate::checksum::object_checksum(o2),
{
    lemma_members_items_agree(
        ms,
        items,
        o1.constructors@,
        o1.methods@,
        o2.constructors@,
        o2.methods@,
        names,
        o1.name@,
    );
    crate::checksum::lemma_object_checksum_respects_content(o1, o2);
}


/// One registration step: the entry joins the registry only when its name
/// is fresh; the duplicate case aborts the build, so what follows it is
/// irrelevant.
pub open spec fn reg_push(prev: Seq<crate::types::NameEntry>, name: String, kind: NameKind) -> Seq<
    crate::types::NameEntry,
> {
    if crate::types::name_kind(prev, name@) is None {
        prev.push(crate::types::NameEntry { name, kind })
    } else {
        prev
    }
}

/// The registered names after the first `i` definitions of the
/// registration pass.
pub open spec fn reg_names_upto(defs: Seq<DefinitionNode>, i: int) -> Seq<crate::types::NameEntry>
    decreases i,
{
    if i <= 0 {
        Seq::empty()
    } else {
        let prev = reg_names_upto(defs, i - 1);
        match defs[i - 1] {
            DefinitionNode::EnumDef(e) => reg_push(prev, e.name, NameKind::EnumName),
            DefinitionNode::InterfaceDef(n) => reg_push(
                prev,
                n.name,
                if crate::attributes::has_word(n.attributes@, "Enum"@) {
                    NameKind::EnumName
                } else {
                    NameKind::ObjectName
                },
            ),
            DefinitionNode::DictionaryDef(d) => reg_push(prev, d.name, NameKind::RecordName),
            _ => prev,
        }
    }
}

/// How many namespace definitions stand at or after index `i`.
pub open spec fn ns_count_from(defs: Seq<DefinitionNode>, i: int) -> nat
    decreases defs.len() - i,
{
    if i < 0 || i >= defs.len() {
        0
    } else if (defs[i] matches DefinitionNode::NamespaceDef(_)) {
        1 + ns_count_from(defs, i + 1)
    } else {
        ns_count_from(defs, i + 1)
    }
}

/// The first registration failure, scanning from `i` on: an unsupported
/// definition kind, or a name already registered.
pub open spec fn reg_err_from(defs: Seq<DefinitionNode>, i: int) -> Option<ErrorKind>
    decreases defs.len() - i,
{
    if i < 0 || i >= defs.len() {
        None
    } else {
        let dup = match defs[i] {
            DefinitionNode::EnumDef(e) => crate::types::name_kind(
                reg_names_upto(defs, i),
                e.name@,
            ) is Some,
            DefinitionNode::InterfaceDef(n) => crate::types::name_kind(
                reg_names_upto(defs, i),
                n.name@,
            ) is Some,
            DefinitionNode::DictionaryDef(d) => crate::types::name_kind(
                reg_names_upto(defs, i),
                d.name@,
            ) is Some,
            _ => false,
        };
        if (defs[i] matches DefinitionNode::Unsupported) {
            Some(ErrorKind::UnsupportedSyntax)
        } else if dup {
            Some(ErrorKind::StructuralViolation)
        } else {
            reg_err_from(defs, i + 1)
        }
    }
}

/// The first failing namespace operation's error category, scanning from
/// `i` on.
pub open spec fn fn_ops_err_from(
    ops: Seq<crate::ast::OperationNode>,
    names: Seq<crate::types::NameEntry>,
    i: int,
) -> Option<ErrorKind>
    decreases ops.len() - i,
{
    if i < 0 || i >= ops.len() {
        None
    } else if !crate::function::fn_op_ok(ops[i], names) {
        Some(crate::function::fn_op_err_kind(ops[i], names))
    } else {
        fn_ops_err_from(ops, names, i + 1)
    }
}

/// The first conversion failure of the second pass, scanning from `i` on.
pub open spec fn conv_err_from(
    defs: Seq<DefinitionNode>,
    names: Seq<crate::types::NameEntry>,
    i: int,
) -> Option<ErrorKind>
    decreases defs.len() - i,
{
    if i < 0 || i >= defs.len() {
        None
    } else {
        let here: Option<ErrorKind> = match defs[i] {
            DefinitionNode::EnumDef(_) => None,
            DefinitionNode::InterfaceDef(n) => if crate::attributes::has_word(
                n.attributes@,
                "Enum"@,
            ) {
                if !n.inherits && crate::enum_::enum_members_err_from(n.members@, names, 0)
                    is None {
                    None
                } else {
                    Some(
                        if n.inherits {
                            ErrorKind::UnsupportedSyntax
                        } else {
                            crate::enum_::enum_members_err_from(n.members@, names, 0)->Some_0
                        },
                    )
                }
            } else {
                if crate::object::obj_ok(n, names) {
                    None
                } else {
                    Some(crate::object::obj_err_kind(n, names))
                }
            },
            DefinitionNode::DictionaryDef(d) => if !d.inherits
                && crate::record::dict_members_err_from(d.members@, names, 0) is None {
                None
            } else {
                Some(
                    if d.inherits {
                        ErrorKind::UnsupportedSyntax
                    } else {
                        crate::record::dict_members_err_from(d.members@, names, 0)->Some_0
                    },
                )
            },
            DefinitionNode::NamespaceDef(nsd) => if nsd.unsupported_member {
                Some(ErrorKind::UnsupportedSyntax)
            } else {
                fn_ops_err_from(nsd.operations@, names, 0)
            },
            DefinitionNode::Unsupported => Some(ErrorKind::UnsupportedSyntax),
        };
        if here is Some {
            here
        } else {
            conv_err_from(defs, names, i + 1)
        }
    }
}

/// Whether a definition list builds: exactly one namespace definition,
/// every name registered once, every definition converted.
pub open spec fn idl_build_ok(defs: Seq<DefinitionNode>) -> bool {
    &&& ns_count_from(defs, 0) == 1
    &&& reg_err_from(defs, 0) is None
    &&& conv_err_from(defs, reg_names_upto(defs, defs.len() as int), 0) is None
}

/// What `Object::from_idl` promises of a converted interface declaration.
pub open spec fn obj_built_matches(
    o: Object,
    node: crate::ast::InterfaceNode,
    names: Seq<crate::types::NameEntry>,
) -> bool {
    &&& o.name@ == node.name@
    &&& o.threadsafe == crate::attributes::has_word(node.attributes@, "Threadsafe"@)
    &&& o.docs@.len() == 0
    &&& o.constructors@.len() >= 1
    &&& crate::ffi::ffi_empty(o.ffi_func_free)
    &&& if crate::object::has_ctor_member(node.members@) {
        obj_members_match(node.members@, o.constructors@, o.methods@, names, node.name@)
    } else {
        obj_members_match(node.members@, Seq::empty(), o.methods@, names, node.name@)
            && o.constructors@.len() == 1 && default_constructor(o.constructors@[0])
    }
}

/// Whether the four definition lists hold exactly the conversions of the
/// definitions, in declaration order, under the registered names.
pub open spec fn defs_built(
    defs: Seq<DefinitionNode>,
    es: Seq<Enum>,
    rs: Seq<Record>,
    fs: Seq<Function>,
    os: Seq<Object>,
    names: Seq<crate::types::NameEntry>,
) -> bool
    decreases defs.len(),
{
    if defs.len() == 0 {
        es.len() == 0 && rs.len() == 0 && fs.len() == 0 && os.len() == 0
    } else {
        match defs.last() {
            DefinitionNode::EnumDef(e) => es.len() > 0 && crate::enum_::plain_enum_matches(
                es.last(),
                e,
            ) && defs_built(defs.drop_last(), es.drop_last(), rs, fs, os, names),
            DefinitionNode::InterfaceDef(n) => if crate::attributes::has_word(
                n.attributes@,
                "Enum"@,
            ) {
                es.len() > 0 && crate::enum_::enum_iface_matches(es.last(), n, names)
                    && defs_built(defs.drop_last(), es.drop_last(), rs, fs, os, names)
            } else {
                os.len() > 0 && obj_built_matches(os.last(), n, names) && defs_built(
                    defs.drop_last(),
                    es,
                    rs,
                    fs,
                    os.drop_last(),
                    names,
                )
            },
            DefinitionNode::DictionaryDef(d) => rs.len() > 0 && crate::record::record_matches(
                rs.last(),
                d,
                names,
            ) && defs_built(defs.drop_last(), es, rs.drop_last(), fs, os, names),
            DefinitionNode::NamespaceDef(nsd) => fs.len() >= nsd.operations@.len() && (forall|
                j: int,
            |
                0 <= j < nsd.operations@.len() ==> crate::function::fn_matches(
                    #[trigger] fs[fs.len() - nsd.operations@.len() + j],
                    nsd.operations@[j],
                    names,
                )) && defs_built(
                defs.drop_last(),
                es,
                rs,
                fs.take(fs.len() - nsd.operations@.len()),
                os,
                names,
            ),
            DefinitionNode::Unsupported => false,
        }
    }
}

/// Whether the constructor-synthesis pass turned `a` into `b`.
pub open spec fn ensured_from(a: ComponentInterface, b: ComponentInterface) -> bool {
    &&& b.namespace == a.namespace
    &&& b.types == a.types
    &&& b.enums == a.enums
    &&& b.records == a.records
    &&& b.functions == a.functions
    &&& b.objects@.len() == a.objects@.len()
    &&& forall|i: int| 0 <= i < a.objects@.len() ==> obj_ctors_ensured(
        a.objects@[i],
        #[trigger] b.objects@[i],
    )
}

/// Whether the derivation pass turned `b` into `c`, under `b`'s own
/// checksum-bearing prefix.
pub open spec fn derived_from(b: ComponentInterface, c: ComponentInterface) -> bool {
    &&& c.namespace == b.namespace
    &&& c.types == b.types
    &&& c.enums == b.enums
    &&& c.records == b.records
    &&& c.functions@.len() == b.functions@.len()
    &&& forall|i: int| 0 <= i < b.functions@.len() ==> function_derived_ci(
        b.functions@[i],
        #[trigger] c.functions@[i],
        spec_ffi_namespace(b),
    )
    &&& c.objects@.len() == b.objects@.len()
    &&& forall|i: int| 0 <= i < b.objects@.len() ==> object_derived_ci(
        b.objects@[i],
        #[trigger] c.objects@[i],
        spec_ffi_namespace(b),
    )
}

/// Whether the two finalize passes turn the assembled interface `a` into
/// the finished interface `c`.
pub open spec fn finalized_from(a: ComponentInterface, c: ComponentInterface) -> bool {
    exists|b: ComponentInterface| #[trigger] ensured_from(a, b) && derived_from(b, c)
}

/// Whether `mid` is the interface the definition list assembles into,
/// before the finalize passes run.
pub open spec fn idl_assembled(defs: Seq<DefinitionNode>, mid: ComponentInterface) -> bool {
    &&& exists|j: int|
        0 <= j < defs.len() && ((#[trigger] defs[j]) matches DefinitionNode::NamespaceDef(n)
            && mid.namespace@ == n.name@)
    &&& mid.types.names@ == reg_names_upto(defs, defs.len() as int)
    &&& defs_built(
        defs,
        mid.enums@,
        mid.records@,
        mid.functions@,
        mid.objects@,
        reg_names_upto(defs, defs.len() as int),
    )
}

/// Under an error-free registration pass no definition is of an
/// unsupported kind.
proof fn lemma_reg_err_none_no_unsupported(defs: Seq<DefinitionNode>, j: int, i: int)
    requires
        reg_err_from(defs, j) is None,
        0 <= j <= i < defs.len(),
    ensures
        !(defs[i] matches DefinitionNode::Unsupported),
    decreases i - j,
{
    if j < i {
        lemma_reg_err_none_no_unsupported(defs, j + 1, i);
    }
}


/// The registered names after the first `i` items of the native
/// registration pass.
pub open spec fn native_reg_names_upto(items: Seq<NativeItemNode>, i: int) -> Seq<
    crate::types::NameEntry,
>
    decreases i,
{
    if i <= 0 {
        Seq::empty()
    } else {
        let prev = native_reg_names_upto(items, i - 1);
        match items[i - 1] {
            NativeItemNode::EnumItem(e) => reg_push(prev, e.name, NameKind::EnumName),
            NativeItemNode::StructItem(st) => reg_push(prev, st.name, NameKind::ObjectName),
            _ => prev,
        }
    }
}

/// The first native registration failure, scanning from `i` on.
pub open spec fn native_reg_err_from(items: Seq<NativeItemNode>, i: int) -> Option<ErrorKind>
    decreases items.len() - i,
{
    if i < 0 || i >= items.len() {
        None
    } else {
        let dup = match items[i] {
            NativeItemNode::EnumItem(e) => crate::types::name_kind(
                native_reg_names_upto(items, i),
                e.name@,
            ) is Some,
            NativeItemNode::StructItem(st) => crate::types::name_kind(
                native_reg_names_upto(items, i),
                st.name@,
            ) is Some,
            _ => false,
        };
        if (items[i] matches NativeItemNode::Unsupported) {
            Some(ErrorKind::UnsupportedSyntax)
        } else if dup {
            Some(ErrorKind::StructuralViolation)
        } else {
            native_reg_err_from(items, i + 1)
        }
    }
}

/// The names of the struct declarations in `items`, in order.
pub open spec fn struct_names(items: Seq<NativeItemNode>) -> Seq<Seq<char>>
    decreases items.len(),
{
    if items.len() == 0 {
        Seq::empty()
    } else {
        match items.last() {
            NativeItemNode::StructItem(st) => struct_names(items.drop_last()).push(st.name@),
            _ => struct_names(items.drop_last()),
        }
    }
}

/// Whether a struct named `sn` is declared among the first `i` items.
pub open spec fn struct_declared_before(items: Seq<NativeItemNode>, i: int, sn: Seq<char>) -> bool {
    exists|k: int|
        0 <= k < struct_names(items.take(i)).len() && #[trigger] struct_names(items.take(i))[k]
            == sn
}

/// The first native conversion failure, scanning from `i` on. An
/// implementation block fails when it names no plain type, when no struct
/// declared before it carries that name, or when one of its items fails.
pub open spec fn native_conv_err_from(
    items: Seq<NativeItemNode>,
    names: Seq<crate::types::NameEntry>,
    i: int,
) -> Option<ErrorKind>
    decreases items.len() - i,
{
    if i < 0 || i >= items.len() {
        None
    } else {
        let here: Option<ErrorKind> = match items[i] {
            NativeItemNode::EnumItem(e) => if crate::attributes::docs_ok(e.attributes@)
                && crate::enum_::native_variants_err_from(e.variants@, names, 0) is None {
                None
            } else {
                Some(
                    if !crate::attributes::docs_ok(e.attributes@) {
                        ErrorKind::AttributeViolation
                    } else {
                        crate::enum_::native_variants_err_from(e.variants@, names, 0)->Some_0
                    },
                )
            },
            NativeItemNode::StructItem(st) => if crate::attributes::docs_ok(st.attributes@) {
                None
            } else {
                Some(ErrorKind::AttributeViolation)
            },
            NativeItemNode::ImplItem(im) => if im.self_name is None {
                Some(ErrorKind::UnsupportedSyntax)
            } else if !struct_declared_before(items, i, im.self_name->Some_0@) {
                Some(ErrorKind::UnknownTypeName)
            } else {
                impl_items_err_from(im.items@, names, 0)
            },
            NativeItemNode::Unsupported => Some(ErrorKind::UnsupportedSyntax),
        };
        if here is Some {
            here
        } else {
            native_conv_err_from(items, names, i + 1)
        }
    }
}

/// Whether a native item list builds: every name registers once and every
/// item converts, each implementation block finding its struct.
pub open spec fn native_build_ok(items: Seq<NativeItemNode>) -> bool {
    &&& native_reg_err_from(items, 0) is None
    &&& native_conv_err_from(items, native_reg_names_upto(items, items.len() as int), 0) is None
}

/// What `Object::from_native_struct` promises of a converted struct
/// declaration: a bare shell whose members arrive later.
pub open spec fn obj_shell_matches(o: Object, st: crate::ast::NativeStructNode) -> bool {
    &&& o.name@ == st.name@
    &&& o.constructors@.len() == 0
    &&& o.methods@.len() == 0
    &&& o.threadsafe == false
    &&& crate::attributes::docs_match(o.docs@, st.attributes@)
    &&& crate::ffi::ffi_empty(o.ffi_func_free)
}

/// Whether the enum and object lists are exactly what the native items
/// assemble, in order: enum declarations convert, struct declarations
/// open shells, and each implementation block updates the object it
/// names, appending exactly the conversions of its items.
pub open spec fn native_steps(
    items: Seq<NativeItemNode>,
    es: Seq<Enum>,
    os: Seq<Object>,
    names: Seq<crate::types::NameEntry>,
) -> bool
    decreases items.len(),
{
    if items.len() == 0 {
        es.len() == 0 && os.len() == 0
    } else {
        match items.last() {
            NativeItemNode::EnumItem(e) => es.len() > 0 && crate::enum_::native_enum_matches(
                es.last(),
                e,
                names,
            ) && native_steps(items.drop_last(), es.drop_last(), os, names),
            NativeItemNode::StructItem(st) => os.len() > 0 && obj_shell_matches(os.last(), st)
                && native_steps(items.drop_last(), es, os.drop_last(), names),
            NativeItemNode::ImplItem(im) => im.self_name is Some && (exists|prev: Seq<Object>|
                (#[trigger] find_object_from(prev, im.self_name->Some_0@, 0)) matches Some(gix)
                    && os.len() == prev.len() && os == prev.update(gix, os[gix]) && object_gains(
                    prev[gix],
                    os[gix],
                    im.items@,
                    names,
                    im.self_name->Some_0@,
                ) && native_steps(items.drop_last(), es, prev, names)),
            NativeItemNode::Unsupported => false,
        }
    }
}

/// Whether `mid` is the interface the native items assemble into under
/// the given namespace, before the finalize passes run.
pub open spec fn native_assembled(
    items: Seq<NativeItemNode>,
    ns: Seq<char>,
    mid: ComponentInterface,
) -> bool {
    &&& mid.namespace@ == ns
    &&& mid.types.names@ == native_reg_names_upto(items, items.len() as int)
    &&& mid.records@.len() == 0
    &&& mid.functions@.len() == 0
    &&& native_steps(
        items,
        mid.enums@,
        mid.objects@,
        native_reg_names_upto(items, items.len() as int),
    )
}

/// A successful search of the object list returns an in-range position
/// holding the name.
proof fn lemma_find_object_index(os: Seq<Object>, sn: Seq<char>, i: int)
    requires
        0 <= i <= os.len(),
    ensures
        find_object_from(os, sn, i) matches Some(ix) ==> i <= ix < os.len() && os[ix].name@ == sn,
    decreases os.len() - i,
{
    if i < os.len() {
        lemma_find_object_index(os, sn, i + 1);
    }
}

/// A search of the object list succeeds exactly when some entry carries
/// the name.
proof fn lemma_find_object_contains(os: Seq<Object>, sn: Seq<char>, i: int)
    requires
        0 <= i <= os.len(),
    ensures
        (find_object_from(os, sn, i) is Some) <==> exists|k: int|
            i <= k < os.len() && (#[trigger] os[k]).name@ == sn,
    decreases os.len() - i,
{
    if i < os.len() {
        lemma_find_object_contains(os, sn, i + 1);
    }
}

/// Under an error-free native registration pass no item is of an
/// unsupported kind.
proof fn lemma_native_reg_err_none_no_unsupported(items: Seq<NativeItemNode>, j: int, i: int)
    requires
        native_reg_err_from(items, j) is None,
        0 <= j <= i < items.len(),
    ensures
        !(items[i] matches NativeItemNode::Unsupported),
    decreases i - j,
{
    if j < i {
        lemma_native_reg_err_none_no_unsupported(items, j + 1, i);
    }
}

} // verus!






