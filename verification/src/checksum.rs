use vstd::prelude::*;

use crate::ast::Literal;
use crate::enum_::{Enum, Variant};
use crate::function::{Argument, Function};
use crate::object::{Constructor, Method, Object};
use crate::record::{Field, Record};
use crate::types::canon;

verus! {

/// The seed of the structural hash.
pub const CHECKSUM_SEED: u64 = 0xcbf29ce484222325;

/// One mixing step of the structural hash.
pub open spec fn mix(h: u64, x: u64) -> u64 {
    vstd::wrapping::u64_specs::wrapping_add(vstd::wrapping::u64_specs::wrapping_mul(h, 31), x)
}

/// Folds the characters of `s` into the hash, from index `i` on.
pub open spec fn hash_chars_from(h: u64, s: Seq<char>, i: int) -> u64
    decreases s.len() - i,
{
    if i < 0 || i >= s.len() {
        h
    } else {
        hash_chars_from(mix(h, s[i] as u64), s, i + 1)
    }
}

/// Folds a whole string into the hash, closed by a delimiter so that
/// adjacent strings cannot run together.
pub open spec fn hash_str(h: u64, s: Seq<char>) -> u64 {
    mix(hash_chars_from(h, s, 0), 0xffff_ffff)
}

/// Folds an optional string, tagged by presence.
pub open spec fn hash_opt_str(h: u64, o: Option<String>) -> u64 {
    match o {
        None => mix(h, 0),
        Some(s) => hash_str(mix(h, 1), s@),
    }
}

/// Folds a literal, tagged by its form.
pub open spec fn hash_lit(h: u64, l: Literal) -> u64 {
    match l {
        Literal::Boolean(b) => mix(mix(h, 2), if b { 1 } else { 0 }),
        Literal::Str(s) => hash_str(mix(h, 3), s@),
        Literal::Number(s) => hash_str(mix(h, 4), s@),
        Literal::EmptyList => mix(h, 5),
        Literal::Null => mix(h, 6),
        Literal::Unsupported => mix(h, 7),
    }
}

/// Folds an optional literal, tagged by presence.
pub open spec fn hash_opt_lit(h: u64, o: Option<Literal>) -> u64 {
    match o {
        None => mix(h, 0),
        Some(l) => hash_lit(mix(h, 1), l),
    }
}

/// Folds a canonical type by its canonical name.
pub open spec fn hash_type(h: u64, t: crate::types::CanonicalType) -> u64 {
    hash_str(h, canon(t))
}

/// Folds an optional canonical type, tagged by presence.
pub open spec fn hash_opt_type(h: u64, o: Option<crate::types::CanonicalType>) -> u64 {
    match o {
        None => mix(h, 0),
        Some(t) => hash_type(mix(h, 1), t),
    }
}

/// Folds one field: name, type, requiredness, default.
pub open spec fn hash_field(h: u64, f: Field) -> u64 {
    hash_opt_lit(
        mix(hash_type(hash_str(h, f.name@), f.type_), if f.required { 1 } else { 0 }),
        f.default,
    )
}

pub open spec fn hash_fields_from(h: u64, fs: Seq<Field>, i: int) -> u64
    decreases fs.len() - i,
{
    if i < 0 || i >= fs.len() {
        h
    } else {
        hash_fields_from(hash_field(h, fs[i]), fs, i + 1)
    }
}

/// Folds one variant: name, then its fields, closed by a delimiter.
pub open spec fn hash_variant(h: u64, v: Variant) -> u64 {
    mix(hash_fields_from(hash_str(h, v.name@), v.fields@, 0), 0xffff_fffe)
}

pub open spec fn hash_variants_from(h: u64, vs: Seq<Variant>, i: int) -> u64
    decreases vs.len() - i,
{
    if i < 0 || i >= vs.len() {
        h
    } else {
        hash_variants_from(hash_variant(h, vs[i]), vs, i + 1)
    }
}

/// Folds one argument: name, type, flags, default.
pub open spec fn hash_arg(h: u64, a: Argument) -> u64 {
    hash_opt_lit(
        mix(
            mix(hash_type(hash_str(h, a.name@), a.type_), if a.by_ref { 1 } else { 0 }),
            if a.optional { 1 } else { 0 },
        ),
        a.default,
    )
}

pub open spec fn hash_args_from(h: u64, args: Seq<Argument>, i: int) -> u64
    decreases args.len() - i,
{
    if i < 0 || i >= args.len() {
        h
    } else {
        hash_args_from(hash_arg(h, args[i]), args, i + 1)
    }
}

/// A constructor's contribution: name, arguments, error attribute. The
/// derived flat signature is deliberately excluded: its symbol name will
/// itself embed a checksum derived from this very hash, so including it
/// would make the hash self-referential.
pub open spec fn hash_ctor(h: u64, c: Constructor) -> u64 {
    mix(hash_opt_str(hash_args_from(hash_str(h, c.name@), c.arguments@, 0), c.throws), 0xffff_fffd)
}

pub open spec fn hash_ctors_from(h: u64, cs: Seq<Constructor>, i: int) -> u64
    decreases cs.len() - i,
{
    if i < 0 || i >= cs.len() {
        h
    } else {
        hash_ctors_from(hash_ctor(h, cs[i]), cs, i + 1)
    }
}

/// A method's contribution: name, owner, arguments, return, staticness,
/// error attribute. The derived flat signature is excluded, as for
/// constructors.
pub open spec fn hash_method(h: u64, m: Method) -> u64 {
    mix(
        hash_opt_str(
            mix(
                hash_opt_type(
                    hash_args_from(hash_str(hash_str(h, m.name@), m.object_name@), m.arguments@, 0),
                    m.return_type,
                ),
                if m.static_ { 1 } else { 0 },
            ),
            m.throws,
        ),
        0xffff_fffc,
    )
}

pub open spec fn hash_methods_from(h: u64, ms: Seq<Method>, i: int) -> u64
    decreases ms.len() - i,
{
    if i < 0 || i >= ms.len() {
        h
    } else {
        hash_methods_from(hash_method(h, ms[i]), ms, i + 1)
    }
}

/// The structural checksum of an enum: its name and its variants.
/// Documentation carries no logical content and is excluded.
pub open spec fn enum_checksum(e: Enum) -> u64 {
    hash_variants_from(hash_str(CHECKSUM_SEED, e.name@), e.variants@, 0)
}

/// The structural checksum of a record: its name and its fields.
pub open spec fn record_checksum(r: Record) -> u64 {
    hash_fields_from(hash_str(CHECKSUM_SEED, r.name@), r.fields@, 0)
}

/// The structural checksum of a function: name, arguments, return, error
/// attribute; its derived flat signature is excluded.
pub open spec fn function_checksum(f: Function) -> u64 {
    hash_opt_str(
        hash_opt_type(hash_args_from(hash_str(CHECKSUM_SEED, f.name@), f.arguments@, 0), f.return_type),
        f.throws,
    )
}

/// The structural checksum of an object: its name, its threadsafe
/// attribute, its constructors and its methods. Any semantic change to a
/// definition's attributes must move the checksum, so the threadsafe
/// marker is folded in; the derived flat signatures are excluded.
pub open spec fn object_checksum(o: Object) -> u64 {
    hash_methods_from(
        hash_ctors_from(
            mix(hash_str(CHECKSUM_SEED, o.name@), if o.threadsafe { 1 } else { 0 }),
            o.constructors@,
            0,
        ),
        o.methods@,
        0,
    )
}

/// Folds the characters of `s` into the hash.
pub fn hash_str_for(h: u64, s: &str) -> (r: u64)
    ensures
        r == hash_str(h, s@),
{
    let n = s.unicode_len();
    let mut acc = h;
    let mut i: usize = 0;
    while i < n
        invariant
            n == s@.len(),
            i <= n,
            hash_chars_from(h, s@, 0) == hash_chars_from(acc, s@, i as int),
        decreases n - i,
    {
        let c = s.get_char(i);
        acc = acc.wrapping_mul(31).wrapping_add(c as u64);
        i += 1;
    }
    acc.wrapping_mul(31).wrapping_add(0xffff_ffff)
}

fn hash_opt_str_exec(h: u64, o: &Option<String>) -> (r: u64)
    ensures
        r == hash_opt_str(h, *o),
{
    match o {
        None => h.wrapping_mul(31).wrapping_add(0),
        Some(s) => hash_str_for(h.wrapping_mul(31).wrapping_add(1), s.as_str()),
    }
}

fn hash_lit_exec(h: u64, l: &Literal) -> (r: u64)
    ensures
        r == hash_lit(h, *l),
{
    match l {
        Literal::Boolean(b) => {
            let bit: u64 = if *b {
                1
            } else {
                0
            };
            h.wrapping_mul(31).wrapping_add(2).wrapping_mul(31).wrapping_add(bit)
        },
        Literal::Str(s) => hash_str_for(h.wrapping_mul(31).wrapping_add(3), s.as_str()),
        Literal::Number(s) => hash_str_for(h.wrapping_mul(31).wrapping_add(4), s.as_str()),
        Literal::EmptyList => h.wrapping_mul(31).wrapping_add(5),
        Literal::Null => h.wrapping_mul(31).wrapping_add(6),
        Literal::Unsupported => h.wrapping_mul(31).wrapping_add(7),
    }
}

fn hash_opt_lit_exec(h: u64, o: &Option<Literal>) -> (r: u64)
    ensures
        r == hash_opt_lit(h, *o),
{
    match o {
        None => h.wrapping_mul(31).wrapping_add(0),
        Some(l) => hash_lit_exec(h.wrapping_mul(31).wrapping_add(1), l),
    }
}

fn hash_type_exec(h: u64, t: &crate::types::CanonicalType) -> (r: u64)
    ensures
        r == hash_type(h, *t),
{
    let cn = t.canonical_name();
    hash_str_for(h, cn.as_str())
}

fn hash_field_exec(h: u64, f: &Field) -> (r: u64)
    ensures
        r == hash_field(h, *f),
{
    let h1 = hash_str_for(h, f.name.as_str());
    let h2 = hash_type_exec(h1, &f.type_);
    let bit: u64 = if f.required {
        1
    } else {
        0
    };
    let h3 = h2.wrapping_mul(31).wrapping_add(bit);
    hash_opt_lit_exec(h3, &f.default)
}

fn hash_fields_exec(h: u64, fs: &Vec<Field>) -> (r: u64)
    ensures
        r == hash_fields_from(h, fs@, 0),
{
    let mut acc = h;
    let mut i: usize = 0;
    let end = fs.len();
    while i < end
        invariant
            end == fs@.len(),
            i <= end,
            hash_fields_from(h, fs@, 0) == hash_fields_from(acc, fs@, i as int),
        decreases end - i,
    {
        acc = hash_field_exec(acc, &fs[i]);
        i += 1;
    }
    acc
}

fn hash_variant_exec(h: u64, v: &Variant) -> (r: u64)
    ensures
        r == hash_variant(h, *v),
{
    let h1 = hash_str_for(h, v.name.as_str());
    let h2 = hash_fields_exec(h1, &v.fields);
    h2.wrapping_mul(31).wrapping_add(0xffff_fffe)
}

fn hash_arg_exec(h: u64, a: &Argument) -> (r: u64)
    ensures
        r == hash_arg(h, *a),
{
    let h1 = hash_str_for(h, a.name.as_str());
    let h2 = hash_type_exec(h1, &a.type_);
    let b1: u64 = if a.by_ref {
        1
    } else {
        0
    };
    let b2: u64 = if a.optional {
        1
    } else {
        0
    };
    let h3 = h2.wrapping_mul(31).wrapping_add(b1);
    let h4 = h3.wrapping_mul(31).wrapping_add(b2);
    hash_opt_lit_exec(h4, &a.default)
}

fn hash_args_exec(h: u64, args: &Vec<Argument>) -> (r: u64)
    ensures
        r == hash_args_from(h, args@, 0),
{
    let mut acc = h;
    let mut i: usize = 0;
    let end = args.len();
    while i < end
        invariant
            end == args@.len(),
            i <= end,
            hash_args_from(h, args@, 0) == hash_args_from(acc, args@, i as int),
        decreases end - i,
    {
        acc = hash_arg_exec(acc, &args[i]);
        i += 1;
    }
    acc
}

fn hash_opt_type_exec(h: u64, o: &Option<crate::types::CanonicalType>) -> (r: u64)
    ensures
        r == hash_opt_type(h, *o),
{
    match o {
        None => h.wrapping_mul(31).wrapping_add(0),
        Some(t) => hash_type_exec(h.wrapping_mul(31).wrapping_add(1), t),
    }
}

fn hash_ctor_exec(h: u64, c: &Constructor) -> (r: u64)
    ensures
        r == hash_ctor(h, *c),
{
    let h1 = hash_str_for(h, c.name.as_str());
    let h2 = hash_args_exec(h1, &c.arguments);
    let h3 = hash_opt_str_exec(h2, &c.throws);
    h3.wrapping_mul(31).wrapping_add(0xffff_fffd)
}

fn hash_method_exec(h: u64, m: &Method) -> (r: u64)
    ensures
        r == hash_method(h, *m),
{
    let h1 = hash_str_for(h, m.name.as_str());
    let h2 = hash_str_for(h1, m.object_name.as_str());
    let h3 = hash_args_exec(h2, &m.arguments);
    let h4 = hash_opt_type_exec(h3, &m.return_type);
    let bit: u64 = if m.static_ {
        1
    } else {
        0
    };
    let h5 = h4.wrapping_mul(31).wrapping_add(bit);
    let h6 = hash_opt_str_exec(h5, &m.throws);
    h6.wrapping_mul(31).wrapping_add(0xffff_fffc)
}

impl Enum {
    /// The structural checksum over this enum's logical content. Identical
    /// logical content yields an identical checksum whichever front end
    /// produced it.
    pub fn checksum(&self) -> (r: u64)
        ensures
            r == enum_checksum(*self),
    {
        let h = hash_str_for(CHECKSUM_SEED, self.name.as_str());
        let mut acc = h;
        let mut i: usize = 0;
        let end = self.variants.len();
        while i < end
            invariant
                end == self.variants@.len(),
                i <= end,
                hash_variants_from(h, self.variants@, 0) == hash_variants_from(
                    acc,
                    self.variants@,
                    i as int,
                ),
            decreases end - i,
        {
            acc = hash_variant_exec(acc, &self.variants[i]);
            i += 1;
        }
        acc
    }
}

impl Record {
    /// The structural checksum over this record's logical content.
    pub fn checksum(&self) -> (r: u64)
        ensures
            r == record_checksum(*self),
    {
        let h = hash_str_for(CHECKSUM_SEED, self.name.as_str());
        hash_fields_exec(h, &self.fields)
    }
}

impl Function {
    /// The structural checksum over this function's logical content,
    /// excluding its derived flat signature.
    pub fn checksum(&self) -> (r: u64)
        ensures
            r == function_checksum(*self),
    {
        let h1 = hash_str_for(CHECKSUM_SEED, self.name.as_str());
        let h2 = hash_args_exec(h1, &self.arguments);
        let h3 = hash_opt_type_exec(h2, &self.return_type);
        hash_opt_str_exec(h3, &self.throws)
    }
}

impl Object {
    /// The structural checksum over this object's logical content,
    /// excluding every derived flat signature.
    pub fn checksum(&self) -> (r: u64)
        ensures
            r == object_checksum(*self),
    {
        let named = hash_str_for(CHECKSUM_SEED, self.name.as_str());
        let bit: u64 = if self.threadsafe {
            1
        } else {
            0
        };
        let h = named.wrapping_mul(31).wrapping_add(bit);
        let mut acc = h;
        let mut i: usize = 0;
        let cend = self.constructors.len();
        while i < cend
            invariant
                cend == self.constructors@.len(),
                i <= cend,
                hash_ctors_from(h, self.constructors@, 0) == hash_ctors_from(
                    acc,
                    self.constructors@,
                    i as int,
                ),
            decreases cend - i,
        {
            acc = hash_ctor_exec(acc, &self.constructors[i]);
            i += 1;
        }
        let mid = acc;
        let mut k: usize = 0;
        let mend = self.methods.len();
        while k < mend
            invariant
                mend == self.methods@.len(),
                k <= mend,
                hash_methods_from(mid, self.methods@, 0) == hash_methods_from(
                    acc,
                    self.methods@,
                    k as int,
                ),
            decreases mend - k,
        {
            acc = hash_method_exec(acc, &self.methods[k]);
            k += 1;
        }
        acc
    }
}

/// The lowercase hexadecimal digit with value `d`.
pub open spec fn hex_digit(d: int) -> char {
    if d == 0 {
        '0'
    } else if d == 1 {
        '1'
    } else if d == 2 {
        '2'
    } else if d == 3 {
        '3'
    } else if d == 4 {
        '4'
    } else if d == 5 {
        '5'
    } else if d == 6 {
        '6'
    } else if d == 7 {
        '7'
    } else if d == 8 {
        '8'
    } else if d == 9 {
        '9'
    } else if d == 10 {
        'a'
    } else if d == 11 {
        'b'
    } else if d == 12 {
        'c'
    } else if d == 13 {
        'd'
    } else if d == 14 {
        'e'
    } else {
        'f'
    }
}

/// The lowercase hexadecimal rendering of `n`, most significant digit
/// first, with no leading zeros.
pub open spec fn hex_digits(n: nat) -> Seq<char>
    decreases n,
{
    if n < 16 {
        seq![hex_digit(n as int)]
    } else {
        hex_digits(n / 16).push(hex_digit((n % 16) as int))
    }
}

fn hex_digit_str(d: u64) -> (r: &'static str)
    requires
        d < 16,
    ensures
        r@ == seq![hex_digit(d as int)],
{
    proof {
        reveal_strlit("0");
        reveal_strlit("1");
        reveal_strlit("2");
        reveal_strlit("3");
        reveal_strlit("4");
        reveal_strlit("5");
        reveal_strlit("6");
        reveal_strlit("7");
        reveal_strlit("8");
        reveal_strlit("9");
        reveal_strlit("a");
        reveal_strlit("b");
        reveal_strlit("c");
        reveal_strlit("d");
        reveal_strlit("e");
        reveal_strlit("f");
    }
    if d == 0 {
        "0"
    } else if d == 1 {
        "1"
    } else if d == 2 {
        "2"
    } else if d == 3 {
        "3"
    } else if d == 4 {
        "4"
    } else if d == 5 {
        "5"
    } else if d == 6 {
        "6"
    } else if d == 7 {
        "7"
    } else if d == 8 {
        "8"
    } else if d == 9 {
        "9"
    } else if d == 10 {
        "a"
    } else if d == 11 {
        "b"
    } else if d == 12 {
        "c"
    } else if d == 13 {
        "d"
    } else if d == 14 {
        "e"
    } else {
        "f"
    }
}

/// Renders `n` in lowercase hexadecimal.
pub fn hex_string(n: u64) -> (r: String)
    ensures
        r@ == hex_digits(n as nat),
    decreases n,
{
    if n < 16 {
        String::from_str(hex_digit_str(n))
    } else {
        let mut s = hex_string(n / 16);
        s.append(hex_digit_str(n % 16));
        s
    }
}


/// Whether two literals carry the same content.
pub open spec fn lit_view_eq(a: Literal, b: Literal) -> bool {
    match (a, b) {
        (Literal::Boolean(x), Literal::Boolean(y)) => x == y,
        (Literal::Str(x), Literal::Str(y)) => x@ == y@,
        (Literal::Number(x), Literal::Number(y)) => x@ == y@,
        (Literal::EmptyList, Literal::EmptyList) => true,
        (Literal::Null, Literal::Null) => true,
        (Literal::Unsupported, Literal::Unsupported) => true,
        _ => false,
    }
}

pub open spec fn lit_opt_view_eq(a: Option<Literal>, b: Option<Literal>) -> bool {
    match (a, b) {
        (None, None) => true,
        (Some(x), Some(y)) => lit_view_eq(x, y),
        _ => false,
    }
}

pub open spec fn str_opt_view_eq(a: Option<String>, b: Option<String>) -> bool {
    match (a, b) {
        (None, None) => true,
        (Some(x), Some(y)) => x@ == y@,
        _ => false,
    }
}

/// Whether two fields carry the same logical content.
pub open spec fn field_view_eq(a: Field, b: Field) -> bool {
    &&& a.name@ == b.name@
    &&& canon(a.type_) == canon(b.type_)
    &&& a.required == b.required
    &&& lit_opt_view_eq(a.default, b.default)
}

/// Whether two variants carry the same logical content.
pub open spec fn variant_view_eq(a: Variant, b: Variant) -> bool {
    &&& a.name@ == b.name@
    &&& a.fields@.len() == b.fields@.len()
    &&& forall|i: int| 0 <= i < a.fields@.len() ==> field_view_eq(
        #[trigger] a.fields@[i],
        b.fields@[i],
    )
}

/// Whether two enums carry the same logical content: same name and the
/// same variants with the same fields, in the same order. Documentation
/// is not logical content.
pub open spec fn enum_view_eq(a: Enum, b: Enum) -> bool {
    &&& a.name@ == b.name@
    &&& a.variants@.len() == b.variants@.len()
    &&& forall|i: int| 0 <= i < a.variants@.len() ==> variant_view_eq(
        #[trigger] a.variants@[i],
        b.variants@[i],
    )
}

/// Whether two arguments carry the same logical content.
pub open spec fn arg_view_eq(a: Argument, b: Argument) -> bool {
    &&& a.name@ == b.name@
    &&& canon(a.type_) == canon(b.type_)
    &&& a.by_ref == b.by_ref
    &&& a.optional == b.optional
    &&& lit_opt_view_eq(a.default, b.default)
}

pub open spec fn args_view_eq(a: Seq<Argument>, b: Seq<Argument>) -> bool {
    a.len() == b.len() && (forall|i: int| 0 <= i < a.len() ==> arg_view_eq(#[trigger] a[i], b[i]))
}

/// Whether two constructors carry the same logical content.
pub open spec fn ctor_view_eq(a: Constructor, b: Constructor) -> bool {
    &&& a.name@ == b.name@
    &&& args_view_eq(a.arguments@, b.arguments@)
    &&& str_opt_view_eq(a.throws, b.throws)
}

/// Whether two methods carry the same logical content.
pub open spec fn method_view_eq(a: Method, b: Method) -> bool {
    &&& a.name@ == b.name@
    &&& a.object_name@ == b.object_name@
    &&& args_view_eq(a.arguments@, b.arguments@)
    &&& match (a.return_type, b.return_type) {
        (None, None) => true,
        (Some(x), Some(y)) => canon(x) == canon(y),
        _ => false,
    }
    &&& a.static_ == b.static_
    &&& str_opt_view_eq(a.throws, b.throws)
}

/// Whether two objects carry the same logical content.
pub open spec fn object_view_eq(a: Object, b: Object) -> bool {
    &&& a.name@ == b.name@
    &&& a.threadsafe == b.threadsafe
    &&& a.constructors@.len() == b.constructors@.len()
    &&& forall|i: int| 0 <= i < a.constructors@.len() ==> ctor_view_eq(
        #[trigger] a.constructors@[i],
        b.constructors@[i],
    )
    &&& a.methods@.len() == b.methods@.len()
    &&& forall|i: int| 0 <= i < a.methods@.len() ==> method_view_eq(
        #[trigger] a.methods@[i],
        b.methods@[i],
    )
}

proof fn lemma_hash_opt_lit_eq(h: u64, a: Option<Literal>, b: Option<Literal>)
    requires
        lit_opt_view_eq(a, b),
    ensures
        hash_opt_lit(h, a) == hash_opt_lit(h, b),
{
}

proof fn lemma_hash_field_eq(h: u64, a: Field, b: Field)
    requires
        field_view_eq(a, b),
    ensures
        hash_field(h, a) == hash_field(h, b),
{
    let h3 = mix(hash_type(hash_str(h, a.name@), a.type_), if a.required { 1 } else { 0 });
    lemma_hash_opt_lit_eq(h3, a.default, b.default);
}

proof fn lemma_hash_fields_eq(h: u64, a: Seq<Field>, b: Seq<Field>, i: int)
    requires
        a.len() == b.len(),
        forall|j: int| 0 <= j < a.len() ==> field_view_eq(#[trigger] a[j], b[j]),
    ensures
        hash_fields_from(h, a, i) == hash_fields_from(h, b, i),
    decreases a.len() - i,
{
    if 0 <= i < a.len() {
        lemma_hash_field_eq(h, a[i], b[i]);
        lemma_hash_fields_eq(hash_field(h, a[i]), a, b, i + 1);
    }
}

proof fn lemma_hash_variant_eq(h: u64, a: Variant, b: Variant)
    requires
        variant_view_eq(a, b),
    ensures
        hash_variant(h, a) == hash_variant(h, b),
{
    lemma_hash_fields_eq(hash_str(h, a.name@), a.fields@, b.fields@, 0);
}

proof fn lemma_hash_variants_eq(h: u64, a: Seq<Variant>, b: Seq<Variant>, i: int)
    requires
        a.len() == b.len(),
        forall|j: int| 0 <= j < a.len() ==> variant_view_eq(#[trigger] a[j], b[j]),
    ensures
        hash_variants_from(h, a, i) == hash_variants_from(h, b, i),
    decreases a.len() - i,
{
    if 0 <= i < a.len() {
        lemma_hash_variant_eq(h, a[i], b[i]);
        lemma_hash_variants_eq(hash_variant(h, a[i]), a, b, i + 1);
    }
}

/// Two enum definitions with identical logical content have identical
/// checksums, whichever front end produced them: the hash reads only the
/// names, variant structure and field structure.
pub proof fn lemma_enum_checksum_respects_content(a: Enum, b: Enum)
    requires
        enum_view_eq(a, b),
    ensures
        enum_checksum(a) == enum_checksum(b),
{
    lemma_hash_variants_eq(hash_str(CHECKSUM_SEED, a.name@), a.variants@, b.variants@, 0);
}

proof fn lemma_hash_arg_eq(h: u64, a: Argument, b: Argument)
    requires
        arg_view_eq(a, b),
    ensures
        hash_arg(h, a) == hash_arg(h, b),
{
    let h4 = mix(
        mix(hash_type(hash_str(h, a.name@), a.type_), if a.by_ref { 1 } else { 0 }),
        if a.optional { 1 } else { 0 },
    );
    lemma_hash_opt_lit_eq(h4, a.default, b.default);
}

proof fn lemma_hash_args_eq(h: u64, a: Seq<Argument>, b: Seq<Argument>, i: int)
    requires
        a.len() == b.len(),
        forall|j: int| 0 <= j < a.len() ==> arg_view_eq(#[trigger] a[j], b[j]),
    ensures
        hash_args_from(h, a, i) == hash_args_from(h, b, i),
    decreases a.len() - i,
{
    if 0 <= i < a.len() {
        lemma_hash_arg_eq(h, a[i], b[i]);
        lemma_hash_args_eq(hash_arg(h, a[i]), a, b, i + 1);
    }
}

proof fn lemma_hash_ctor_eq(h: u64, a: Constructor, b: Constructor)
    requires
        ctor_view_eq(a, b),
    ensures
        hash_ctor(h, a) == hash_ctor(h, b),
{
    lemma_hash_args_eq(hash_str(h, a.name@), a.arguments@, b.arguments@, 0);
}

proof fn lemma_hash_ctors_eq(h: u64, a: Seq<Constructor>, b: Seq<Constructor>, i: int)
    requires
        a.len() == b.len(),
        forall|j: int| 0 <= j < a.len() ==> ctor_view_eq(#[trigger] a[j], b[j]),
    ensures
        hash_ctors_from(h, a, i) == hash_ctors_from(h, b, i),
    decreases a.len() - i,
{
    if 0 <= i < a.len() {
        lemma_hash_ctor_eq(h, a[i], b[i]);
        lemma_hash_ctors_eq(hash_ctor(h, a[i]), a, b, i + 1);
    }
}

proof fn lemma_hash_method_eq(h: u64, a: Method, b: Method)
    requires
        method_view_eq(a, b),
    ensures
        hash_method(h, a) == hash_method(h, b),
{
    lemma_hash_args_eq(hash_str(hash_str(h, a.name@), a.object_name@), a.arguments@, b.arguments@, 0);
}

proof fn lemma_hash_methods_eq(h: u64, a: Seq<Method>, b: Seq<Method>, i: int)
    requires
        a.len() == b.len(),
        forall|j: int| 0 <= j < a.len() ==> method_view_eq(#[trigger] a[j], b[j]),
    ensures
        hash_methods_from(h, a, i) == hash_methods_from(h, b, i),
    decreases a.len() - i,
{
    if 0 <= i < a.len() {
        lemma_hash_method_eq(h, a[i], b[i]);
        lemma_hash_methods_eq(hash_method(h, a[i]), a, b, i + 1);
    }
}

/// Two object definitions with identical logical content have identical
/// checksums, whichever front end produced them.
pub proof fn lemma_object_checksum_respects_content(a: Object, b: Object)
    requires
        object_view_eq(a, b),
    ensures
        object_checksum(a) == object_checksum(b),
{
    let h = mix(hash_str(CHECKSUM_SEED, a.name@), if a.threadsafe { 1 } else { 0 });
    lemma_hash_ctors_eq(h, a.constructors@, b.constructors@, 0);
    lemma_hash_methods_eq(
        hash_ctors_from(h, a.constructors@, 0),
        a.methods@,
        b.methods@,
        0,
    );
}

} // verus!

