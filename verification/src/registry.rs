//! The type/operation catalog that a generation run consumes.
//!
//! The catalog is built once by a loader, is immutable for the duration of
//! the pass, and iterates its entries in strictly increasing name order, so
//! that the emitted text is a deterministic function of the catalog alone.

use vstd::prelude::*;

use crate::text::lex_lt;
use crate::text::{str_eq, str_lt};

verus! {

/// A primitive numeric or boolean type, named as in the target language.
#[derive(Clone, Copy)]
pub enum Primitive {
    Bool,
    I8,
    U8,
    I16,
    U16,
    I32,
    U32,
    I64,
    U64,
    F32,
    F64,
}

impl Primitive {
    /// The target-language name of the primitive.
    pub open spec fn spec_name(self) -> Seq<char> {
        match self {
            Primitive::Bool => "bool"@,
            Primitive::I8 => "i8"@,
            Primitive::U8 => "u8"@,
            Primitive::I16 => "i16"@,
            Primitive::U16 => "u16"@,
            Primitive::I32 => "i32"@,
            Primitive::U32 => "u32"@,
            Primitive::I64 => "i64"@,
            Primitive::U64 => "u64"@,
            Primitive::F32 => "f32"@,
            Primitive::F64 => "f64"@,
        }
    }

    pub fn name(&self) -> (r: &'static str)
        ensures
            r@ == self.spec_name(),
    {
        match self {
            Primitive::Bool => "bool",
            Primitive::I8 => "i8",
            Primitive::U8 => "u8",
            Primitive::I16 => "i16",
            Primitive::U16 => "u16",
            Primitive::I32 => "i32",
            Primitive::U32 => "u32",
            Primitive::I64 => "i64",
            Primitive::U64 => "u64",
            Primitive::F32 => "f32",
            Primitive::F64 => "f64",
        }
    }
}

/// The kind of a type reference.
pub enum TypeKind {
    Primitive(Primitive),
    DomString,
    ArrayBuffer,
    ArrayBufferView,
    BufferSource,
    CanvasElement,
    TypedArray(Primitive),
    Sequence(Box<Type>),
    Union(Vec<Type>),
    Named(String),
    Any,
    Object,
}

/// A type reference: a kind together with an optionality flag.
pub struct Type {
    pub kind: TypeKind,
    pub optional: bool,
}

/// One formal argument of an operation.
pub struct Argument {
    pub name: String,
    pub type_: Type,
}

/// One operation of an interface.
pub struct Operation {
    pub name: String,
    pub args: Vec<Argument>,
    pub return_type: Option<Type>,
}

/// One constant of an interface.
pub struct ConstMember {
    pub name: String,
    pub type_: Type,
}

/// An interface member: an operation or a constant.
pub enum Member {
    Operation(Operation),
    Const(ConstMember),
}

impl Member {
    /// The exposed name of the member.
    pub open spec fn spec_name(&self) -> Seq<char> {
        match self {
            Member::Operation(op) => op.name@,
            Member::Const(c) => c.name@,
        }
    }

    pub fn name(&self) -> (r: &String)
        ensures
            r@ == self.spec_name(),
    {
        match self {
            Member::Operation(op) => &op.name,
            Member::Const(c) => &c.name,
        }
    }
}

/// An interface of the source API.
pub struct Interface {
    pub members: Vec<Member>,
    pub has_class: bool,
    pub is_hidden: bool,
}

/// The view of a vector of strings as a sequence of character sequences.
pub open spec fn names_view(v: Seq<String>) -> Seq<Seq<char>> {
    v.map_values(|s: String| s@)
}

/// `s` with `n` put at its place in order; `s` is unchanged if it already
/// holds `n`.
pub open spec fn insert_name(s: Seq<Seq<char>>, n: Seq<char>) -> Seq<Seq<char>>
    decreases s.len(),
{
    if s.len() == 0 {
        seq![n]
    } else if lex_lt(n, s[0]) {
        seq![n] + s
    } else if n == s[0] {
        s
    } else {
        seq![s[0]] + insert_name(s.skip(1), n)
    }
}

/// The distinct names of the members of `ms`, in increasing order.
pub open spec fn sorted_names(ms: Seq<Member>) -> Seq<Seq<char>>
    decreases ms.len(),
{
    if ms.len() == 0 {
        Seq::empty()
    } else {
        insert_name(sorted_names(ms.drop_last()), ms.last().spec_name())
    }
}

impl Interface {
    /// The distinct exposed names of this interface's members, in strictly
    /// increasing order: the order in which member groups are visited.
    pub fn member_names(&self) -> (r: Vec<String>)
        ensures
            names_view(r@) == sorted_names(self.members@),
    {
        let mut names: Vec<String> = Vec::new();
        let ghost ms = self.members@;
        proof {
            assert(ms.take(0) =~= Seq::<Member>::empty());
        }
        let mut k: usize = 0;
        while k < self.members.len()
            invariant
                ms == self.members@,
                k <= ms.len(),
                names_view(names@) == sorted_names(ms.take(k as int)),
                forall|p: int, q: int| #![trigger names@[p], names@[q]]
                    0 <= p < q < names@.len() ==> lex_lt(names@[p]@, names@[q]@),
            decreases ms.len() - k,
        {
            proof {
                assert(ms.take(k + 1).drop_last() =~= ms.take(k as int));
                assert(ms.take(k + 1).last() == ms[k as int]);
            }
            let name = self.members[k].name();
            sorted_insert_name(&mut names, name);
            k = k + 1;
        }
        proof {
            assert(ms.take(k as int) =~= ms);
        }
        names
    }
}

proof fn lemma_insert_name_skip(s: Seq<Seq<char>>, n: Seq<char>, i: int)
    requires
        0 <= i <= s.len(),
        forall|j: int| 0 <= j < i ==> lex_lt(#[trigger] s[j], n),
    ensures
        insert_name(s, n) == s.take(i) + insert_name(s.skip(i), n),
    decreases i,
{
    if i == 0 {
        assert(s.skip(0) =~= s);
        assert(s.take(0) + insert_name(s.skip(0), n) =~= insert_name(s, n));
    } else {
        lex_lt_trichotomy(n, s[0]);
        assert(insert_name(s, n) == seq![s[0]] + insert_name(s.skip(1), n));
        assert(forall|j: int| 0 <= j < i - 1 ==> lex_lt(#[trigger] s.skip(1)[j], n));
        lemma_insert_name_skip(s.skip(1), n, i - 1);
        assert(s.skip(1).skip(i - 1) =~= s.skip(i));
        assert(seq![s[0]] + (s.skip(1).take(i - 1) + insert_name(s.skip(i), n)) =~= (seq![s[0]]
            + s.skip(1).take(i - 1)) + insert_name(s.skip(i), n));
        assert(seq![s[0]] + s.skip(1).take(i - 1) =~= s.take(i));
    }
}

/// Put a copy of `name` at its place in the strictly sorted vector `names`,
/// unless it is already there.
fn sorted_insert_name(names: &mut Vec<String>, name: &String)
    requires
        forall|p: int, q: int| #![trigger old(names)@[p], old(names)@[q]]
            0 <= p < q < old(names)@.len() ==> lex_lt(old(names)@[p]@, old(names)@[q]@),
    ensures
        names_view(final(names)@) == insert_name(names_view(old(names)@), name@),
        forall|p: int, q: int| #![trigger final(names)@[p], final(names)@[q]]
            0 <= p < q < final(names)@.len() ==> lex_lt(final(names)@[p]@, final(names)@[q]@),
{
    let ghost s0 = names@;
    let ghost v0 = names_view(s0);
    let mut i: usize = 0;
    while i < names.len() && str_lt(names[i].as_str(), name.as_str())
        invariant
            names@ == s0,
            i <= s0.len(),
            forall|j: int| 0 <= j < i ==> lex_lt(#[trigger] s0[j]@, name@),
        decreases s0.len() - i,
    {
        i = i + 1;
    }
    proof {
        assert(forall|j: int| 0 <= j < i ==> lex_lt(#[trigger] v0[j], name@));
        lemma_insert_name_skip(v0, name@, i as int);
        assert(v0.skip(i as int) =~= names_view(s0.skip(i as int)));
    }
    if i < names.len() && str_eq(names[i].as_str(), name.as_str()) {
        proof {
            assert(v0.skip(i as int)[0] == s0[i as int]@);
            assert(insert_name(v0.skip(i as int), name@) == v0.skip(i as int));
            assert(v0.take(i as int) + v0.skip(i as int) =~= v0);
        }
    } else {
        proof {
            if i < s0.len() {
                lex_lt_trichotomy(name@, s0[i as int]@);
                assert(v0.skip(i as int)[0] == s0[i as int]@);
                assert(insert_name(v0.skip(i as int), name@) == seq![name@] + v0.skip(i as int));
            } else {
                assert(v0.skip(i as int) =~= Seq::<Seq<char>>::empty());
                assert(insert_name(v0.skip(i as int), name@) == seq![name@] + v0.skip(i as int));
            }
        }
        let copy = name.clone();
        names.insert(i, copy);
        assert(names@ =~= s0.take(i as int) + (seq![copy] + s0.skip(i as int)));
        proof {
            assert(names_view(names@) =~= v0.take(i as int) + (seq![name@] + v0.skip(i as int)));
            let t = names@;
            let ii = i as int;
            assert forall|p: int, q: int| #![trigger t[p], t[q]]
                0 <= p < q < t.len() implies lex_lt(t[p]@, t[q]@) by {
                if q < ii {
                    assert(t[p] == s0[p]);
                    assert(t[q] == s0[q]);
                } else if q == ii {
                    assert(t[p] == s0[p]);
                    assert(t[q]@ == name@);
                } else {
                    assert(t[q] == s0[q - 1]);
                    if p < ii {
                        assert(t[p] == s0[p]);
                    } else if p == ii {
                        assert(t[p]@ == name@);
                        if q - 1 > ii {
                            lex_lt_transitive(name@, s0[ii]@, s0[q - 1]@);
                        }
                    } else {
                        assert(t[p] == s0[p - 1]);
                    }
                }
            }
        }
    }
}

/// A dictionary of the source API.
pub struct Dictionary {
    pub is_hidden: bool,
}

/// A named type of the catalog.
pub enum NamedType {
    Mixin,
    Interface(Interface),
    Dictionary(Dictionary),
    Enum,
    Typedef(Type),
    Callback,
}

/// The first entry of `s` named `n`, if any.
pub open spec fn lookup(s: Seq<(String, NamedType)>, n: Seq<char>) -> Option<NamedType>
    decreases s.len(),
{
    if s.len() == 0 {
        None
    } else if s[0].0@ == n {
        Some(s[0].1)
    } else {
        lookup(s.skip(1), n)
    }
}

/// `s` with `(name, ty)` put at its place in name order, replacing an entry
/// of the same name.
pub open spec fn insert_entry(
    s: Seq<(String, NamedType)>,
    name: String,
    ty: NamedType,
) -> Seq<(String, NamedType)>
    decreases s.len(),
{
    if s.len() == 0 {
        seq![(name, ty)]
    } else if lex_lt(name@, s[0].0@) {
        seq![(name, ty)] + s
    } else if name@ == s[0].0@ {
        seq![(name, ty)] + s.skip(1)
    } else {
        seq![s[0]] + insert_entry(s.skip(1), name, ty)
    }
}

/// The catalog of named types, kept in strictly increasing name order.
pub struct Registry {
    pub entries: Vec<(String, NamedType)>,
}

impl Registry {
    /// Entries are strictly sorted by name; in particular names are unique.
    pub open spec fn wf(&self) -> bool {
        forall|i: int, j: int| #![trigger self.entries@[i], self.entries@[j]]
            0 <= i < j < self.entries@.len() ==> lex_lt(
                self.entries@[i].0@,
                self.entries@[j].0@,
            )
    }

    /// The named type registered under `n`, if any.
    pub open spec fn spec_resolve(&self, n: Seq<char>) -> Option<NamedType> {
        lookup(self.entries@, n)
    }

    pub fn new() -> (r: Self)
        ensures
            r.entries@.len() == 0,
            r.wf(),
    {
        Registry { entries: Vec::new() }
    }

    /// Register `ty` under `name`, keeping name order; an entry already
    /// registered under the same name is replaced.
    pub fn insert(&mut self, name: String, ty: NamedType)
        requires
            old(self).wf(),
        ensures
            final(self).wf(),
            final(self).entries@ == insert_entry(old(self).entries@, name, ty),
    {
        let ghost s0 = self.entries@;
        let mut i: usize = 0;
        while i < self.entries.len() && str_lt(self.entries[i].0.as_str(), name.as_str())
            invariant
                self.entries@ == s0,
                i <= s0.len(),
                forall|j: int| 0 <= j < i ==> lex_lt(#[trigger] s0[j].0@, name@),
            decreases s0.len() - i,
        {
            i = i + 1;
        }
        proof {
            lemma_insert_entry_skip(s0, name, ty, i as int);
        }
        if i < self.entries.len() && str_eq(self.entries[i].0.as_str(), name.as_str()) {
            proof {
                assert(insert_entry(s0.skip(i as int), name, ty) == seq![(name, ty)] + s0.skip(
                    i as int,
                ).skip(1));
                assert(s0.skip(i as int).skip(1) =~= s0.skip(i + 1));
            }
            self.entries.set(i, (name, ty));
            assert(self.entries@ =~= s0.take(i as int) + (seq![(name, ty)] + s0.skip(i + 1)));
            proof {
                let t = self.entries@;
                let ii = i as int;
                assert forall|p: int, q: int| #![trigger t[p], t[q]]
                    0 <= p < q < t.len() implies lex_lt(t[p].0@, t[q].0@) by {
                    if q < ii {
                        assert(t[p] == s0[p]);
                        assert(t[q] == s0[q]);
                    } else if q == ii {
                        assert(t[p] == s0[p]);
                        assert(t[q].0@ == s0[ii].0@);
                    } else {
                        assert(t[q] == s0[q]);
                        if p < ii {
                            assert(t[p] == s0[p]);
                        } else if p == ii {
                            assert(t[p].0@ == s0[ii].0@);
                        } else {
                            assert(t[p] == s0[p]);
                        }
                    }
                }
                assert(self.wf());
            }
        } else {
            proof {
                if i < s0.len() {
                    lex_lt_trichotomy(name@, s0[i as int].0@);
                    assert(insert_entry(s0.skip(i as int), name, ty) == seq![(name, ty)] + s0.skip(
                        i as int,
                    ));
                } else {
                    assert(s0.skip(i as int) =~= Seq::<(String, NamedType)>::empty());
                    assert(insert_entry(s0.skip(i as int), name, ty) == seq![(name, ty)]
                        + s0.skip(i as int));
                }
            }
            self.entries.insert(i, (name, ty));
            assert(self.entries@ =~= s0.take(i as int) + (seq![(name, ty)] + s0.skip(i as int)));
            proof {
                let t = self.entries@;
                let ii = i as int;
                assert forall|p: int, q: int| #![trigger t[p], t[q]]
                    0 <= p < q < t.len() implies lex_lt(t[p].0@, t[q].0@) by {
                    if q < ii {
                        assert(t[p] == s0[p]);
                        assert(t[q] == s0[q]);
                    } else if q == ii {
                        assert(t[p] == s0[p]);
                        assert(t[q].0@ == name@);
                    } else {
                        assert(t[q] == s0[q - 1]);
                        if p < ii {
                            assert(t[p] == s0[p]);
                        } else if p == ii {
                            assert(t[p].0@ == name@);
                            if q - 1 > ii {
                                lex_lt_transitive(name@, s0[ii].0@, s0[q - 1].0@);
                            }
                        } else {
                            assert(t[p] == s0[p - 1]);
                        }
                    }
                }
                assert(self.wf());
            }
        }
    }

    /// Resolve a named type.
    pub fn resolve_type(&self, name: &str) -> (r: Option<&NamedType>)
        ensures
            match r {
                Some(t) => self.spec_resolve(name@) == Some(*t),
                None => self.spec_resolve(name@) is None,
            },
    {
        let ghost s0 = self.entries@;
        proof {
            assert(s0.skip(0) =~= s0);
        }
        let mut i: usize = 0;
        while i < self.entries.len()
            invariant
                self.entries@ == s0,
                i <= s0.len(),
                lookup(s0, name@) == lookup(s0.skip(i as int), name@),
            decreases s0.len() - i,
        {
            proof {
                assert(s0.skip(i as int)[0] == s0[i as int]);
                assert(s0.skip(i as int).skip(1) =~= s0.skip(i + 1));
            }
            if str_eq(self.entries[i].0.as_str(), name) {
                return Some(&self.entries[i].1);
            }
            i = i + 1;
        }
        assert(s0.skip(i as int).len() == 0);
        None
    }

    /// How many named types are registered.
    pub fn len(&self) -> (r: usize)
        ensures
            r == self.entries@.len(),
    {
        self.entries.len()
    }
}

/// Exactly one of `lex_lt(a, b)`, `a == b`, `lex_lt(b, a)` holds.
pub proof fn lex_lt_trichotomy(a: Seq<char>, b: Seq<char>)
    ensures
        lex_lt(a, b) || lex_lt(b, a) || a == b,
        lex_lt(a, b) ==> !lex_lt(b, a) && a != b,
        lex_lt(b, a) ==> !lex_lt(a, b) && a != b,
    decreases a.len(),
{
    if b.len() == 0 || a.len() == 0 {
        if a.len() == 0 && b.len() == 0 {
            assert(a =~= b);
        }
    } else if a[0] != b[0] {
    } else {
        lex_lt_trichotomy(a.skip(1), b.skip(1));
        if a.skip(1) == b.skip(1) {
            assert forall|k: int| 0 <= k < a.len() implies a[k] == b[k] by {
                if k >= 1 {
                    assert(a.skip(1)[k - 1] == b.skip(1)[k - 1]);
                }
            }
            assert(a =~= b);
        }
        if a == b {
            assert(a.skip(1) =~= b.skip(1));
        }
    }
}

/// Lexicographic order is transitive.
pub proof fn lex_lt_transitive(a: Seq<char>, b: Seq<char>, c: Seq<char>)
    requires
        lex_lt(a, b),
        lex_lt(b, c),
    ensures
        lex_lt(a, c),
    decreases a.len(),
{
    if a.len() == 0 {
    } else {
        if a[0] == b[0] && b[0] == c[0] {
            lex_lt_transitive(a.skip(1), b.skip(1), c.skip(1));
        }
    }
}

proof fn lemma_insert_entry_skip(s: Seq<(String, NamedType)>, name: String, ty: NamedType, i: int)
    requires
        0 <= i <= s.len(),
        forall|j: int| 0 <= j < i ==> lex_lt(#[trigger] s[j].0@, name@),
    ensures
        insert_entry(s, name, ty) == s.take(i) + insert_entry(s.skip(i), name, ty),
    decreases i,
{
    if i == 0 {
        assert(s.take(0) =~= Seq::<(String, NamedType)>::empty());
        assert(s.skip(0) =~= s);
        assert(s.take(0) + insert_entry(s.skip(0), name, ty) =~= insert_entry(s, name, ty));
    } else {
        lex_lt_trichotomy(name@, s[0].0@);
        assert(insert_entry(s, name, ty) == seq![s[0]] + insert_entry(s.skip(1), name, ty));
        assert(s.skip(1).len() == s.len() - 1);
        assert(forall|j: int| 0 <= j < i - 1 ==> lex_lt(#[trigger] s.skip(1)[j].0@, name@));
        lemma_insert_entry_skip(s.skip(1), name, ty, i - 1);
        assert(s.skip(1).skip(i - 1) =~= s.skip(i));
        assert(seq![s[0]] + (s.skip(1).take(i - 1) + insert_entry(s.skip(i), name, ty)) =~= (
        seq![s[0]] + s.skip(1).take(i - 1)) + insert_entry(s.skip(i), name, ty));
        assert(seq![s[0]] + s.skip(1).take(i - 1) =~= s.take(i));
    }
}

/// `insert_name` keeps a strictly sorted sequence strictly sorted, and adds
/// no name but the inserted one.
pub proof fn lemma_insert_name_sorted(s: Seq<Seq<char>>, n: Seq<char>)
    requires
        forall|p: int, q: int| #![trigger s[p], s[q]] 0 <= p < q < s.len() ==> lex_lt(s[p], s[q]),
    ensures
        forall|p: int, q: int| #![trigger insert_name(s, n)[p], insert_name(s, n)[q]]
            0 <= p < q < insert_name(s, n).len() ==> lex_lt(insert_name(s, n)[p], insert_name(s, n)[q]),
        forall|k: int| #![trigger insert_name(s, n)[k]]
            0 <= k < insert_name(s, n).len() ==> (insert_name(s, n)[k] == n || exists|m: int|
                0 <= m < s.len() && s[m] == insert_name(s, n)[k]),
    decreases s.len(),
{
    let t = insert_name(s, n);
    if s.len() == 0 {
        assert forall|k: int| #![trigger t[k]] 0 <= k < t.len() implies (t[k] == n || exists|m: int|
            0 <= m < s.len() && s[m] == t[k]) by {
            assert(t[k] == n);
        }
    } else if lex_lt(n, s[0]) {
        assert forall|p: int, q: int| #![trigger t[p], t[q]] 0 <= p < q < t.len() implies lex_lt(
            t[p],
            t[q],
        ) by {
            if p == 0 {
                assert(t[q] == s[q - 1]);
                if q - 1 > 0 {
                    lex_lt_transitive(n, s[0], s[q - 1]);
                }
            } else {
                assert(t[p] == s[p - 1]);
                assert(t[q] == s[q - 1]);
            }
        }
        assert forall|k: int| #![trigger t[k]] 0 <= k < t.len() implies (t[k] == n || exists|m: int|
            0 <= m < s.len() && s[m] == t[k]) by {
            if k > 0 {
                assert(s[k - 1] == t[k]);
            }
        }
    } else if n == s[0] {
    } else {
        lex_lt_trichotomy(n, s[0]);
        assert(forall|p: int, q: int| #![trigger s.skip(1)[p], s.skip(1)[q]]
            0 <= p < q < s.skip(1).len() ==> lex_lt(s.skip(1)[p], s.skip(1)[q]));
        lemma_insert_name_sorted(s.skip(1), n);
        let u = insert_name(s.skip(1), n);
        assert forall|p: int, q: int| #![trigger t[p], t[q]] 0 <= p < q < t.len() implies lex_lt(
            t[p],
            t[q],
        ) by {
            if p == 0 {
                assert(t[q] == u[q - 1]);
                if u[q - 1] == n {
                } else {
                    let m = choose|m: int| 0 <= m < s.skip(1).len() && s.skip(1)[m] == u[q - 1];
                    assert(s.skip(1)[m] == s[m + 1]);
                }
            } else {
                assert(t[p] == u[p - 1]);
                assert(t[q] == u[q - 1]);
            }
        }
        assert forall|k: int| #![trigger t[k]] 0 <= k < t.len() implies (t[k] == n || exists|m: int|
            0 <= m < s.len() && s[m] == t[k]) by {
            if k == 0 {
                assert(s[0] == t[0]);
            } else {
                assert(t[k] == u[k - 1]);
                if u[k - 1] != n {
                    let m = choose|m: int| 0 <= m < s.skip(1).len() && s.skip(1)[m] == u[k - 1];
                    assert(s[m + 1] == t[k]);
                }
            }
        }
    }
}

/// The distinct member names are strictly sorted: no name appears twice.
pub proof fn lemma_sorted_names_sorted(ms: Seq<Member>)
    ensures
        forall|p: int, q: int| #![trigger sorted_names(ms)[p], sorted_names(ms)[q]]
            0 <= p < q < sorted_names(ms).len() ==> lex_lt(sorted_names(ms)[p], sorted_names(ms)[q]),
    decreases ms.len(),
{
    if ms.len() == 0 {
    } else {
        lemma_sorted_names_sorted(ms.drop_last());
        lemma_insert_name_sorted(sorted_names(ms.drop_last()), ms.last().spec_name());
    }
}

} // verus!
