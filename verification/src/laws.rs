//! The crate-level laws: properties that relate several of the generator's
//! functions, stated and proved once for all inputs.

use vstd::prelude::*;

use crate::casing::upper_camel_of;
use crate::compat::{spec_patch_lookup, spec_patch_table, table_lookup, lemma_patch_names_distinct};
use crate::error::ErrView;
use crate::interfaces::{spec_resolved_idx, websys_name_spec};
use crate::registry::{lemma_sorted_names_sorted, lex_lt_trichotomy, sorted_names, Interface, Member, Operation, Registry, Type};
use crate::types::{from_idl_spec, RustTypeV};

verus! {

/// The type mapper is deterministic: two results of mapping the same type
/// under the same catalog — each admitted by the mapper's contract — are
/// identical.
pub proof fn lemma_type_mapper_deterministic(
    r1: Result<RustTypeV, ErrView>,
    r2: Result<RustTypeV, ErrView>,
    ty: Type,
    reg: Registry,
    fuel: nat,
)
    requires
        r1 == from_idl_spec(ty, reg, fuel),
        r2 == from_idl_spec(ty, reg, fuel),
    ensures
        r1 == r2,
{
}

/// The name mapper is a pure function of the operation's name and argument
/// list: two operations with equal argument lists resolve, under one
/// catalog, to the same underlying call name.
pub proof fn lemma_name_mapper_pure(n: Seq<char>, op1: Operation, op2: Operation, reg: Registry)
    requires
        op1.args@ == op2.args@,
    ensures
        websys_name_spec(n, op1, reg) == websys_name_spec(n, op2, reg),
{
}

/// A name that the replacement table does not know differs from every key
/// of the table.
proof fn lemma_table_lookup_none(t: Seq<(Seq<char>, Seq<char>)>, n: Seq<char>, k: int)
    requires
        table_lookup(t, n) is None,
        0 <= k < t.len(),
    ensures
        t[k].0 != n,
    decreases k,
{
    if k == 0 {
    } else {
        assert(t.skip(1)[k - 1] == t[k]);
        lemma_table_lookup_none(t.skip(1), n, k - 1);
    }
}

/// Does the generic pass emit a function binding for the member group named
/// `g`? It does when the group resolves to one operation and no replacement
/// is registered for the exposed name.
pub open spec fn emits_fn(ms: Seq<Member>, g: Seq<char>, reg: Registry) -> bool {
    &&& spec_resolved_idx(ms, g) matches Ok(r) && r is Some
    &&& spec_patch_lookup(upper_camel_of(g)) is None
}

/// No two emitted functions share an exposed name, provided the naming
/// convention maps distinct member names to distinct exposed names: the
/// generically emitted bindings of a rendering context carry pairwise
/// distinct names, none of them collides with a replacement's name, and the
/// replacement names are distinct among themselves.
pub proof fn lemma_emitted_names_distinct(iface: Interface, reg: Registry)
    ensures
        (forall|a: Seq<char>, b: Seq<char>| #![trigger upper_camel_of(a), upper_camel_of(b)]
            a != b ==> upper_camel_of(a) != upper_camel_of(b)) ==> {
            let names = sorted_names(iface.members@);
            &&& (forall|i: int, j: int| #![trigger names[i], names[j]]
                0 <= i < j < names.len() && emits_fn(iface.members@, names[i], reg) && emits_fn(
                    iface.members@,
                    names[j],
                    reg,
                ) ==> upper_camel_of(names[i]) != upper_camel_of(names[j]))
            &&& (forall|i: int, k: int| #![trigger names[i], spec_patch_table()[k]]
                0 <= i < names.len() && 0 <= k < spec_patch_table().len() && emits_fn(
                    iface.members@,
                    names[i],
                    reg,
                ) ==> upper_camel_of(names[i]) != spec_patch_table()[k].0)
            &&& (forall|p: int, q: int| #![trigger spec_patch_table()[p], spec_patch_table()[q]]
                0 <= p < q < spec_patch_table().len() ==> spec_patch_table()[p].0
                    != spec_patch_table()[q].0)
        },
{
    let names = sorted_names(iface.members@);
    lemma_sorted_names_sorted(iface.members@);
    if forall|a: Seq<char>, b: Seq<char>| #![trigger upper_camel_of(a), upper_camel_of(b)]
        a != b ==> upper_camel_of(a) != upper_camel_of(b) {
        assert forall|i: int, j: int| #![trigger names[i], names[j]]
            0 <= i < j < names.len() && emits_fn(iface.members@, names[i], reg) && emits_fn(
                iface.members@,
                names[j],
                reg,
            ) implies upper_camel_of(names[i]) != upper_camel_of(names[j]) by {
            lex_lt_trichotomy(names[i], names[j]);
            assert(names[i] != names[j]);
        }
        assert forall|i: int, k: int| #![trigger names[i], spec_patch_table()[k]]
            0 <= i < names.len() && 0 <= k < spec_patch_table().len() && emits_fn(
                iface.members@,
                names[i],
                reg,
            ) implies upper_camel_of(names[i]) != spec_patch_table()[k].0 by {
            lemma_table_lookup_none(spec_patch_table(), upper_camel_of(names[i]), k);
        }
        lemma_patch_names_distinct();
    }
}

/// Emission order: in every successful output the type-alias section
/// precedes the dictionary and interface sections that use the aliases, and
/// the replacement texts form the very tail of the output, after every
/// generically generated binding.
pub proof fn lemma_emission_order(reg: Registry)
    ensures
        crate::output_spec(reg) matches Ok(t) ==> {
            &&& crate::types::write_defs_spec(reg) matches Ok(defs)
                && crate::interfaces::write_interfaces_spec(reg) matches Ok(ifc) && t
                == crate::header_text() + defs + crate::dicts::write_dicts_spec(reg) + ifc
                + crate::compat::spec_compat_text()
            &&& crate::text::ends_with(t, crate::compat::spec_compat_text())
        },
{
    if crate::output_spec(reg) is Ok {
        let t = crate::output_spec(reg)->Ok_0;
        let defs = crate::types::write_defs_spec(reg)->Ok_0;
        let ifc = crate::interfaces::write_interfaces_spec(reg)->Ok_0;
        let head = crate::header_text() + defs + crate::dicts::write_dicts_spec(reg) + ifc;
        assert(t == head + crate::compat::spec_compat_text());
        assert(t.skip(t.len() - crate::compat::spec_compat_text().len()) =~= crate::compat::spec_compat_text());
    }
}

/// An operation returning an optional interface converts "absent" to the
/// class's sentinel value, never to a wrapper: the conversion lines of such
/// a result always end in the sentinel branch.
pub proof fn lemma_optional_interface_sentinel(n: String, reg: Registry)
    requires
        crate::registry::lookup(reg.entries@, n@) matches Some(nt) && nt is Interface,
    ensures
        ({
            let retty = Type { kind: crate::registry::TypeKind::Named(n), optional: true };
            &&& crate::interfaces::result_conv_spec(retty, reg) is Ok
            &&& crate::text::ends_with(
                crate::interfaces::result_conv_spec(retty, reg)->Ok_0,
                "    .map_or("@ + crate::interfaces::spec_none_val(n@)
                    + ", |val| std::mem::transmute::<_, "@ + n@ + ">(val))\n"@,
            )
        }),
{
    let retty = Type { kind: crate::registry::TypeKind::Named(n), optional: true };
    let t = crate::interfaces::result_conv_spec(retty, reg)->Ok_0;
    let opt_part = "    .map_or("@ + crate::interfaces::spec_none_val(n@)
        + ", |val| std::mem::transmute::<_, "@ + n@ + ">(val))\n"@;
    assert(t.skip(t.len() - opt_part.len()) =~= opt_part);
}

/// The three hand-written polyfill functions of the trailing section carry
/// names that the replacement table does not use: the trailing section
/// itself emits no two functions of one name.
pub proof fn lemma_polyfill_names_not_patched()
    ensures
        spec_patch_lookup("GetShaderiv"@) is None,
        spec_patch_lookup("GetProgramiv"@) is None,
        spec_patch_lookup("GenBuffers"@) is None,
{
    reveal_strlit("GetShaderiv");
    reveal_strlit("GetProgramiv");
    reveal_strlit("GenBuffers");
    reveal_strlit("BufferData");
    reveal_strlit("BufferSubData");
    reveal_strlit("ShaderSource");
    reveal_strlit("GetShaderInfoLog");
    reveal_strlit("GetProgramInfoLog");
    reveal_strlit("GetAttachedShaders");
    reveal_strlit("GetExtension");
    reveal_strlit("GetFramebufferAttachmentParameter");
    reveal_strlit("GetParameter");
    reveal_strlit("GetShaderSource");
    reveal_strlit("GetSupportedExtensions");
    reveal_strlit("GetVertexAttrib");
    let t = spec_patch_table();
    assert(t.skip(0) =~= t);
    assert(t[0].0 == "BufferData"@);
    assert(t[1].0 == "BufferSubData"@);
    assert(t[2].0 == "ShaderSource"@);
    assert(t[3].0 == "GetShaderInfoLog"@);
    assert(t[4].0 == "GetProgramInfoLog"@);
    assert(t[5].0 == "GetAttachedShaders"@);
    assert(t[6].0 == "GetExtension"@);
    assert(t[7].0 == "GetFramebufferAttachmentParameter"@);
    assert(t[8].0 == "GetParameter"@);
    assert(t[9].0 == "GetShaderSource"@);
    assert(t[10].0 == "GetSupportedExtensions"@);
    assert(t[11].0 == "GetVertexAttrib"@);
    assert(t.skip(0)[0] == t[0]);
    assert(t.skip(0).skip(1) =~= t.skip(1));
    assert(t.skip(1)[0] == t[1]);
    assert(t.skip(1).skip(1) =~= t.skip(2));
    assert(t.skip(2)[0] == t[2]);
    assert(t.skip(2).skip(1) =~= t.skip(3));
    assert(t.skip(3)[0] == t[3]);
    assert(t.skip(3).skip(1) =~= t.skip(4));
    assert(t.skip(4)[0] == t[4]);
    assert(t.skip(4).skip(1) =~= t.skip(5));
    assert(t.skip(5)[0] == t[5]);
    assert(t.skip(5).skip(1) =~= t.skip(6));
    assert(t.skip(6)[0] == t[6]);
    assert(t.skip(6).skip(1) =~= t.skip(7));
    assert(t.skip(7)[0] == t[7]);
    assert(t.skip(7).skip(1) =~= t.skip(8));
    assert(t.skip(8)[0] == t[8]);
    assert(t.skip(8).skip(1) =~= t.skip(9));
    assert(t.skip(9)[0] == t[9]);
    assert(t.skip(9).skip(1) =~= t.skip(10));
    assert(t.skip(10)[0] == t[10]);
    assert(t.skip(10).skip(1) =~= t.skip(11));
    assert(t.skip(11)[0] == t[11]);
    assert(t.skip(11).skip(1) =~= t.skip(12));
    assert(("GenBuffers"@)[0] != ("BufferData"@)[0]);
    assert(("GetProgramiv"@)[0] != ("ShaderSource"@)[0]);
    assert(("GetProgramiv"@)[3] != ("GetExtension"@)[3]);
    assert(("GetProgramiv"@)[4] != ("GetParameter"@)[4]);
    assert(t.skip(12).len() == 0);
    assert(table_lookup(t.skip(0), "GetShaderiv"@) == table_lookup(t.skip(1), "GetShaderiv"@));
    assert(table_lookup(t.skip(1), "GetShaderiv"@) == table_lookup(t.skip(2), "GetShaderiv"@));
    assert(table_lookup(t.skip(2), "GetShaderiv"@) == table_lookup(t.skip(3), "GetShaderiv"@));
    assert(table_lookup(t.skip(3), "GetShaderiv"@) == table_lookup(t.skip(4), "GetShaderiv"@));
    assert(table_lookup(t.skip(4), "GetShaderiv"@) == table_lookup(t.skip(5), "GetShaderiv"@));
    assert(table_lookup(t.skip(5), "GetShaderiv"@) == table_lookup(t.skip(6), "GetShaderiv"@));
    assert(table_lookup(t.skip(6), "GetShaderiv"@) == table_lookup(t.skip(7), "GetShaderiv"@));
    assert(table_lookup(t.skip(7), "GetShaderiv"@) == table_lookup(t.skip(8), "GetShaderiv"@));
    assert(table_lookup(t.skip(8), "GetShaderiv"@) == table_lookup(t.skip(9), "GetShaderiv"@));
    assert(table_lookup(t.skip(9), "GetShaderiv"@) == table_lookup(t.skip(10), "GetShaderiv"@));
    assert(table_lookup(t.skip(10), "GetShaderiv"@) == table_lookup(t.skip(11), "GetShaderiv"@));
    assert(table_lookup(t.skip(11), "GetShaderiv"@) == table_lookup(t.skip(12), "GetShaderiv"@));
    assert(table_lookup(t.skip(12), "GetShaderiv"@) is None);
    assert(table_lookup(t.skip(0), "GetProgramiv"@) == table_lookup(t.skip(1), "GetProgramiv"@));
    assert(table_lookup(t.skip(1), "GetProgramiv"@) == table_lookup(t.skip(2), "GetProgramiv"@));
    assert(table_lookup(t.skip(2), "GetProgramiv"@) == table_lookup(t.skip(3), "GetProgramiv"@));
    assert(table_lookup(t.skip(3), "GetProgramiv"@) == table_lookup(t.skip(4), "GetProgramiv"@));
    assert(table_lookup(t.skip(4), "GetProgramiv"@) == table_lookup(t.skip(5), "GetProgramiv"@));
    assert(table_lookup(t.skip(5), "GetProgramiv"@) == table_lookup(t.skip(6), "GetProgramiv"@));
    assert(table_lookup(t.skip(6), "GetProgramiv"@) == table_lookup(t.skip(7), "GetProgramiv"@));
    assert(table_lookup(t.skip(7), "GetProgramiv"@) == table_lookup(t.skip(8), "GetProgramiv"@));
    assert(table_lookup(t.skip(8), "GetProgramiv"@) == table_lookup(t.skip(9), "GetProgramiv"@));
    assert(table_lookup(t.skip(9), "GetProgramiv"@) == table_lookup(t.skip(10), "GetProgramiv"@));
    assert(table_lookup(t.skip(10), "GetProgramiv"@) == table_lookup(t.skip(11), "GetProgramiv"@));
    assert(table_lookup(t.skip(11), "GetProgramiv"@) == table_lookup(t.skip(12), "GetProgramiv"@));
    assert(table_lookup(t.skip(12), "GetProgramiv"@) is None);
    assert(table_lookup(t.skip(0), "GenBuffers"@) == table_lookup(t.skip(1), "GenBuffers"@));
    assert(table_lookup(t.skip(1), "GenBuffers"@) == table_lookup(t.skip(2), "GenBuffers"@));
    assert(table_lookup(t.skip(2), "GenBuffers"@) == table_lookup(t.skip(3), "GenBuffers"@));
    assert(table_lookup(t.skip(3), "GenBuffers"@) == table_lookup(t.skip(4), "GenBuffers"@));
    assert(table_lookup(t.skip(4), "GenBuffers"@) == table_lookup(t.skip(5), "GenBuffers"@));
    assert(table_lookup(t.skip(5), "GenBuffers"@) == table_lookup(t.skip(6), "GenBuffers"@));
    assert(table_lookup(t.skip(6), "GenBuffers"@) == table_lookup(t.skip(7), "GenBuffers"@));
    assert(table_lookup(t.skip(7), "GenBuffers"@) == table_lookup(t.skip(8), "GenBuffers"@));
    assert(table_lookup(t.skip(8), "GenBuffers"@) == table_lookup(t.skip(9), "GenBuffers"@));
    assert(table_lookup(t.skip(9), "GenBuffers"@) == table_lookup(t.skip(10), "GenBuffers"@));
    assert(table_lookup(t.skip(10), "GenBuffers"@) == table_lookup(t.skip(11), "GenBuffers"@));
    assert(table_lookup(t.skip(11), "GenBuffers"@) == table_lookup(t.skip(12), "GenBuffers"@));
    assert(table_lookup(t.skip(12), "GenBuffers"@) is None);
}

/// Determinism of the whole pass: identical catalogs always produce
/// byte-identical output, since the replacement table and the
/// disambiguation rule are fixed. Two outputs admitted by the generator's
/// contract for one catalog are equal.
pub proof fn lemma_output_deterministic(
    t1: Seq<char>,
    t2: Seq<char>,
    reg: Registry,
)
    requires
        crate::output_spec(reg) == Ok::<Seq<char>, ErrView>(t1),
        crate::output_spec(reg) == Ok::<Seq<char>, ErrView>(t2),
    ensures
        t1 == t2,
{
}

} // verus!
