//! Hand-written replacements for bindings the generic rules cannot express.
//!
//! The table is keyed by exposed operation name alone. A name that is found
//! here is never given a generic binding; its verbatim text is appended after
//! every generically generated binding instead.

use vstd::prelude::*;
use vstd::string::StringExecFns;

use crate::registry::Registry;
use crate::runtime;
use crate::text::str_eq;

verus! {

/// A hand-written replacement for the binding of one exposed name.
#[derive(Clone, Copy)]
pub struct FunctionAlternative {
    pub name: &'static str,
    pub code: &'static str,
}

/// The replacement table: exposed name and verbatim text of each entry, in
/// the order in which the texts are appended.
pub open spec fn spec_patch_table() -> Seq<(Seq<char>, Seq<char>)> {
    seq![
        ("BufferData"@, runtime::BUFFER_DATA@),
        ("BufferSubData"@, runtime::BUFFER_SUB_DATA@),
        ("ShaderSource"@, runtime::SHADER_SOURCE@),
        ("GetShaderInfoLog"@, runtime::GET_SHADER_INFO_LOG@),
        ("GetProgramInfoLog"@, runtime::GET_PROGRAM_INFO_LOG@),
        ("GetAttachedShaders"@, runtime::GET_ATTACHED_SHADERS@),
        ("GetExtension"@, runtime::GET_EXTENSION@),
        ("GetFramebufferAttachmentParameter"@, runtime::GET_FRAMEBUFFER_ATTACHMENT_PARAMETER@),
        ("GetParameter"@, runtime::GET_PARAMETER@),
        ("GetShaderSource"@, runtime::GET_SHADER_SOURCE@),
        ("GetSupportedExtensions"@, runtime::GET_SUPPORTED_EXTENSIONS@),
        ("GetVertexAttrib"@, runtime::GET_VERTEX_ATTRIB@),
    ]
}

/// The first entry of `t` keyed `n`, if any.
pub open spec fn table_lookup(t: Seq<(Seq<char>, Seq<char>)>, n: Seq<char>) -> Option<Seq<char>>
    decreases t.len(),
{
    if t.len() == 0 {
        None
    } else if t[0].0 == n {
        Some(t[0].1)
    } else {
        table_lookup(t.skip(1), n)
    }
}

/// The replacement text registered for `n`, if any: a function of the name
/// alone.
pub open spec fn spec_patch_lookup(n: Seq<char>) -> Option<Seq<char>> {
    table_lookup(spec_patch_table(), n)
}

/// The verbatim texts of `t`, each followed by a line break, in order.
pub open spec fn table_codes(t: Seq<(Seq<char>, Seq<char>)>) -> Seq<char>
    decreases t.len(),
{
    if t.len() == 0 {
        Seq::empty()
    } else {
        t[0].1 + "\n"@ + table_codes(t.skip(1))
    }
}

impl FunctionAlternative {
    /// The replacement registered for `name`, if any.
    pub fn get(name: &str) -> (r: Option<Self>)
        ensures
            match r {
                Some(alt) => alt.name@ == name@ && spec_patch_lookup(name@) == Some(alt.code@),
                None => spec_patch_lookup(name@) is None,
            },
    {
        let all = Self::get_all();
        let ghost t = spec_patch_table();
        proof {
            assert(t.skip(0) =~= t);
        }
        let mut i: usize = 0;
        while i < all.len()
            invariant
                t == spec_patch_table(),
                all@.len() == t.len(),
                forall|k: int|
                    0 <= k < t.len() ==> (#[trigger] all@[k]).name@ == t[k].0 && all@[k].code@
                        == t[k].1,
                i <= t.len(),
                table_lookup(t, name@) == table_lookup(t.skip(i as int), name@),
            decreases t.len() - i,
        {
            proof {
                assert(t.skip(i as int)[0] == t[i as int]);
                assert(t.skip(i as int).skip(1) =~= t.skip(i + 1));
            }
            if str_eq(all[i].name, name) {
                proof {
                    assert(table_lookup(t.skip(i as int), name@) == Some(t[i as int].1));
                    assert(spec_patch_lookup(name@) == Some(all@[i as int].code@));
                }
                return Some(all[i]);
            }
            i = i + 1;
        }
        assert(t.skip(i as int).len() == 0);
        None
    }

    /// Every replacement, in the order in which the texts are appended.
    pub fn get_all() -> (r: Vec<Self>)
        ensures
            r@.len() == spec_patch_table().len(),
            forall|k: int|
                0 <= k < r@.len() ==> (#[trigger] r@[k]).name@ == spec_patch_table()[k].0
                    && r@[k].code@ == spec_patch_table()[k].1,
    {
        let mut all: Vec<Self> = Vec::new();
        all.push(FunctionAlternative { name: "BufferData", code: runtime::BUFFER_DATA });
        all.push(FunctionAlternative { name: "BufferSubData", code: runtime::BUFFER_SUB_DATA });
        all.push(FunctionAlternative { name: "ShaderSource", code: runtime::SHADER_SOURCE });
        all.push(
            FunctionAlternative { name: "GetShaderInfoLog", code: runtime::GET_SHADER_INFO_LOG },
        );
        all.push(
            FunctionAlternative { name: "GetProgramInfoLog", code: runtime::GET_PROGRAM_INFO_LOG },
        );
        all.push(
            FunctionAlternative {
                name: "GetAttachedShaders",
                code: runtime::GET_ATTACHED_SHADERS,
            },
        );
        all.push(FunctionAlternative { name: "GetExtension", code: runtime::GET_EXTENSION });
        all.push(
            FunctionAlternative {
                name: "GetFramebufferAttachmentParameter",
                code: runtime::GET_FRAMEBUFFER_ATTACHMENT_PARAMETER,
            },
        );
        all.push(FunctionAlternative { name: "GetParameter", code: runtime::GET_PARAMETER });
        all.push(FunctionAlternative { name: "GetShaderSource", code: runtime::GET_SHADER_SOURCE });
        all.push(
            FunctionAlternative {
                name: "GetSupportedExtensions",
                code: runtime::GET_SUPPORTED_EXTENSIONS,
            },
        );
        all.push(FunctionAlternative { name: "GetVertexAttrib", code: runtime::GET_VERTEX_ATTRIB });
        all
    }
}

/// No two table entries share a key.
pub proof fn lemma_patch_names_distinct()
    ensures
        forall|i: int, j: int| #![trigger spec_patch_table()[i], spec_patch_table()[j]]
            0 <= i < j < spec_patch_table().len() ==> spec_patch_table()[i].0
                != spec_patch_table()[j].0,
{
    reveal_strlit("BufferData");
    reveal_strlit("BufferSubData");
    reveal_strlit("ShaderSource");
    reveal_strlit("GetShaderInfoLog");
    reveal_strlit("GetProgramInfoLog");
    reveal_strlit("GetAttachedShaders");
    reveal_strlit("GetExtension");
    reveal_strlit("GetFramebufferAttachmentParameter");
    reveal_strlit("GetParameter");
    reveal_strlit("GetShaderSource");
    reveal_strlit("GetSupportedExtensions");
    reveal_strlit("GetVertexAttrib");
    assert(spec_patch_table()[0].0 == "BufferData"@);
    assert(spec_patch_table()[1].0 == "BufferSubData"@);
    assert(spec_patch_table()[2].0 == "ShaderSource"@);
    assert(spec_patch_table()[3].0 == "GetShaderInfoLog"@);
    assert(spec_patch_table()[4].0 == "GetProgramInfoLog"@);
    assert(spec_patch_table()[5].0 == "GetAttachedShaders"@);
    assert(spec_patch_table()[6].0 == "GetExtension"@);
    assert(spec_patch_table()[7].0 == "GetFramebufferAttachmentParameter"@);
    assert(spec_patch_table()[8].0 == "GetParameter"@);
    assert(spec_patch_table()[9].0 == "GetShaderSource"@);
    assert(spec_patch_table()[10].0 == "GetSupportedExtensions"@);
    assert(spec_patch_table()[11].0 == "GetVertexAttrib"@);
    assert("BufferData"@ != "BufferSubData"@);
    assert("BufferData"@ != "ShaderSource"@);
    assert("BufferData"@ != "GetShaderInfoLog"@);
    assert("BufferData"@ != "GetProgramInfoLog"@);
    assert("BufferData"@ != "GetAttachedShaders"@);
    assert("BufferData"@ != "GetExtension"@);
    assert("BufferData"@ != "GetFramebufferAttachmentParameter"@);
    assert("BufferData"@ != "GetParameter"@);
    assert("BufferData"@ != "GetShaderSource"@);
    assert("BufferData"@ != "GetSupportedExtensions"@);
    assert("BufferData"@ != "GetVertexAttrib"@);
    assert("BufferSubData"@ != "ShaderSource"@);
    assert("BufferSubData"@ != "GetShaderInfoLog"@);
    assert("BufferSubData"@ != "GetProgramInfoLog"@);
    assert("BufferSubData"@ != "GetAttachedShaders"@);
    assert("BufferSubData"@ != "GetExtension"@);
    assert("BufferSubData"@ != "GetFramebufferAttachmentParameter"@);
    assert("BufferSubData"@ != "GetParameter"@);
    assert("BufferSubData"@ != "GetShaderSource"@);
    assert("BufferSubData"@ != "GetSupportedExtensions"@);
    assert("BufferSubData"@ != "GetVertexAttrib"@);
    assert("ShaderSource"@ != "GetShaderInfoLog"@);
    assert("ShaderSource"@ != "GetProgramInfoLog"@);
    assert("ShaderSource"@ != "GetAttachedShaders"@);
    assert(("ShaderSource"@)[0] != ("GetExtension"@)[0]);
    assert("ShaderSource"@ != "GetExtension"@);
    assert("ShaderSource"@ != "GetFramebufferAttachmentParameter"@);
    assert(("ShaderSource"@)[0] != ("GetParameter"@)[0]);
    assert("ShaderSource"@ != "GetParameter"@);
    assert("ShaderSource"@ != "GetShaderSource"@);
    assert("ShaderSource"@ != "GetSupportedExtensions"@);
    assert("ShaderSource"@ != "GetVertexAttrib"@);
    assert("GetShaderInfoLog"@ != "GetProgramInfoLog"@);
    assert("GetShaderInfoLog"@ != "GetAttachedShaders"@);
    assert("GetShaderInfoLog"@ != "GetExtension"@);
    assert("GetShaderInfoLog"@ != "GetFramebufferAttachmentParameter"@);
    assert("GetShaderInfoLog"@ != "GetParameter"@);
    assert("GetShaderInfoLog"@ != "GetShaderSource"@);
    assert("GetShaderInfoLog"@ != "GetSupportedExtensions"@);
    assert("GetShaderInfoLog"@ != "GetVertexAttrib"@);
    assert("GetProgramInfoLog"@ != "GetAttachedShaders"@);
    assert("GetProgramInfoLog"@ != "GetExtension"@);
    assert("GetProgramInfoLog"@ != "GetFramebufferAttachmentParameter"@);
    assert("GetProgramInfoLog"@ != "GetParameter"@);
    assert("GetProgramInfoLog"@ != "GetShaderSource"@);
    assert("GetProgramInfoLog"@ != "GetSupportedExtensions"@);
    assert("GetProgramInfoLog"@ != "GetVertexAttrib"@);
    assert("GetAttachedShaders"@ != "GetExtension"@);
    assert("GetAttachedShaders"@ != "GetFramebufferAttachmentParameter"@);
    assert("GetAttachedShaders"@ != "GetParameter"@);
    assert("GetAttachedShaders"@ != "GetShaderSource"@);
    assert("GetAttachedShaders"@ != "GetSupportedExtensions"@);
    assert("GetAttachedShaders"@ != "GetVertexAttrib"@);
    assert("GetExtension"@ != "GetFramebufferAttachmentParameter"@);
    assert(("GetExtension"@)[3] != ("GetParameter"@)[3]);
    assert("GetExtension"@ != "GetParameter"@);
    assert("GetExtension"@ != "GetShaderSource"@);
    assert("GetExtension"@ != "GetSupportedExtensions"@);
    assert("GetExtension"@ != "GetVertexAttrib"@);
    assert("GetFramebufferAttachmentParameter"@ != "GetParameter"@);
    assert("GetFramebufferAttachmentParameter"@ != "GetShaderSource"@);
    assert("GetFramebufferAttachmentParameter"@ != "GetSupportedExtensions"@);
    assert("GetFramebufferAttachmentParameter"@ != "GetVertexAttrib"@);
    assert("GetParameter"@ != "GetShaderSource"@);
    assert("GetParameter"@ != "GetSupportedExtensions"@);
    assert("GetParameter"@ != "GetVertexAttrib"@);
    assert("GetShaderSource"@ != "GetSupportedExtensions"@);
    assert(("GetShaderSource"@)[3] != ("GetVertexAttrib"@)[3]);
    assert("GetShaderSource"@ != "GetVertexAttrib"@);
    assert("GetSupportedExtensions"@ != "GetVertexAttrib"@);
}

/// Looking a name up twice yields identical text both times: the result is a
/// function of the name alone.
pub proof fn lemma_patch_lookup_roundtrip(
    r1: Option<Seq<char>>,
    r2: Option<Seq<char>>,
    n: Seq<char>,
)
    requires
        r1 == spec_patch_lookup(n),
        r2 == spec_patch_lookup(n),
    ensures
        r1 == r2,
{
}

/// The fixed typedef lines of the compatibility layer.
pub open spec fn spec_typdefs_text() -> Seq<char> {
    "pub type GLchar = i8;\n"@ + "pub type GLdouble = f64;\n"@ + "pub type GLint64 = i64;\n"@
}

/// The typedef lines that the source catalog does not describe.
pub fn write_typdefs(_registry: &Registry) -> (r: String)
    ensures
        r@ == spec_typdefs_text(),
{
    let mut out = String::new();
    out.append("pub type GLchar = i8;\n");
    out.append("pub type GLdouble = f64;\n");
    out.append("pub type GLint64 = i64;\n");
    out
}

/// The scalar constants section.
pub open spec fn spec_constants_text() -> Seq<char> {
    runtime::CONSTANTS@ + "\n"@
}

fn write_constants(_registry: &Registry) -> (r: String)
    ensures
        r@ == spec_constants_text(),
{
    let mut out = String::new();
    out.append(runtime::CONSTANTS);
    out.append("\n");
    out
}

/// The hand-written functions: polyfills first, then every replacement text.
pub open spec fn spec_functions_text() -> Seq<char> {
    runtime::POLYFILLS@ + "\n"@ + table_codes(spec_patch_table())
}

fn write_functions(_registry: &Registry) -> (r: String)
    ensures
        r@ == spec_functions_text(),
{
    let mut out = String::new();
    out.append(runtime::POLYFILLS);
    out.append("\n");
    let all = FunctionAlternative::get_all();
    let ghost t = spec_patch_table();
    proof {
        assert(t.skip(0) =~= t);
    }
    let mut i: usize = 0;
    while i < all.len()
        invariant
            t == spec_patch_table(),
            all@.len() == t.len(),
            forall|k: int|
                0 <= k < t.len() ==> (#[trigger] all@[k]).name@ == t[k].0 && all@[k].code@
                    == t[k].1,
            i <= t.len(),
            spec_functions_text() == out@ + table_codes(t.skip(i as int)),
        decreases t.len() - i,
    {
        proof {
            assert(t.skip(i as int)[0] == t[i as int]);
            assert(t.skip(i as int).skip(1) =~= t.skip(i + 1));
        }
        out.append(all[i].code);
        out.append("\n");
        i = i + 1;
    }
    assert(t.skip(i as int).len() == 0);
    assert(out@ =~= spec_functions_text());
    out
}

/// The whole trailing section: constants, then hand-written functions.
pub open spec fn spec_compat_text() -> Seq<char> {
    spec_constants_text() + spec_functions_text()
}

/// The trailing section of the generated module.
pub fn write(registry: &Registry) -> (r: String)
    ensures
        r@ == spec_compat_text(),
{
    let mut out = write_constants(registry);
    let functions = write_functions(registry);
    out.append(functions.as_str());
    out
}

} // verus!
