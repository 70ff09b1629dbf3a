//! The type mapper: from a catalog type reference to its target
//! representation.
//!
//! The target representation is a name, a pass-by convention and an
//! optionality flag. Interfaces map to integer handles passed by value, with
//! optionality collapsed into a sentinel value; buffers map to slices passed
//! by reference; unions must hold a typed-array member.

use vstd::prelude::*;
use vstd::string::StringExecFns;

use crate::error::{res_view, ErrView, GenError};
use crate::registry::{lookup, NamedType, Primitive, Registry, Type, TypeKind};
use crate::text::str_eq;

verus! {

/// How a mapped type is handed to a call.
pub enum PassBy {
    Val,
    Ref,
}

/// The target representation of one catalog type.
pub struct RustType {
    pub name: String,
    pub pass_by: PassBy,
    pub optional: bool,
}

/// The mathematical image of a [`RustType`].
pub struct RustTypeV {
    pub name: Seq<char>,
    pub pass_by: PassBy,
    pub optional: bool,
}

impl View for RustType {
    type V = RustTypeV;

    open spec fn view(&self) -> RustTypeV {
        RustTypeV { name: self.name@, pass_by: self.pass_by, optional: self.optional }
    }
}

/// The mathematical image of a type-mapping result.
pub open spec fn rt_res_view(r: Result<RustType, GenError>) -> Result<RustTypeV, ErrView> {
    match r {
        Ok(t) => Ok(t@),
        Err(e) => Err(e@),
    }
}

/// The first typed-array member of a union, if any.
pub open spec fn spec_find_typed_array(s: Seq<Type>) -> Option<Primitive>
    decreases s.len(),
{
    if s.len() == 0 {
        None
    } else {
        match s[0].kind {
            TypeKind::TypedArray(p) => Some(p),
            _ => spec_find_typed_array(s.skip(1)),
        }
    }
}

/// The target representation of `ty` under the catalog `reg`.
///
/// Optionality is always the reference's own flag (an interface collapses it
/// into the sentinel convention instead); a sequence element's flag is not
/// rendered and does not leak into the sequence's.
///
/// `fuel` bounds the typedef chains that may be followed; a run starts it at
/// the catalog's size, which every acyclic chain is within.
pub open spec fn from_idl_spec(ty: Type, reg: Registry, fuel: nat) -> Result<RustTypeV, ErrView>
    decreases fuel, ty,
{
    match ty.kind {
        TypeKind::Primitive(p) => Ok(
            RustTypeV { name: p.spec_name(), pass_by: PassBy::Val, optional: ty.optional },
        ),
        TypeKind::DomString => Ok(
            RustTypeV { name: "*const i8"@, pass_by: PassBy::Val, optional: ty.optional },
        ),
        TypeKind::ArrayBuffer => Ok(
            RustTypeV { name: "mut [u8]"@, pass_by: PassBy::Ref, optional: ty.optional },
        ),
        TypeKind::ArrayBufferView => Ok(
            RustTypeV { name: "mut [u8]"@, pass_by: PassBy::Ref, optional: ty.optional },
        ),
        TypeKind::BufferSource => Ok(
            RustTypeV { name: "mut [u8]"@, pass_by: PassBy::Ref, optional: ty.optional },
        ),
        TypeKind::CanvasElement => Ok(
            RustTypeV { name: "HtmlCanvasElement"@, pass_by: PassBy::Ref, optional: ty.optional },
        ),
        TypeKind::TypedArray(p) => Ok(
            RustTypeV {
                name: "["@ + p.spec_name() + "]"@,
                pass_by: PassBy::Ref,
                optional: ty.optional,
            },
        ),
        TypeKind::Sequence(inner) => match from_idl_spec(*inner, reg, fuel) {
            Ok(m) => Ok(
                RustTypeV {
                    name: "Vec<"@ + m.name + ">"@,
                    pass_by: PassBy::Ref,
                    optional: ty.optional,
                },
            ),
            Err(e) => Err(e),
        },
        TypeKind::Union(tys) => match spec_find_typed_array(tys@) {
            Some(p) => Ok(
                RustTypeV {
                    name: "["@ + p.spec_name() + "]"@,
                    pass_by: PassBy::Ref,
                    optional: ty.optional,
                },
            ),
            None => Err(ErrView::UnionWithoutTypedArray),
        },
        TypeKind::Named(n) => match lookup(reg.entries@, n@) {
            None => Err(ErrView::Unresolved { name: n@ }),
            Some(resolved) => match resolved {
                NamedType::Mixin => Err(ErrView::UnsupportedMixin { name: n@ }),
                NamedType::Callback => Err(ErrView::UnsupportedCallback { name: n@ }),
                NamedType::Interface(_) => Ok(
                    RustTypeV { name: n@, pass_by: PassBy::Val, optional: false },
                ),
                NamedType::Dictionary(_) => Ok(
                    RustTypeV { name: n@, pass_by: PassBy::Ref, optional: ty.optional },
                ),
                NamedType::Enum => Ok(
                    RustTypeV { name: n@, pass_by: PassBy::Val, optional: ty.optional },
                ),
                NamedType::Typedef(t) => if fuel == 0 {
                    Err(ErrView::TypedefCycle { name: n@ })
                } else {
                    match from_idl_spec(t, reg, (fuel - 1) as nat) {
                        Ok(alias) => Ok(
                            RustTypeV {
                                name: n@,
                                pass_by: alias.pass_by,
                                optional: alias.optional,
                            },
                        ),
                        Err(e) => Err(e),
                    }
                },
            },
        },
        TypeKind::Any => Ok(
            RustTypeV { name: "JsValue"@, pass_by: PassBy::Ref, optional: ty.optional },
        ),
        TypeKind::Object => Ok(
            RustTypeV { name: "JsValue"@, pass_by: PassBy::Ref, optional: ty.optional },
        ),
    }
}

pub(crate) fn find_typed_array(tys: &Vec<Type>) -> (r: Option<Primitive>)
    ensures
        r == spec_find_typed_array(tys@),
{
    let ghost s0 = tys@;
    proof {
        assert(s0.skip(0) =~= s0);
    }
    let mut i: usize = 0;
    while i < tys.len()
        invariant
            s0 == tys@,
            i <= s0.len(),
            spec_find_typed_array(s0) == spec_find_typed_array(s0.skip(i as int)),
        decreases s0.len() - i,
    {
        proof {
            assert(s0.skip(i as int)[0] == s0[i as int]);
            assert(s0.skip(i as int).skip(1) =~= s0.skip(i + 1));
        }
        if let TypeKind::TypedArray(p) = &tys[i].kind {
            return Some(*p);
        }
        i = i + 1;
    }
    assert(s0.skip(i as int).len() == 0);
    None
}

/// Map one catalog type to its target representation.
pub fn from_idl(ty: &Type, registry: &Registry, fuel: usize) -> (r: Result<RustType, GenError>)
    ensures
        rt_res_view(r) == from_idl_spec(*ty, *registry, fuel as nat),
    decreases fuel, *ty,
{
    match &ty.kind {
        TypeKind::Primitive(p) => Ok(
            RustType { name: p.name().to_owned(), pass_by: PassBy::Val, optional: ty.optional },
        ),
        TypeKind::DomString => Ok(
            RustType { name: "*const i8".to_owned(), pass_by: PassBy::Val, optional: ty.optional },
        ),
        TypeKind::ArrayBuffer => Ok(
            RustType { name: "mut [u8]".to_owned(), pass_by: PassBy::Ref, optional: ty.optional },
        ),
        TypeKind::ArrayBufferView => Ok(
            RustType { name: "mut [u8]".to_owned(), pass_by: PassBy::Ref, optional: ty.optional },
        ),
        TypeKind::BufferSource => Ok(
            RustType { name: "mut [u8]".to_owned(), pass_by: PassBy::Ref, optional: ty.optional },
        ),
        TypeKind::CanvasElement => Ok(
            RustType {
                name: "HtmlCanvasElement".to_owned(),
                pass_by: PassBy::Ref,
                optional: ty.optional,
            },
        ),
        TypeKind::TypedArray(p) => {
            let mut name = "[".to_owned();
            name.append(p.name());
            name.append("]");
            Ok(RustType { name, pass_by: PassBy::Ref, optional: ty.optional })
        },
        TypeKind::Sequence(inner) => match from_idl(inner, registry, fuel) {
            Ok(m) => {
                let mut name = "Vec<".to_owned();
                name.append(m.name.as_str());
                name.append(">");
                Ok(RustType { name, pass_by: PassBy::Ref, optional: ty.optional })
            },
            Err(e) => Err(e),
        },
        TypeKind::Union(tys) => match find_typed_array(tys) {
            Some(p) => {
                let mut name = "[".to_owned();
                name.append(p.name());
                name.append("]");
                Ok(RustType { name, pass_by: PassBy::Ref, optional: ty.optional })
            },
            None => Err(GenError::UnionWithoutTypedArray),
        },
        TypeKind::Named(n) => match registry.resolve_type(n.as_str()) {
            None => Err(GenError::Unresolved { name: n.clone() }),
            Some(resolved) => match resolved {
                NamedType::Mixin => Err(GenError::UnsupportedMixin { name: n.clone() }),
                NamedType::Callback => Err(GenError::UnsupportedCallback { name: n.clone() }),
                NamedType::Interface(_) => Ok(
                    RustType { name: n.clone(), pass_by: PassBy::Val, optional: false },
                ),
                NamedType::Dictionary(_) => Ok(
                    RustType { name: n.clone(), pass_by: PassBy::Ref, optional: ty.optional },
                ),
                NamedType::Enum => Ok(
                    RustType { name: n.clone(), pass_by: PassBy::Val, optional: ty.optional },
                ),
                NamedType::Typedef(t) => if fuel == 0 {
                    Err(GenError::TypedefCycle { name: n.clone() })
                } else {
                    match from_idl(t, registry, fuel - 1) {
                        Ok(alias) => Ok(
                            RustType {
                                name: n.clone(),
                                pass_by: alias.pass_by,
                                optional: alias.optional,
                            },
                        ),
                        Err(e) => Err(e),
                    }
                },
            },
        },
        TypeKind::Any => Ok(
            RustType { name: "JsValue".to_owned(), pass_by: PassBy::Ref, optional: ty.optional },
        ),
        TypeKind::Object => Ok(
            RustType { name: "JsValue".to_owned(), pass_by: PassBy::Ref, optional: ty.optional },
        ),
    }
}

/// The text of `ty` at a return-type position.
pub open spec fn stringify_return_spec(ty: Type, reg: Registry) -> Result<Seq<char>, ErrView> {
    match from_idl_spec(ty, reg, reg.entries@.len() as nat) {
        Ok(m) => Ok(
            if m.optional {
                "Option<"@ + m.name + ">"@
            } else {
                m.name
            },
        ),
        Err(e) => Err(e),
    }
}

/// Render `ty` as it appears at a return-type position.
pub fn stringify_return(ty: &Type, registry: &Registry) -> (r: Result<String, GenError>)
    ensures
        res_view(r) == stringify_return_spec(*ty, *registry),
{
    let fuel = registry.len();
    match from_idl(ty, registry, fuel) {
        Ok(m) => {
            if m.optional {
                let mut s = "Option<".to_owned();
                s.append(m.name.as_str());
                s.append(">");
                Ok(s)
            } else {
                Ok(m.name)
            }
        },
        Err(e) => Err(e),
    }
}

/// The text of `ty` at an argument position.
pub open spec fn stringify_arg_spec(ty: Type, reg: Registry) -> Result<Seq<char>, ErrView> {
    match from_idl_spec(ty, reg, reg.entries@.len() as nat) {
        Ok(m) => {
            let pass = if m.pass_by is Ref {
                "&"@
            } else {
                ""@
            };
            Ok(
                if m.optional {
                    "Option<"@ + pass + m.name + ">"@
                } else {
                    pass + m.name
                },
            )
        },
        Err(e) => Err(e),
    }
}

/// Render `ty` as it appears at an argument position.
pub fn stringify_arg(ty: &Type, registry: &Registry) -> (r: Result<String, GenError>)
    ensures
        res_view(r) == stringify_arg_spec(*ty, *registry),
{
    let fuel = registry.len();
    match from_idl(ty, registry, fuel) {
        Ok(m) => {
            let pass: &str = if let PassBy::Ref = m.pass_by {
                "&"
            } else {
                ""
            };
            let mut s = String::new();
            if m.optional {
                s.append("Option<");
                s.append(pass);
                s.append(m.name.as_str());
                s.append(">");
            } else {
                s.append(pass);
                s.append(m.name.as_str());
            }
            assert(s@ =~= (if m@.optional {
                "Option<"@ + (if m@.pass_by is Ref {
                    "&"@
                } else {
                    ""@
                }) + m@.name + ">"@
            } else {
                (if m@.pass_by is Ref {
                    "&"@
                } else {
                    ""@
                }) + m@.name
            }));
            Ok(s)
        },
        Err(e) => Err(e),
    }
}

/// The type-alias line of one catalog entry: empty unless the entry is a
/// typedef. Two aliases are pinned by hand to match the handle convention.
pub open spec fn typedef_line(e: (String, NamedType), reg: Registry) -> Result<
    Seq<char>,
    ErrView,
> {
    match e.1 {
        NamedType::Typedef(t) => {
            if e.0@ == "GLintptr"@ {
                Ok(defs_line(e.0@, "*const std::ffi::c_void"@))
            } else if e.0@ == "GLsizeiptr"@ {
                Ok(defs_line(e.0@, "i32"@))
            } else {
                match stringify_return_spec(t, reg) {
                    Ok(tt) => Ok(defs_line(e.0@, tt)),
                    Err(v) => Err(v),
                }
            }
        },
        _ => Ok(Seq::empty()),
    }
}

/// One line of the alias section.
pub open spec fn defs_line(name: Seq<char>, ty: Seq<char>) -> Seq<char> {
    "    pub type "@ + name + " = "@ + ty + ";\n"@
}

/// The alias lines of the catalog's entries, in catalog order; the first
/// failing entry's error if one fails.
pub open spec fn defs_fold(s: Seq<(String, NamedType)>, reg: Registry) -> Result<
    Seq<char>,
    ErrView,
>
    decreases s.len(),
{
    if s.len() == 0 {
        Ok(Seq::empty())
    } else {
        match defs_fold(s.drop_last(), reg) {
            Err(e) => Err(e),
            Ok(p) => match typedef_line(s.last(), reg) {
                Err(e) => Err(e),
                Ok(t) => Ok(p + t),
            },
        }
    }
}

proof fn defs_fold_err_persists(s: Seq<(String, NamedType)>, reg: Registry, i: int)
    requires
        0 <= i <= s.len(),
        defs_fold(s.take(i), reg) is Err,
    ensures
        defs_fold(s, reg) == defs_fold(s.take(i), reg),
    decreases s.len() - i,
{
    if i == s.len() {
        assert(s.take(i) =~= s);
    } else {
        assert(s.take(i + 1).drop_last() =~= s.take(i));
        defs_fold_err_persists(s, reg, i + 1);
    }
}

/// The whole type-alias section: a module holding one alias per typedef,
/// the fixed compatibility aliases, and a glob import of the module.
pub open spec fn write_defs_spec(reg: Registry) -> Result<Seq<char>, ErrView> {
    match defs_fold(reg.entries@, reg) {
        Ok(body) => Ok(
            "pub mod types {\n"@ + "    use wasm_bindgen::JsValue;\n"@ + body
                + crate::compat::spec_typdefs_text() + "}\n"@ + "use types::*;\n"@,
        ),
        Err(e) => Err(e),
    }
}

/// Emit the type-alias section for every typedef of the catalog.
pub fn write_defs(registry: &Registry) -> (r: Result<String, GenError>)
    ensures
        res_view(r) == write_defs_spec(*registry),
{
    let ghost s0 = registry.entries@;
    let mut body = String::new();
    proof {
        assert(s0.take(0) =~= Seq::<(String, NamedType)>::empty());
    }
    let mut i: usize = 0;
    while i < registry.entries.len()
        invariant
            s0 == registry.entries@,
            i <= s0.len(),
            defs_fold(s0.take(i as int), *registry) == Ok::<Seq<char>, ErrView>(body@),
        decreases s0.len() - i,
    {
        proof {
            assert(s0.take(i + 1).drop_last() =~= s0.take(i as int));
            assert(s0.take(i + 1).last() == s0[i as int]);
        }
        let ghost body0 = body@;
        match &registry.entries[i].1 {
            NamedType::Typedef(t) => {
                let name = &registry.entries[i].0;
                if str_eq(name.as_str(), "GLintptr") {
                    body.append("    pub type ");
                    body.append(name.as_str());
                    body.append(" = ");
                    body.append("*const std::ffi::c_void");
                    body.append(";\n");
                } else if str_eq(name.as_str(), "GLsizeiptr") {
                    body.append("    pub type ");
                    body.append(name.as_str());
                    body.append(" = ");
                    body.append("i32");
                    body.append(";\n");
                } else {
                    match stringify_return(t, registry) {
                        Ok(tt) => {
                            body.append("    pub type ");
                            body.append(name.as_str());
                            body.append(" = ");
                            body.append(tt.as_str());
                            body.append(";\n");
                        },
                        Err(e) => {
                            proof {
                                defs_fold_err_persists(s0, *registry, i + 1);
                            }
                            return Err(e);
                        },
                    }
                }
                assert(body@ =~= body0 + (match typedef_line(s0[i as int], *registry) {
                    Ok(t) => t,
                    Err(_) => Seq::<char>::empty(),
                }));
            },
            _ => {
                assert(body@ == body0 + Seq::<char>::empty());
            },
        }
        i = i + 1;
    }
    proof {
        assert(s0.take(i as int) =~= s0);
    }
    let mut out = "pub mod types {\n".to_owned();
    out.append("    use wasm_bindgen::JsValue;\n");
    out.append(body.as_str());
    let typdefs = crate::compat::write_typdefs(registry);
    out.append(typdefs.as_str());
    out.append("}\n");
    out.append("use types::*;\n");
    assert(out@ =~= "pub mod types {\n"@ + "    use wasm_bindgen::JsValue;\n"@ + body@
        + crate::compat::spec_typdefs_text() + "}\n"@ + "use types::*;\n"@);
    Ok(out)
}

} // verus!
