//! One binding per interface of the catalog.
//!
//! An interface backed by a runtime class becomes a handle-type alias
//! guarded by a size assertion; a rendering-context interface becomes one
//! function per resolved operation and one constant per constant member.

use vstd::prelude::*;
use vstd::string::StringExecFns;

use crate::casing::{snake_of, to_snake_case, upper_camel_of};
use crate::error::{res_view, ErrView, GenError};
use crate::registry::{lookup, Argument, Interface, Member, NamedType, Operation, Registry, Type};
use crate::text::{ends_with, replace_all, starts_with, str_eq, str_ends_with, str_replace, str_starts_with};
use crate::types::{stringify_arg_spec, stringify_return_spec};

verus! {

/// The handle integer type that stands for a runtime class, and the value
/// that stands for "absent".
pub struct IndexType {
    pub ty: &'static str,
    pub none_val: &'static str,
}

impl IndexType {
    pub fn gl_int() -> (r: Self)
        ensures
            r.ty@ == "GLint"@,
            r.none_val@ == "-1"@,
    {
        IndexType { ty: "GLint", none_val: "-1" }
    }

    pub fn gl_uint() -> (r: Self)
        ensures
            r.ty@ == "GLuint"@,
            r.none_val@ == "GLuint::MAX"@,
    {
        IndexType { ty: "GLuint", none_val: "GLuint::MAX" }
    }
}

/// The handle type of the class named `n`.
pub open spec fn spec_index_ty(n: Seq<char>) -> Seq<char> {
    if n == "WebGLUniformLocation"@ {
        "GLint"@
    } else {
        "GLuint"@
    }
}

/// The sentinel of the class named `n` that stands for "absent".
pub open spec fn spec_none_val(n: Seq<char>) -> Seq<char> {
    if n == "WebGLUniformLocation"@ {
        "-1"@
    } else {
        "GLuint::MAX"@
    }
}

/// How a runtime class is represented under the handle convention.
pub struct ClassInfo {
    pub indexed_as: Option<IndexType>,
}

impl ClassInfo {
    pub fn get(name: &str) -> (r: Self)
        ensures
            match r.indexed_as {
                Some(it) => it.ty@ == spec_index_ty(name@) && it.none_val@ == spec_none_val(
                    name@,
                ),
                None => false,
            },
    {
        if str_eq(name, "WebGLUniformLocation") {
            ClassInfo { indexed_as: Some(IndexType::gl_int()) }
        } else {
            ClassInfo { indexed_as: Some(IndexType::gl_uint()) }
        }
    }
}

/// Argument names that collide with a keyword of the target language.
pub open spec fn spec_is_keyword(s: Seq<char>) -> bool {
    s == "ref"@ || s == "type"@
}

pub fn is_keyword(s: &str) -> (r: bool)
    ensures
        r == spec_is_keyword(s@),
{
    str_eq(s, "ref") || str_eq(s, "type")
}

/// `ident`, with a trailing underscore if it collides with a keyword.
pub open spec fn spec_escape_ident(ident: Seq<char>) -> Seq<char> {
    if spec_is_keyword(ident) {
        ident + "_"@
    } else {
        ident
    }
}

pub fn escape_ident(ident: &str) -> (r: String)
    ensures
        r@ == spec_escape_ident(ident@),
{
    let mut out = ident.to_owned();
    if is_keyword(ident) {
        out.append("_");
    }
    out
}

/// Append `ident` to `dest`, escaped if it collides with a keyword.
pub fn write_ident(ident: &str, dest: &mut String)
    ensures
        final(dest)@ == old(dest)@ + spec_escape_ident(ident@),
{
    dest.append(ident);
    if is_keyword(ident) {
        dest.append("_");
    }
}

/// The handle-type alias of one runtime class, with the size assertion that
/// guards the bit-reinterpretations justified by it.
pub open spec fn class_text(n: Seq<char>) -> Seq<char> {
    "assert_eq_size!("@ + spec_index_ty(n) + ", web_sys::"@ + replace_all(
        n,
        "WebGL"@,
        "WebGl"@,
    ) + ");\n"@ + "pub type "@ + n + " = types::"@ + spec_index_ty(n) + ";\n"@
}

/// Emit the alias and size assertion of one runtime class.
pub fn write_class(name: &str, dest: &mut String)
    ensures
        final(dest)@ == old(dest)@ + class_text(name@),
{
    let info = ClassInfo::get(name);
    if let Some(idxty) = info.indexed_as {
        proof {
            reveal_strlit("WebGL");
        }
        let websys_name = str_replace(name, "WebGL", "WebGl");
        dest.append("assert_eq_size!(");
        dest.append(idxty.ty);
        dest.append(", web_sys::");
        dest.append(websys_name.as_str());
        dest.append(");\n");
        dest.append("pub type ");
        dest.append(name);
        dest.append(" = types::");
        dest.append(idxty.ty);
        dest.append(";\n");
        assert(dest@ =~= old(dest)@ + class_text(name@));
    }
}

/// The registered disambiguation rule, applied to one overload: `Some` keeps
/// the overload, `None` discards it.
///
/// One rule is registered, for `bufferData`: keep the overload whose second
/// argument is not named `data`. An overload with fewer than two arguments
/// has no second argument named `data` and is kept.
pub open spec fn spec_unoverload(name: Seq<char>, op: Operation) -> Option<Seq<char>> {
    if name == "bufferData"@ {
        if op.args@.len() > 1 && op.args@[1].name@ == "data"@ {
            None
        } else {
            Some("bufferData"@)
        }
    } else {
        None
    }
}

/// Is a disambiguation rule registered for `name`?
pub open spec fn spec_has_rule(name: Seq<char>) -> bool {
    name == "bufferData"@
}

/// Apply the registered disambiguation rule for `name` to one overload.
pub fn unoverload(name: &str, op: &Operation) -> (r: Option<&'static str>)
    ensures
        match r {
            Some(kept) => spec_unoverload(name@, *op) == Some(kept@),
            None => spec_unoverload(name@, *op) is None,
        },
{
    if str_eq(name, "bufferData") {
        if op.args.len() > 1 && str_eq(op.args[1].name.as_str(), "data") {
            None
        } else {
            Some("bufferData")
        }
    } else {
        None
    }
}

/// Does an argument's named type end in the pointer marker?
pub open spec fn arg_is_ptr(a: Argument) -> bool {
    match a.type_.kind {
        crate::registry::TypeKind::Named(n) => ends_with(n@, "ptr"@),
        _ => false,
    }
}

/// Does any argument carry a pointer-marked named type?
pub open spec fn spec_has_ptr_arg(args: Seq<Argument>) -> bool {
    exists|i: int| 0 <= i < args.len() && arg_is_ptr(#[trigger] args[i])
}

fn has_ptr_arg(args: &Vec<Argument>) -> (r: bool)
    ensures
        r == spec_has_ptr_arg(args@),
{
    let mut i: usize = 0;
    while i < args.len()
        invariant
            i <= args@.len(),
            forall|j: int| 0 <= j < i ==> !arg_is_ptr(#[trigger] args@[j]),
        decreases args@.len() - i,
    {
        let is_ptr = match &args[i].type_.kind {
            crate::registry::TypeKind::Named(n) => str_ends_with(n.as_str(), "ptr"),
            _ => false,
        };
        if is_ptr {
            assert(arg_is_ptr(args@[i as int]));
            return true;
        }
        i = i + 1;
    }
    false
}

/// The typed-buffer marker of one argument: the buffer's element-type name,
/// or the optional byte-buffer marker; an error where a named type does not
/// resolve or a union holds no typed array.
pub open spec fn arg_buffer_marker(a: Argument, reg: Registry) -> Result<
    Option<Seq<char>>,
    ErrView,
> {
    match a.type_.kind {
        crate::registry::TypeKind::Named(n) => match lookup(reg.entries@, n@) {
            None => Err(ErrView::Unresolved { name: n@ }),
            Some(resolved) => match resolved {
                NamedType::Typedef(t) => match t.kind {
                    crate::registry::TypeKind::Union(tys) => match crate::types::spec_find_typed_array(
                        tys@,
                    ) {
                        Some(p) => Ok(Some(p.spec_name())),
                        None => Err(ErrView::UnionWithoutTypedArray),
                    },
                    crate::registry::TypeKind::TypedArray(p) => Ok(Some(p.spec_name())),
                    _ => Ok(None),
                },
                _ => Ok(None),
            },
        },
        crate::registry::TypeKind::ArrayBufferView => Ok(
            Some(
                if a.type_.optional {
                    "opt_u8"@
                } else {
                    "u8"@
                },
            ),
        ),
        crate::registry::TypeKind::BufferSource => Ok(
            Some(
                if a.type_.optional {
                    "opt_u8"@
                } else {
                    "u8"@
                },
            ),
        ),
        _ => Ok(None),
    }
}

/// The first argument's typed-buffer marker, if any argument has one.
pub open spec fn spec_buffer_marker(args: Seq<Argument>, reg: Registry) -> Result<
    Option<Seq<char>>,
    ErrView,
>
    decreases args.len(),
{
    if args.len() == 0 {
        Ok(None)
    } else {
        match arg_buffer_marker(args[0], reg) {
            Err(e) => Err(e),
            Ok(Some(m)) => Ok(Some(m)),
            Ok(None) => spec_buffer_marker(args.skip(1), reg),
        }
    }
}

fn one_buffer_marker(a: &Argument, registry: &Registry) -> (r: Result<Option<String>, GenError>)
    ensures
        match r {
            Ok(Some(m)) => arg_buffer_marker(*a, *registry) == Ok::<_, ErrView>(Some(m@)),
            Ok(None) => arg_buffer_marker(*a, *registry) == Ok::<Option<Seq<char>>, ErrView>(
                None,
            ),
            Err(e) => arg_buffer_marker(*a, *registry) == Err::<Option<Seq<char>>, _>(e@),
        },
{
    match &a.type_.kind {
        crate::registry::TypeKind::Named(n) => match registry.resolve_type(n.as_str()) {
            None => Err(GenError::Unresolved { name: n.clone() }),
            Some(resolved) => match resolved {
                NamedType::Typedef(t) => match &t.kind {
                    crate::registry::TypeKind::Union(tys) => match crate::types::find_typed_array(
                        tys,
                    ) {
                        Some(p) => Ok(Some(p.name().to_owned())),
                        None => Err(GenError::UnionWithoutTypedArray),
                    },
                    crate::registry::TypeKind::TypedArray(p) => Ok(Some(p.name().to_owned())),
                    _ => Ok(None),
                },
                _ => Ok(None),
            },
        },
        crate::registry::TypeKind::ArrayBufferView => {
            if a.type_.optional {
                Ok(Some("opt_u8".to_owned()))
            } else {
                Ok(Some("u8".to_owned()))
            }
        },
        crate::registry::TypeKind::BufferSource => {
            if a.type_.optional {
                Ok(Some("opt_u8".to_owned()))
            } else {
                Ok(Some("u8".to_owned()))
            }
        },
        _ => Ok(None),
    }
}

fn buffer_marker(args: &Vec<Argument>, registry: &Registry) -> (r: Result<
    Option<String>,
    GenError,
>)
    ensures
        match r {
            Ok(Some(m)) => spec_buffer_marker(args@, *registry) == Ok::<_, ErrView>(Some(m@)),
            Ok(None) => spec_buffer_marker(args@, *registry) == Ok::<Option<Seq<char>>, ErrView>(
                None,
            ),
            Err(e) => spec_buffer_marker(args@, *registry) == Err::<Option<Seq<char>>, _>(e@),
        },
{
    let ghost s0 = args@;
    proof {
        assert(s0.skip(0) =~= s0);
    }
    let mut i: usize = 0;
    while i < args.len()
        invariant
            s0 == args@,
            i <= s0.len(),
            spec_buffer_marker(s0, *registry) == spec_buffer_marker(s0.skip(i as int), *registry),
        decreases s0.len() - i,
    {
        proof {
            assert(s0.skip(i as int)[0] == s0[i as int]);
            assert(s0.skip(i as int).skip(1) =~= s0.skip(i + 1));
        }
        match one_buffer_marker(&args[i], registry) {
            Err(e) => {
                return Err(e);
            },
            Ok(Some(m)) => {
                return Ok(Some(m));
            },
            Ok(None) => {},
        }
        i = i + 1;
    }
    assert(s0.skip(i as int).len() == 0);
    Ok(None)
}

/// The underlying runtime's call name for the operation `name` with the
/// argument list of `op`: the snake-case form of `name` with the trailing
/// dimension token normalized, then a pointer marker and a typed-buffer
/// marker where the arguments call for them, joined by the runtime's two
/// connectives, `_with` first and `_and` after.
pub open spec fn websys_name_spec(name: Seq<char>, op: Operation, reg: Registry) -> Result<
    Seq<char>,
    ErrView,
> {
    match spec_buffer_marker(op.args@, reg) {
        Err(e) => Err(e),
        Ok(marker) => {
            let base = replace_all(snake_of(name), "2_d"@, "_2d"@);
            let has_ptr = spec_has_ptr_arg(op.args@);
            let with_ptr = if has_ptr {
                base + "_with"@ + "_i32"@
            } else {
                base
            };
            Ok(
                match marker {
                    Some(m) => with_ptr + (if has_ptr {
                        "_and"@
                    } else {
                        "_with"@
                    }) + "_"@ + m + "_array"@,
                    None => with_ptr,
                },
            )
        },
    }
}

/// Derive the underlying runtime's call name for one operation.
pub fn get_websys_function_name(name: &str, op: &Operation, registry: &Registry) -> (r: Result<
    String,
    GenError,
>)
    ensures
        res_view(r) == websys_name_spec(name@, *op, *registry),
{
    let marker = match buffer_marker(&op.args, registry) {
        Err(e) => {
            return Err(e);
        },
        Ok(m) => m,
    };
    let has_ptr = has_ptr_arg(&op.args);
    let snake = to_snake_case(name);
    proof {
        reveal_strlit("2_d");
    }
    let mut result = str_replace(snake.as_str(), "2_d", "_2d");
    if has_ptr {
        result.append("_with");
        result.append("_i32");
    }
    if let Some(m) = marker {
        if has_ptr {
            result.append("_and");
        } else {
            result.append("_with");
        }
        result.append("_");
        result.append(m.as_str());
        result.append("_array");
    }
    assert(Ok::<Seq<char>, ErrView>(result@) =~~= websys_name_spec(name@, *op, *registry));
    Ok(result)
}

/// The argument list of one operation, without the surrounding parentheses.
pub open spec fn args_list_text(args: Seq<Argument>, reg: Registry) -> Result<Seq<char>, ErrView>
    decreases args.len(),
{
    if args.len() == 0 {
        Ok(Seq::empty())
    } else {
        match stringify_arg_spec(args[0].type_, reg) {
            Err(e) => Err(e),
            Ok(t) => {
                let piece = spec_escape_ident(args[0].name@) + ": "@ + t + (if args.len() > 1 {
                    ", "@
                } else {
                    Seq::<char>::empty()
                });
                match args_list_text(args.skip(1), reg) {
                    Err(e) => Err(e),
                    Ok(rest) => Ok(piece + rest),
                }
            },
        }
    }
}

/// The parenthesized argument list of one operation.
pub open spec fn write_args_spec(args: Seq<Argument>, reg: Registry) -> Result<Seq<char>, ErrView> {
    match args_list_text(args, reg) {
        Ok(l) => Ok("("@ + l + ")"@),
        Err(e) => Err(e),
    }
}

/// Emit the parenthesized argument list of one operation.
pub fn write_args(args: &Vec<Argument>, registry: &Registry) -> (r: Result<String, GenError>)
    ensures
        res_view(r) == write_args_spec(args@, *registry),
{
    let ghost s0 = args@;
    let mut out = "(".to_owned();
    proof {
        reveal_strlit("(");
        assert(s0.skip(0) =~= s0);
        assert(out@.skip(1) =~= Seq::<char>::empty());
    }
    let mut i: usize = 0;
    while i < args.len()
        invariant
            s0 == args@,
            i <= s0.len(),
            out@.len() >= 1,
            out@.take(1) == "("@,
            "("@.len() == 1,
            match args_list_text(s0.skip(i as int), *registry) {
                Ok(rest) => args_list_text(s0, *registry) == Ok::<Seq<char>, ErrView>(
                    out@.skip(1) + rest,
                ),
                Err(e) => args_list_text(s0, *registry) == Err::<Seq<char>, ErrView>(e),
            },
        decreases s0.len() - i,
    {
        proof {
            assert(s0.skip(i as int)[0] == s0[i as int]);
            assert(s0.skip(i as int).skip(1) =~= s0.skip(i + 1));
        }
        match crate::types::stringify_arg(&args[i].type_, registry) {
            Err(e) => {
                return Err(e);
            },
            Ok(t) => {
                let ghost out0 = out@;
                let esc = escape_ident(args[i].name.as_str());
                out.append(esc.as_str());
                out.append(": ");
                out.append(t.as_str());
                if i + 1 < args.len() {
                    out.append(", ");
                }
                proof {
                    let piece = spec_escape_ident(s0[i as int].name@) + ": "@ + t@ + (if s0.skip(
                        i as int,
                    ).len() > 1 {
                        ", "@
                    } else {
                        Seq::<char>::empty()
                    });
                    assert(out@ =~= out0 + piece);
                    assert(out@.skip(1) =~= out0.skip(1) + piece);
                    assert(out@.take(1) =~= out0.take(1));
                    match args_list_text(s0.skip(i + 1), *registry) {
                        Ok(rest2) => {
                            assert(out@.skip(1) + rest2 =~= out0.skip(1) + (piece + rest2));
                        },
                        Err(_) => {},
                    }
                }
            },
        }
        i = i + 1;
    }
    assert(s0.skip(i as int).len() == 0);
    let ghost listpart = out@.skip(1);
    proof {
        assert(listpart + Seq::<char>::empty() =~= listpart);
        assert(out@ =~= "("@ + listpart);
    }
    out.append(")");
    assert(out@ =~= "("@ + listpart + ")"@);
    Ok(out)
}

/// The forwarded parameter names of one operation, without parentheses.
pub open spec fn params_list_text(args: Seq<Argument>) -> Seq<char>
    decreases args.len(),
{
    if args.len() == 0 {
        Seq::empty()
    } else {
        spec_escape_ident(args[0].name@) + (if args.len() > 1 {
            ", "@
        } else {
            Seq::<char>::empty()
        }) + params_list_text(args.skip(1))
    }
}

/// The parenthesized forwarded parameter list of one operation.
pub open spec fn write_params_spec(args: Seq<Argument>) -> Seq<char> {
    "("@ + params_list_text(args) + ")"@
}

/// Emit the parenthesized forwarded parameter list of one operation.
pub fn write_params(args: &Vec<Argument>) -> (r: String)
    ensures
        r@ == write_params_spec(args@),
{
    let ghost s0 = args@;
    let mut out = "(".to_owned();
    proof {
        reveal_strlit("(");
        assert(s0.skip(0) =~= s0);
        assert(out@.skip(1) =~= Seq::<char>::empty());
    }
    let mut i: usize = 0;
    while i < args.len()
        invariant
            s0 == args@,
            i <= s0.len(),
            out@.len() >= 1,
            out@.take(1) == "("@,
            "("@.len() == 1,
            params_list_text(s0) == out@.skip(1) + params_list_text(s0.skip(i as int)),
        decreases s0.len() - i,
    {
        proof {
            assert(s0.skip(i as int)[0] == s0[i as int]);
            assert(s0.skip(i as int).skip(1) =~= s0.skip(i + 1));
        }
        let ghost out0 = out@;
        write_ident(args[i].name.as_str(), &mut out);
        if i + 1 < args.len() {
            out.append(", ");
        }
        proof {
            let piece = spec_escape_ident(s0[i as int].name@) + (if s0.skip(i as int).len() > 1 {
                ", "@
            } else {
                Seq::<char>::empty()
            });
            assert(out@ =~= out0 + piece);
            assert(out@.skip(1) =~= out0.skip(1) + piece);
            assert(out@.take(1) =~= out0.take(1));
            assert(out@.skip(1) + params_list_text(s0.skip(i + 1)) =~= out0.skip(1) + (piece
                + params_list_text(s0.skip(i + 1))));
        }
        i = i + 1;
    }
    assert(s0.skip(i as int).len() == 0);
    let ghost listpart = out@.skip(1);
    proof {
        assert(params_list_text(s0) =~= listpart);
        assert(out@ =~= "("@ + listpart);
    }
    out.append(")");
    assert(out@ =~= "("@ + listpart + ")"@);
    out
}

/// The cast lines of one argument: text arguments are decoded from a raw
/// pointer, and interface handles are bit-reinterpreted into the runtime's
/// reference type without taking ownership of it.
pub open spec fn arg_cast_text(a: Argument, reg: Registry) -> Result<Seq<char>, ErrView> {
    let an = spec_escape_ident(a.name@);
    match a.type_.kind {
        crate::registry::TypeKind::DomString => Ok(
            "    let "@ + an + " = std::ffi::CStr::from_ptr("@ + an
                + ").to_str().unwrap();\n"@,
        ),
        crate::registry::TypeKind::Named(n) => {
            if n@ == "GLintptr"@ {
                Ok("    let "@ + an + " = "@ + an + " as i32;\n"@)
            } else {
                match lookup(reg.entries@, n@) {
                    None => Err(ErrView::Unresolved { name: n@ }),
                    Some(resolved) => match resolved {
                        NamedType::Interface(_) => Ok(
                            "    let "@ + an
                                + "_ = std::mem::MaybeUninit::new(std::mem::transmute::<_, web_sys::"@
                                + replace_all(n@, "WebGL"@, "WebGl"@) + ">("@ + an + "));\n"@
                                + "    let "@ + an + " = "@ + an + "_.assume_init_ref();\n"@ + (
                            if a.type_.optional {
                                "    let "@ + an + " = Some("@ + an + ");\n"@
                            } else {
                                Seq::empty()
                            }),
                        ),
                        _ => Ok(Seq::empty()),
                    },
                }
            }
        },
        _ => Ok(Seq::empty()),
    }
}

/// The cast lines of every argument, in order.
pub open spec fn casts_fold(args: Seq<Argument>, reg: Registry) -> Result<Seq<char>, ErrView>
    decreases args.len(),
{
    if args.len() == 0 {
        Ok(Seq::empty())
    } else {
        match arg_cast_text(args[0], reg) {
            Err(e) => Err(e),
            Ok(h) => match casts_fold(args.skip(1), reg) {
                Err(e) => Err(e),
                Ok(rest) => Ok(h + rest),
            },
        }
    }
}

/// Emit the per-argument cast lines of one operation.
#[verifier::rlimit(60)]
pub fn write_param_casts(args: &Vec<Argument>, registry: &Registry) -> (r: Result<String, GenError>)
    ensures
        res_view(r) == casts_fold(args@, *registry),
{
    let ghost s0 = args@;
    let mut out = String::new();
    proof {
        assert(s0.skip(0) =~= s0);
    }
    let mut i: usize = 0;
    while i < args.len()
        invariant
            s0 == args@,
            i <= s0.len(),
            match casts_fold(s0.skip(i as int), *registry) {
                Ok(rest) => casts_fold(s0, *registry) == Ok::<Seq<char>, ErrView>(out@ + rest),
                Err(e) => casts_fold(s0, *registry) == Err::<Seq<char>, ErrView>(e),
            },
        decreases s0.len() - i,
    {
        proof {
            assert(s0.skip(i as int)[0] == s0[i as int]);
            assert(s0.skip(i as int).skip(1) =~= s0.skip(i + 1));
        }
        let ghost out0 = out@;
        let argname = escape_ident(args[i].name.as_str());
        match &args[i].type_.kind {
            crate::registry::TypeKind::DomString => {
                out.append("    let ");
                out.append(argname.as_str());
                out.append(" = std::ffi::CStr::from_ptr(");
                out.append(argname.as_str());
                out.append(").to_str().unwrap();\n");
                assert(out@ =~= out0 + ("    let "@ + argname@ + " = std::ffi::CStr::from_ptr("@
                    + argname@ + ").to_str().unwrap();\n"@));
            },
            crate::registry::TypeKind::Named(n) => {
                if str_eq(n.as_str(), "GLintptr") {
                    out.append("    let ");
                    out.append(argname.as_str());
                    out.append(" = ");
                    out.append(argname.as_str());
                    out.append(" as i32;\n");
                    assert(out@ =~= out0 + ("    let "@ + argname@ + " = "@ + argname@
                        + " as i32;\n"@));
                } else {
                    match registry.resolve_type(n.as_str()) {
                        None => {
                            return Err(GenError::Unresolved { name: n.clone() });
                        },
                        Some(resolved) => match resolved {
                            NamedType::Interface(_) => {
                                proof {
                                    reveal_strlit("WebGL");
                                }
                                let tyname = str_replace(n.as_str(), "WebGL", "WebGl");
                                out.append("    let ");
                                out.append(argname.as_str());
                                out.append(
                                    "_ = std::mem::MaybeUninit::new(std::mem::transmute::<_, web_sys::",
                                );
                                out.append(tyname.as_str());
                                out.append(">(");
                                out.append(argname.as_str());
                                out.append("));\n");
                                out.append("    let ");
                                out.append(argname.as_str());
                                out.append(" = ");
                                out.append(argname.as_str());
                                out.append("_.assume_init_ref();\n");
                                if args[i].type_.optional {
                                    out.append("    let ");
                                    out.append(argname.as_str());
                                    out.append(" = Some(");
                                    out.append(argname.as_str());
                                    out.append(");\n");
                                }
                                assert(out@ =~= out0 + ("    let "@ + argname@
                                    + "_ = std::mem::MaybeUninit::new(std::mem::transmute::<_, web_sys::"@
                                    + replace_all(n@, "WebGL"@, "WebGl"@) + ">("@ + argname@
                                    + "));\n"@ + "    let "@ + argname@ + " = "@ + argname@
                                    + "_.assume_init_ref();\n"@ + (if s0[i as int].type_.optional {
                                    "    let "@ + argname@ + " = Some("@ + argname@ + ");\n"@
                                } else {
                                    Seq::<char>::empty()
                                })));
                            },
                            _ => {
                                assert(out@ =~= out0 + Seq::<char>::empty());
                            },
                        },
                    }
                }
            },
            _ => {
                assert(out@ =~= out0 + Seq::<char>::empty());
            },
        }
        proof {
            let h = match arg_cast_text(s0[i as int], *registry) {
                Ok(hh) => hh,
                Err(_) => Seq::<char>::empty(),
            };
            assert(out@ == out0 + h);
            match casts_fold(s0.skip(i + 1), *registry) {
                Ok(rest2) => {
                    assert(out@ + rest2 =~= out0 + (h + rest2));
                },
                Err(_) => {},
            }
        }
        i = i + 1;
    }
    assert(s0.skip(i as int).len() == 0);
    Ok(out)
}

/// The return-type position of one operation's signature.
pub open spec fn ret_sig_spec(rt: Option<Type>, reg: Registry) -> Result<Seq<char>, ErrView> {
    match rt {
        None => Ok(Seq::empty()),
        Some(t) => match stringify_return_spec(t, reg) {
            Ok(s) => Ok(" -> "@ + s),
            Err(e) => Err(e),
        },
    }
}

/// Emit the return-type position of one operation's signature.
pub fn write_return_signature(return_type: &Option<Type>, registry: &Registry) -> (r: Result<
    String,
    GenError,
>)
    ensures
        res_view(r) == ret_sig_spec(*return_type, *registry),
{
    match return_type {
        None => Ok(String::new()),
        Some(t) => match crate::types::stringify_return(t, registry) {
            Ok(s) => {
                let mut out = " -> ".to_owned();
                out.append(s.as_str());
                Ok(out)
            },
            Err(e) => Err(e),
        },
    }
}

/// The result-conversion lines of one operation: sequence results are copied
/// element by element, pointer-marked results are cast back, and an optional
/// interface result converts "absent" to the class sentinel.
pub open spec fn result_conv_spec(retty: Type, reg: Registry) -> Result<Seq<char>, ErrView> {
    let seq_part = match retty.kind {
        crate::registry::TypeKind::Sequence(inner) => match stringify_return_spec(*inner, reg) {
            Err(e) => Err(e),
            Ok(tn) => {
                let convert = if inner.kind is DomString {
                    "unchecked_into::<js_sys::JsString>().as_string().unwrap()"@
                } else {
                    "unchecked_into::<"@ + tn + ">()"@
                };
                Ok(
                    if retty.optional {
                        "    .map(|some| some.iter().map(|val| val."@ + convert
                            + ").collect::<Vec<_>>())\n"@
                    } else {
                        "    .iter().map(|val| val."@ + convert + ").collect::<Vec<_>>()\n"@
                    },
                )
            },
        },
        _ => Ok(Seq::empty()),
    };
    match seq_part {
        Err(e) => Err(e),
        Ok(sp) => {
            let named_part = match retty.kind {
                crate::registry::TypeKind::Named(n) => match lookup(reg.entries@, n@) {
                    None => Err(ErrView::Unresolved { name: n@ }),
                    Some(resolved) => {
                        let ptr_part = if ends_with(n@, "ptr"@) {
                            " as i32 as *const std::ffi::c_void"@
                        } else {
                            Seq::<char>::empty()
                        };
                        let opt_part = if retty.optional && resolved is Interface {
                            "    .map_or("@ + spec_none_val(n@)
                                + ", |val| std::mem::transmute::<_, "@ + n@ + ">(val))\n"@
                        } else {
                            Seq::<char>::empty()
                        };
                        Ok(ptr_part + opt_part)
                    },
                },
                _ => Ok(Seq::<char>::empty()),
            };
            match named_part {
                Err(e) => Err(e),
                Ok(np) => Ok(sp + np),
            }
        },
    }
}

/// Emit the result-conversion lines of one operation.
pub fn write_result_conversion(retty: &Type, registry: &Registry) -> (r: Result<String, GenError>)
    ensures
        res_view(r) == result_conv_spec(*retty, *registry),
{
    let mut out = String::new();
    match &retty.kind {
        crate::registry::TypeKind::Sequence(inner) => {
            match crate::types::stringify_return(inner, registry) {
                Err(e) => {
                    return Err(e);
                },
                Ok(tn) => {
                    let mut convert: String = String::new();
                    if let crate::registry::TypeKind::DomString = &inner.kind {
                        convert.append(
                            "unchecked_into::<js_sys::JsString>().as_string().unwrap()",
                        );
                    } else {
                        convert.append("unchecked_into::<");
                        convert.append(tn.as_str());
                        convert.append(">()");
                        assert(convert@ =~= "unchecked_into::<"@ + tn@ + ">()"@);
                    }
                    if retty.optional {
                        out.append("    .map(|some| some.iter().map(|val| val.");
                        out.append(convert.as_str());
                        out.append(").collect::<Vec<_>>())\n");
                    } else {
                        out.append("    .iter().map(|val| val.");
                        out.append(convert.as_str());
                        out.append(").collect::<Vec<_>>()\n");
                    }
                },
            }
        },
        _ => {},
    }
    let ghost sp = out@;
    match &retty.kind {
        crate::registry::TypeKind::Named(n) => {
            match registry.resolve_type(n.as_str()) {
                None => {
                    return Err(GenError::Unresolved { name: n.clone() });
                },
                Some(resolved) => {
                    if str_ends_with(n.as_str(), "ptr") {
                        out.append(" as i32 as *const std::ffi::c_void");
                    }
                    let is_iface = match resolved {
                        NamedType::Interface(_) => true,
                        _ => false,
                    };
                    if retty.optional && is_iface {
                        let info = ClassInfo::get(n.as_str());
                        if let Some(idxty) = info.indexed_as {
                            out.append("    .map_or(");
                            out.append(idxty.none_val);
                            out.append(", |val| std::mem::transmute::<_, ");
                            out.append(n.as_str());
                            out.append(">(val))\n");
                        }
                    }
                    proof {
                        let ptr_part = if ends_with(n@, "ptr"@) {
                            " as i32 as *const std::ffi::c_void"@
                        } else {
                            Seq::<char>::empty()
                        };
                        let opt_part = if retty.optional && resolved is Interface {
                            "    .map_or("@ + spec_none_val(n@)
                                + ", |val| std::mem::transmute::<_, "@ + n@ + ">(val))\n"@
                        } else {
                            Seq::<char>::empty()
                        };
                        assert(out@ =~= sp + (ptr_part + opt_part));
                    }
                },
            }
        },
        _ => {
            assert(out@ =~= sp + Seq::<char>::empty());
        },
    }
    Ok(out)
}

/// Exposed names whose result shape the generic rules cannot express: their
/// bindings are emitted as stubs that fail when called, so that the full
/// symbol surface still compiles.
///
/// Every name listed here also carries a registered replacement at present,
/// which takes priority, so the stub branch is taken only if an entry ever
/// leaves the replacement table.
pub open spec fn spec_disabled(n: Seq<char>) -> bool {
    n == "GetExtension"@ || n == "GetParameter"@ || n == "GetAttachedShaders"@
        || n == "GetSupportedExtensions"@ || n == "GetProgramInfoLog"@ || n == "GetShaderInfoLog"@
        || n == "GetShaderSource"@ || n == "GetFramebufferAttachmentParameter"@
        || n == "GetVertexAttrib"@
}

fn is_disabled(name: &str) -> (r: bool)
    ensures
        r == spec_disabled(name@),
{
    str_eq(name, "GetExtension") || str_eq(name, "GetParameter") || str_eq(
        name,
        "GetAttachedShaders",
    ) || str_eq(name, "GetSupportedExtensions") || str_eq(name, "GetProgramInfoLog") || str_eq(
        name,
        "GetShaderInfoLog",
    ) || str_eq(name, "GetShaderSource") || str_eq(name, "GetFramebufferAttachmentParameter")
        || str_eq(name, "GetVertexAttrib")
}

/// Exposed names whose underlying call reports failure through the
/// thread-local error cell instead of the return channel.
pub open spec fn spec_fallible(n: Seq<char>) -> bool {
    n == "ReadPixels"@
}

/// The generic binding of one operation under the exposed name `n`; empty
/// where a replacement is registered for `n`, whose text is spliced at the
/// end of the output instead.
pub open spec fn member_op_text(n: Seq<char>, op: Operation, reg: Registry) -> Result<
    Seq<char>,
    ErrView,
> {
    if crate::compat::spec_patch_lookup(n) is Some {
        Ok(Seq::empty())
    } else {
        match websys_name_spec(n, op, reg) {
            Err(e) => Err(e),
            Ok(wsname) => match write_args_spec(op.args@, reg) {
                Err(e) => Err(e),
                Ok(argstext) => match ret_sig_spec(op.return_type, reg) {
                    Err(e) => Err(e),
                    Ok(rettext) => {
                        let attr = if spec_disabled(n) {
                            "#[allow(unused, non_snake_case)]\n"@
                        } else {
                            "#[allow(non_snake_case)]\n"@
                        };
                        let head = attr + "pub unsafe fn "@ + n + argstext + rettext + " {\n"@;
                        if spec_disabled(n) {
                            Ok(head + "    todo!()\n"@ + "}\n"@)
                        } else {
                            match casts_fold(op.args@, reg) {
                                Err(e) => Err(e),
                                Ok(caststext) => match (match op.return_type {
                                    Some(t) => result_conv_spec(t, reg),
                                    None => Ok(Seq::empty()),
                                }) {
                                    Err(e) => Err(e),
                                    Ok(convtext) => Ok(
                                        head + caststext + "    withctx!(CONTEXT, ctx, {ctx."@
                                            + wsname + write_params_spec(op.args@) + "})\n"@ + (
                                        if spec_fallible(n) {
                                            "    .handle_js_error()\n"@
                                        } else {
                                            Seq::<char>::empty()
                                        }) + convtext + "}\n"@,
                                    ),
                                },
                            }
                        }
                    },
                },
            },
        }
    }
}

/// Emit the generic binding of one operation, unless a replacement is
/// registered for its exposed name.
pub fn write_member_op(name: &str, op: &Operation, registry: &Registry) -> (r: Result<
    String,
    GenError,
>)
    ensures
        res_view(r) == member_op_text(name@, *op, *registry),
{
    if crate::compat::FunctionAlternative::get(name).is_some() {
        // the replacement text is appended by the trailing section
        return Ok(String::new());
    }
    let wsname = match get_websys_function_name(name, op, registry) {
        Ok(w) => w,
        Err(e) => {
            return Err(e);
        },
    };
    let argstext = match write_args(&op.args, registry) {
        Ok(a) => a,
        Err(e) => {
            return Err(e);
        },
    };
    let rettext = match write_return_signature(&op.return_type, registry) {
        Ok(t) => t,
        Err(e) => {
            return Err(e);
        },
    };
    let disabled = is_disabled(name);
    let mut out = String::new();
    if disabled {
        out.append("#[allow(unused, non_snake_case)]\n");
    } else {
        out.append("#[allow(non_snake_case)]\n");
    }
    out.append("pub unsafe fn ");
    out.append(name);
    out.append(argstext.as_str());
    out.append(rettext.as_str());
    out.append(" {\n");
    if disabled {
        out.append("    todo!()\n");
        out.append("}\n");
        assert(out@ =~= (if spec_disabled(name@) {
            "#[allow(unused, non_snake_case)]\n"@
        } else {
            "#[allow(non_snake_case)]\n"@
        }) + "pub unsafe fn "@ + name@ + argstext@ + rettext@ + " {\n"@ + "    todo!()\n"@
            + "}\n"@);
        return Ok(out);
    }
    let caststext = match write_param_casts(&op.args, registry) {
        Ok(c) => c,
        Err(e) => {
            return Err(e);
        },
    };
    let convtext = match &op.return_type {
        Some(t) => match write_result_conversion(t, registry) {
            Ok(c) => c,
            Err(e) => {
                return Err(e);
            },
        },
        None => String::new(),
    };
    let fallible = str_eq(name, "ReadPixels");
    let params = write_params(&op.args);
    out.append(caststext.as_str());
    out.append("    withctx!(CONTEXT, ctx, {ctx.");
    out.append(wsname.as_str());
    out.append(params.as_str());
    out.append("})\n");
    if fallible {
        out.append("    .handle_js_error()\n");
    }
    out.append(convtext.as_str());
    out.append("}\n");
    assert(out@ =~= (if spec_disabled(name@) {
        "#[allow(unused, non_snake_case)]\n"@
    } else {
        "#[allow(non_snake_case)]\n"@
    }) + "pub unsafe fn "@ + name@ + argstext@ + rettext@ + " {\n"@ + caststext@
        + "    withctx!(CONTEXT, ctx, {ctx."@ + wsname@ + params@ + "})\n"@ + (if spec_fallible(
        name@,
    ) {
        "    .handle_js_error()\n"@
    } else {
        Seq::<char>::empty()
    }) + convtext@ + "}\n"@);
    Ok(out)
}

/// The positions of the operations under the exposed name `g` in `ms`, in
/// order.
pub open spec fn group_op_indices(ms: Seq<Member>, g: Seq<char>) -> Seq<int>
    decreases ms.len(),
{
    if ms.len() == 0 {
        Seq::empty()
    } else {
        let rest = group_op_indices(ms.drop_last(), g);
        match ms.last() {
            Member::Operation(op) => if op.name@ == g {
                rest.push(ms.len() - 1)
            } else {
                rest
            },
            Member::Const(_) => rest,
        }
    }
}

/// The positions of the operations under `g` that the registered rule keeps.
pub open spec fn surviving_indices(ms: Seq<Member>, g: Seq<char>) -> Seq<int>
    decreases ms.len(),
{
    if ms.len() == 0 {
        Seq::empty()
    } else {
        let rest = surviving_indices(ms.drop_last(), g);
        match ms.last() {
            Member::Operation(op) => if op.name@ == g && spec_unoverload(g, op) is Some {
                rest.push(ms.len() - 1)
            } else {
                rest
            },
            Member::Const(_) => rest,
        }
    }
}

/// The position of the one operation to emit under the exposed name `g`:
/// none where the group holds no operation; the only one where it holds one;
/// otherwise the single overload that the registered rule keeps. A group of
/// several overloads with no rule, or whose rule keeps none or several, is a
/// fatal ambiguity.
pub open spec fn spec_resolved_idx(ms: Seq<Member>, g: Seq<char>) -> Result<Option<int>, ErrView> {
    let idxs = group_op_indices(ms, g);
    if idxs.len() == 0 {
        Ok(None)
    } else if idxs.len() == 1 {
        Ok(Some(idxs[0]))
    } else if !spec_has_rule(g) {
        Err(ErrView::AmbiguousOverload { name: g })
    } else {
        let sv = surviving_indices(ms, g);
        if sv.len() == 1 {
            Ok(Some(sv[0]))
        } else {
            Err(ErrView::AmbiguousOverload { name: g })
        }
    }
}

/// Pick the one operation to emit under the exposed name `g`.
pub fn resolve_op(g: &str, members: &Vec<Member>) -> (r: Result<Option<usize>, GenError>)
    ensures
        match r {
            Ok(Some(idx)) => idx < members@.len() && spec_resolved_idx(members@, g@) == Ok::<
                _,
                ErrView,
            >(Some(idx as int)),
            Ok(None) => spec_resolved_idx(members@, g@) == Ok::<Option<int>, ErrView>(None),
            Err(e) => spec_resolved_idx(members@, g@) == Err::<Option<int>, ErrView>(e@),
        },
{
    let ghost ms = members@;
    let mut cnt: usize = 0;
    let mut first: usize = 0;
    proof {
        assert(ms.take(0) =~= Seq::<Member>::empty());
    }
    let mut i: usize = 0;
    while i < members.len()
        invariant
            ms == members@,
            i <= ms.len(),
            cnt == group_op_indices(ms.take(i as int), g@).len(),
            cnt <= i,
            cnt > 0 ==> first < i && group_op_indices(ms.take(i as int), g@)[0] == first,
        decreases ms.len() - i,
    {
        proof {
            assert(ms.take(i + 1).drop_last() =~= ms.take(i as int));
            assert(ms.take(i + 1).last() == ms[i as int]);
        }
        match &members[i] {
            Member::Operation(op) => {
                if str_eq(op.name.as_str(), g) {
                    if cnt == 0 {
                        first = i;
                    }
                    cnt = cnt + 1;
                }
            },
            Member::Const(_) => {},
        }
        i = i + 1;
    }
    proof {
        assert(ms.take(i as int) =~= ms);
    }
    if cnt == 0 {
        return Ok(None);
    }
    if cnt == 1 {
        return Ok(Some(first));
    }
    if !str_eq(g, "bufferData") {
        return Err(GenError::AmbiguousOverload { name: g.to_owned() });
    }
    let mut scnt: usize = 0;
    let mut sfirst: usize = 0;
    proof {
        assert(ms.take(0) =~= Seq::<Member>::empty());
    }
    let mut j: usize = 0;
    while j < members.len()
        invariant
            ms == members@,
            j <= ms.len(),
            scnt == surviving_indices(ms.take(j as int), g@).len(),
            scnt <= j,
            scnt > 0 ==> sfirst < j && surviving_indices(ms.take(j as int), g@)[0] == sfirst,
        decreases ms.len() - j,
    {
        proof {
            assert(ms.take(j + 1).drop_last() =~= ms.take(j as int));
            assert(ms.take(j + 1).last() == ms[j as int]);
        }
        match &members[j] {
            Member::Operation(op) => {
                if str_eq(op.name.as_str(), g) {
                    if unoverload(g, op).is_some() {
                        if scnt == 0 {
                            sfirst = j;
                        }
                        scnt = scnt + 1;
                    }
                }
            },
            Member::Const(_) => {},
        }
        j = j + 1;
    }
    proof {
        assert(ms.take(j as int) =~= ms);
    }
    if scnt == 1 {
        Ok(Some(sfirst))
    } else {
        Err(GenError::AmbiguousOverload { name: g.to_owned() })
    }
}

/// The constant line of one constant member of a rendering context.
pub open spec fn const_line(c: crate::registry::ConstMember, ctxn: Seq<char>, reg: Registry) -> Result<
    Seq<char>,
    ErrView,
> {
    match stringify_return_spec(c.type_, reg) {
        Err(e) => Err(e),
        Ok(ty) => Ok(
            "pub const "@ + c.name@ + ": "@ + ty + " = web_sys::"@ + replace_all(
                ctxn,
                "WebGL"@,
                "WebGl"@,
            ) + "::"@ + c.name@ + ";\n"@,
        ),
    }
}

/// The bindings of the members named `g`, from position `i` on: the one
/// resolved operation and every constant, in member order.
pub open spec fn group_members_from(
    ms: Seq<Member>,
    g: Seq<char>,
    ctxn: Seq<char>,
    reg: Registry,
    ridx: Option<int>,
    i: int,
) -> Result<Seq<char>, ErrView>
    decreases ms.len() - i,
    when 0 <= i <= ms.len()
{
    if i >= ms.len() {
        Ok(Seq::empty())
    } else {
        let head = match ms[i] {
            Member::Operation(op) => if op.name@ == g && ridx == Some(i) {
                member_op_text(upper_camel_of(g), op, reg)
            } else {
                Ok(Seq::empty())
            },
            Member::Const(c) => if c.name@ == g {
                const_line(c, ctxn, reg)
            } else {
                Ok(Seq::empty())
            },
        };
        match head {
            Err(e) => Err(e),
            Ok(h) => match group_members_from(ms, g, ctxn, reg, ridx, i + 1) {
                Err(e) => Err(e),
                Ok(rest) => Ok(h + rest),
            },
        }
    }
}

/// The bindings of one member group: overloads resolved first, then every
/// member in order.
pub open spec fn group_text(ms: Seq<Member>, g: Seq<char>, ctxn: Seq<char>, reg: Registry) -> Result<
    Seq<char>,
    ErrView,
> {
    match spec_resolved_idx(ms, g) {
        Err(e) => Err(e),
        Ok(ridx) => group_members_from(ms, g, ctxn, reg, ridx, 0),
    }
}

/// The bindings of the member groups named in `names`, in that order.
pub open spec fn names_fold(
    names: Seq<Seq<char>>,
    ms: Seq<Member>,
    ctxn: Seq<char>,
    reg: Registry,
) -> Result<Seq<char>, ErrView>
    decreases names.len(),
{
    if names.len() == 0 {
        Ok(Seq::empty())
    } else {
        match names_fold(names.drop_last(), ms, ctxn, reg) {
            Err(e) => Err(e),
            Ok(p) => match group_text(ms, names.last(), ctxn, reg) {
                Err(e) => Err(e),
                Ok(t) => Ok(p + t),
            },
        }
    }
}

proof fn names_fold_err_persists(
    names: Seq<Seq<char>>,
    ms: Seq<Member>,
    ctxn: Seq<char>,
    reg: Registry,
    i: int,
)
    requires
        0 <= i <= names.len(),
        names_fold(names.take(i), ms, ctxn, reg) is Err,
    ensures
        names_fold(names, ms, ctxn, reg) == names_fold(names.take(i), ms, ctxn, reg),
    decreases names.len() - i,
{
    if i == names.len() {
        assert(names.take(i) =~= names);
    } else {
        assert(names.take(i + 1).drop_last() =~= names.take(i));
        names_fold_err_persists(names, ms, ctxn, reg, i + 1);
    }
}

/// The function and constant bindings of one rendering-context interface:
/// its member groups in increasing name order, each group's overloads
/// resolved to one binding.
pub open spec fn rendering_context_text(ctxn: Seq<char>, iface: Interface, reg: Registry) -> Result<
    Seq<char>,
    ErrView,
> {
    names_fold(crate::registry::sorted_names(iface.members@), iface.members@, ctxn, reg)
}

/// The mathematical image of a resolved-operation position.
pub open spec fn opt_idx_view(o: Option<usize>) -> Option<int> {
    match o {
        Some(k) => Some(k as int),
        None => None,
    }
}

/// Emit the constant line of one constant member.
fn write_const_member(
    c: &crate::registry::ConstMember,
    ctx_ty_name: &str,
    registry: &Registry,
) -> (r: Result<String, GenError>)
    ensures
        res_view(r) == const_line(*c, ctx_ty_name@, *registry),
{
    proof {
        reveal_strlit("WebGL");
    }
    let ctx_websys = str_replace(ctx_ty_name, "WebGL", "WebGl");
    match crate::types::stringify_return(&c.type_, registry) {
        Ok(ty) => {
            let mut out = "pub const ".to_owned();
            out.append(c.name.as_str());
            out.append(": ");
            out.append(ty.as_str());
            out.append(" = web_sys::");
            out.append(ctx_websys.as_str());
            out.append("::");
            out.append(c.name.as_str());
            out.append(";\n");
            assert(out@ =~= "pub const "@ + c.name@ + ": "@ + ty@ + " = web_sys::"@ + replace_all(
                ctx_ty_name@,
                "WebGL"@,
                "WebGl"@,
            ) + "::"@ + c.name@ + ";\n"@);
            Ok(out)
        },
        Err(e) => Err(e),
    }
}

/// Emit the bindings of the members named `g`: the operation at the
/// resolved position and every constant, in member order.
#[verifier::rlimit(60)]
fn write_group(
    g: &str,
    members: &Vec<Member>,
    ridx: Option<usize>,
    ctx_ty_name: &str,
    registry: &Registry,
) -> (r: Result<String, GenError>)
    ensures
        res_view(r) == group_members_from(
            members@,
            g@,
            ctx_ty_name@,
            *registry,
            opt_idx_view(ridx),
            0,
        ),
{
    let ghost ms = members@;
    let ghost ridxv = opt_idx_view(ridx);
    let mut gout = String::new();
    let mut j: usize = 0;
    while j < members.len()
        invariant
            ms == members@,
            j <= ms.len(),
            ridxv == opt_idx_view(ridx),
            match group_members_from(ms, g@, ctx_ty_name@, *registry, ridxv, j as int) {
                Ok(rest) => group_members_from(ms, g@, ctx_ty_name@, *registry, ridxv, 0) == Ok::<
                    Seq<char>,
                    ErrView,
                >(gout@ + rest),
                Err(e) => group_members_from(ms, g@, ctx_ty_name@, *registry, ridxv, 0) == Err::<
                    Seq<char>,
                    ErrView,
                >(e),
            },
        decreases ms.len() - j,
    {
        let ghost gout0 = gout@;
        match &members[j] {
            Member::Operation(op) => {
                let emit_here = if str_eq(op.name.as_str(), g) {
                    match ridx {
                        Some(k) => k == j,
                        None => false,
                    }
                } else {
                    false
                };
                if emit_here {
                    let camel = crate::casing::to_upper_camel_case(g);
                    match write_member_op(camel.as_str(), op, registry) {
                        Ok(t) => {
                            gout.append(t.as_str());
                            assert(gout@ =~= gout0 + t@);
                        },
                        Err(e) => {
                            return Err(e);
                        },
                    }
                } else {
                    assert(gout@ =~= gout0 + Seq::<char>::empty());
                }
            },
            Member::Const(c) => {
                if str_eq(c.name.as_str(), g) {
                    match write_const_member(c, ctx_ty_name, registry) {
                        Ok(t) => {
                            gout.append(t.as_str());
                            assert(gout@ =~= gout0 + t@);
                        },
                        Err(e) => {
                            return Err(e);
                        },
                    }
                } else {
                    assert(gout@ =~= gout0 + Seq::<char>::empty());
                }
            },
        }
        proof {
            let h = match (match ms[j as int] {
                Member::Operation(op) => if op.name@ == g@ && ridxv == Some(j as int) {
                    member_op_text(upper_camel_of(g@), op, *registry)
                } else {
                    Ok(Seq::empty())
                },
                Member::Const(c) => if c.name@ == g@ {
                    const_line(c, ctx_ty_name@, *registry)
                } else {
                    Ok(Seq::empty())
                },
            }) {
                Ok(hh) => hh,
                Err(_) => Seq::<char>::empty(),
            };
            assert(gout@ == gout0 + h);
            match group_members_from(ms, g@, ctx_ty_name@, *registry, ridxv, j + 1) {
                Ok(rest2) => {
                    assert(gout@ + rest2 =~= gout0 + (h + rest2));
                },
                Err(_) => {},
            }
        }
        j = j + 1;
    }
    proof {
        assert(group_members_from(ms, g@, ctx_ty_name@, *registry, ridxv, j as int) == Ok::<
            Seq<char>,
            ErrView,
        >(Seq::empty()));
        assert(gout@ + Seq::<char>::empty() =~= gout@);
    }
    Ok(gout)
}

/// Emit every resolved operation and every constant of one rendering
/// context.
pub fn write_rendering_context(
    ctx_ty_name: &str,
    interface: &Interface,
    registry: &Registry,
) -> (r: Result<String, GenError>)
    ensures
        res_view(r) == rendering_context_text(ctx_ty_name@, *interface, *registry),
{
    let names = interface.member_names();
    let ghost nv = crate::registry::names_view(names@);
    let ghost ms = interface.members@;
    let mut out = String::new();
    proof {
        assert(nv.take(0) =~= Seq::<Seq<char>>::empty());
    }
    let mut i: usize = 0;
    while i < names.len()
        invariant
            ms == interface.members@,
            nv == crate::registry::names_view(names@),
            nv == crate::registry::sorted_names(ms),
            nv.len() == names@.len(),
            i <= names@.len(),
            names_fold(nv.take(i as int), ms, ctx_ty_name@, *registry) == Ok::<Seq<char>, ErrView>(
                out@,
            ),
        decreases names@.len() - i,
    {
        proof {
            assert(nv.take(i + 1).drop_last() =~= nv.take(i as int));
            assert(nv.take(i + 1).last() == nv[i as int]);
            assert(nv[i as int] == names@[i as int]@);
        }
        let g: &String = &names[i];
        let ridx = match resolve_op(g.as_str(), &interface.members) {
            Ok(x) => x,
            Err(e) => {
                proof {
                    names_fold_err_persists(nv, ms, ctx_ty_name@, *registry, i + 1);
                }
                return Err(e);
            },
        };
        match write_group(g.as_str(), &interface.members, ridx, ctx_ty_name, registry) {
            Ok(gtext) => {
                let ghost out0 = out@;
                out.append(gtext.as_str());
                assert(out@ =~= out0 + gtext@);
            },
            Err(e) => {
                proof {
                    names_fold_err_persists(nv, ms, ctx_ty_name@, *registry, i + 1);
                }
                return Err(e);
            },
        }
        i = i + 1;
    }
    proof {
        assert(nv.take(i as int) =~= nv);
    }
    Ok(out)
}

/// The bindings of one interface: a hidden interface is skipped, a rendering
/// context becomes functions and constants, a runtime class becomes a handle
/// alias with its size assertion, and anything else is noted in a comment.
pub open spec fn interface_text(n: Seq<char>, iface: Interface, reg: Registry) -> Result<
    Seq<char>,
    ErrView,
> {
    if iface.is_hidden {
        Ok(Seq::empty())
    } else if starts_with(n, "WebGL"@) && ends_with(n, "RenderingContext"@) {
        rendering_context_text(n, iface, reg)
    } else if n == "GLContext"@ {
        Ok(Seq::empty())
    } else if iface.has_class {
        Ok(class_text(n))
    } else {
        Ok("// "@ + n + "\n"@)
    }
}

/// Emit the bindings of one interface.
pub fn write_interface(name: &str, interface: &Interface, registry: &Registry) -> (r: Result<
    String,
    GenError,
>)
    ensures
        res_view(r) == interface_text(name@, *interface, *registry),
{
    if interface.is_hidden {
        return Ok(String::new());
    }
    if str_starts_with(name, "WebGL") && str_ends_with(name, "RenderingContext") {
        return write_rendering_context(name, interface, registry);
    }
    if str_eq(name, "GLContext") {
        // a version-independent helper interface with no handle-style image
        return Ok(String::new());
    }
    if interface.has_class {
        let mut out = String::new();
        write_class(name, &mut out);
        assert(out@ =~= Seq::<char>::empty() + class_text(name@));
        return Ok(out);
    }
    let mut out = "// ".to_owned();
    out.append(name);
    out.append("\n");
    assert(out@ =~= "// "@ + name@ + "\n"@);
    Ok(out)
}

/// The bindings of one catalog entry: empty unless the entry is an
/// interface.
pub open spec fn interface_entry_text(e: (String, NamedType), reg: Registry) -> Result<
    Seq<char>,
    ErrView,
> {
    match e.1 {
        NamedType::Interface(i) => interface_text(e.0@, i, reg),
        _ => Ok(Seq::empty()),
    }
}

/// The interface bindings of `s`, in catalog order.
pub open spec fn ifaces_fold(s: Seq<(String, NamedType)>, reg: Registry) -> Result<
    Seq<char>,
    ErrView,
>
    decreases s.len(),
{
    if s.len() == 0 {
        Ok(Seq::empty())
    } else {
        match ifaces_fold(s.drop_last(), reg) {
            Err(e) => Err(e),
            Ok(p) => match interface_entry_text(s.last(), reg) {
                Err(e) => Err(e),
                Ok(t) => Ok(p + t),
            },
        }
    }
}

proof fn ifaces_fold_err_persists(s: Seq<(String, NamedType)>, reg: Registry, i: int)
    requires
        0 <= i <= s.len(),
        ifaces_fold(s.take(i), reg) is Err,
    ensures
        ifaces_fold(s, reg) == ifaces_fold(s.take(i), reg),
    decreases s.len() - i,
{
    if i == s.len() {
        assert(s.take(i) =~= s);
    } else {
        assert(s.take(i + 1).drop_last() =~= s.take(i));
        ifaces_fold_err_persists(s, reg, i + 1);
    }
}

/// The whole interface section: the size-assertion import, then the
/// bindings of every interface of the catalog.
pub open spec fn write_interfaces_spec(reg: Registry) -> Result<Seq<char>, ErrView> {
    match ifaces_fold(reg.entries@, reg) {
        Ok(b) => Ok("use static_assertions::assert_eq_size;\n"@ + b),
        Err(e) => Err(e),
    }
}

/// Emit the interface section for every interface of the catalog.
pub fn write(registry: &Registry) -> (r: Result<String, GenError>)
    ensures
        res_view(r) == write_interfaces_spec(*registry),
{
    let ghost s0 = registry.entries@;
    let mut body = String::new();
    proof {
        assert(s0.take(0) =~= Seq::<(String, NamedType)>::empty());
    }
    let mut i: usize = 0;
    while i < registry.entries.len()
        invariant
            s0 == registry.entries@,
            i <= s0.len(),
            ifaces_fold(s0.take(i as int), *registry) == Ok::<Seq<char>, ErrView>(body@),
        decreases s0.len() - i,
    {
        proof {
            assert(s0.take(i + 1).drop_last() =~= s0.take(i as int));
            assert(s0.take(i + 1).last() == s0[i as int]);
        }
        let ghost body0 = body@;
        match &registry.entries[i].1 {
            NamedType::Interface(iface) => {
                let name = &registry.entries[i].0;
                match write_interface(name.as_str(), iface, registry) {
                    Ok(t) => {
                        body.append(t.as_str());
                        assert(body@ =~= body0 + t@);
                    },
                    Err(e) => {
                        proof {
                            ifaces_fold_err_persists(s0, *registry, i + 1);
                        }
                        return Err(e);
                    },
                }
            },
            _ => {
                assert(body@ =~= body0 + Seq::<char>::empty());
            },
        }
        i = i + 1;
    }
    proof {
        assert(s0.take(i as int) =~= s0);
    }
    let mut out = "use static_assertions::assert_eq_size;\n".to_owned();
    out.append(body.as_str());
    assert(out@ =~= "use static_assertions::assert_eq_size;\n"@ + body@);
    Ok(out)
}

} // verus!
