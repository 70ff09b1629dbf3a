use ultrustar::compat;
use ultrustar::error::GenError;
use ultrustar::interfaces::{self, ClassInfo, IndexType};
use ultrustar::registry::{
    Argument, ConstMember, Dictionary, Interface, Member, NamedType, Operation, Primitive,
    Registry, Type, TypeKind,
};
use ultrustar::runtime;
use ultrustar::types;
use ultrustar::WebSysGen;

fn g_ty(kind: TypeKind) -> Type {
    Type { kind, optional: false }
}

fn g_opt(kind: TypeKind) -> Type {
    Type { kind, optional: true }
}

fn g_named(n: &str) -> Type {
    g_ty(TypeKind::Named(n.to_string()))
}

fn g_arg(name: &str, t: Type) -> Argument {
    Argument { name: name.to_string(), type_: t }
}

fn g_op(name: &str, args: Vec<Argument>, ret: Option<Type>) -> Operation {
    Operation { name: name.to_string(), args, return_type: ret }
}

fn g_class_iface() -> NamedType {
    NamedType::Interface(Interface { members: vec![], has_class: true, is_hidden: false })
}

fn g_base_registry() -> Registry {
    let mut r = Registry::new();
    r.insert(
        "GLenum".to_string(),
        NamedType::Typedef(g_ty(TypeKind::Primitive(Primitive::U32))),
    );
    r.insert(
        "GLuint".to_string(),
        NamedType::Typedef(g_ty(TypeKind::Primitive(Primitive::U32))),
    );
    r.insert(
        "GLsizeiptr".to_string(),
        NamedType::Typedef(g_ty(TypeKind::Primitive(Primitive::I32))),
    );
    r.insert(
        "GLintptr".to_string(),
        NamedType::Typedef(g_ty(TypeKind::Primitive(Primitive::I32))),
    );
    r.insert("WebGLBuffer".to_string(), g_class_iface());
    r.insert("WebGLUniformLocation".to_string(), g_class_iface());
    r.insert(
        "BufferDataSource".to_string(),
        NamedType::Typedef(g_ty(TypeKind::Union(vec![g_ty(TypeKind::TypedArray(Primitive::U8))]))),
    );
    r
}

#[test]
fn type_mapper_deterministic() {
    let r = g_base_registry();
    let ty = g_named("GLenum");
    let a = types::stringify_return(&ty, &r).unwrap();
    let b = types::stringify_return(&ty, &r).unwrap();
    assert_eq!(a, b);
    let c = types::stringify_arg(&ty, &r).unwrap();
    let d = types::stringify_arg(&ty, &r).unwrap();
    assert_eq!(c, d);
}

#[test]
fn stringify_basics() {
    let mut r = g_base_registry();
    r.insert("BlendMode".to_string(), NamedType::Enum);
    assert_eq!(types::stringify_return(&g_named("GLenum"), &r).unwrap(), "GLenum");
    assert_eq!(
        types::stringify_return(&g_ty(TypeKind::Primitive(Primitive::U32)), &r).unwrap(),
        "u32"
    );
    assert_eq!(types::stringify_return(&g_ty(TypeKind::DomString), &r).unwrap(), "*const i8");
    // an optional enum keeps the explicit "may be absent" wrapper
    assert_eq!(
        types::stringify_return(&g_opt(TypeKind::Named("BlendMode".to_string())), &r).unwrap(),
        "Option<BlendMode>"
    );
    // a sequence maps to an owned collection, passed by reference
    let seq_ty = g_ty(TypeKind::Sequence(Box::new(g_ty(TypeKind::DomString))));
    assert_eq!(types::stringify_return(&seq_ty, &r).unwrap(), "Vec<*const i8>");
    assert_eq!(types::stringify_arg(&seq_ty, &r).unwrap(), "&Vec<*const i8>");
    // an optional byte buffer
    assert_eq!(
        types::stringify_arg(&g_opt(TypeKind::ArrayBufferView), &r).unwrap(),
        "Option<&mut [u8]>"
    );
    // a union collapses to its typed-array member
    let union_ty = g_ty(TypeKind::Union(vec![
        g_ty(TypeKind::DomString),
        g_ty(TypeKind::TypedArray(Primitive::F32)),
    ]));
    assert_eq!(types::stringify_arg(&union_ty, &r).unwrap(), "&[f32]");
}

#[test]
fn optional_interface_collapses_to_handle() {
    let r = g_base_registry();
    // optionality of an interface never becomes a wrapper: the handle keeps
    // its fixed width and "absent" is a sentinel value
    let t = types::stringify_return(&g_opt(TypeKind::Named("WebGLBuffer".to_string())), &r)
        .unwrap();
    assert_eq!(t, "WebGLBuffer");
    assert!(!t.contains("Option"));
}

#[test]
fn mapper_errors() {
    let mut r = g_base_registry();
    r.insert("Mix".to_string(), NamedType::Mixin);
    r.insert("Cb".to_string(), NamedType::Callback);
    r.insert("A".to_string(), NamedType::Typedef(g_named("B")));
    r.insert("B".to_string(), NamedType::Typedef(g_named("A")));
    assert!(matches!(
        types::stringify_return(&g_named("Mix"), &r),
        Err(GenError::UnsupportedMixin { .. })
    ));
    assert!(matches!(
        types::stringify_return(&g_named("Cb"), &r),
        Err(GenError::UnsupportedCallback { .. })
    ));
    assert!(matches!(
        types::stringify_return(&g_ty(TypeKind::Union(vec![g_ty(TypeKind::DomString)])), &r),
        Err(GenError::UnionWithoutTypedArray)
    ));
    assert!(matches!(
        types::stringify_return(&g_named("Nope"), &r),
        Err(GenError::Unresolved { .. })
    ));
    assert!(matches!(
        types::stringify_return(&g_named("A"), &r),
        Err(GenError::TypedefCycle { .. })
    ));
}

#[test]
fn name_mapper_buffer_data() {
    let r = g_base_registry();
    let op = g_op(
        "bufferData",
        vec![
            g_arg("target", g_named("GLenum")),
            g_arg("size", g_named("GLsizeiptr")),
            g_arg("data", g_ty(TypeKind::ArrayBufferView)),
            g_arg("usage", g_named("GLenum")),
        ],
        None,
    );
    // a raw-size-pointer argument and a byte buffer argument embed both
    // markers, in this fixed order, on every invocation
    let first = interfaces::get_websys_function_name("BufferData", &op, &r).unwrap();
    let second = interfaces::get_websys_function_name("BufferData", &op, &r).unwrap();
    assert_eq!(first, "buffer_data_with_i32_and_u8_array");
    assert_eq!(first, second);
}

#[test]
fn name_mapper_dimension_token() {
    let r = g_base_registry();
    let op = g_op("texImage2D", vec![], None);
    assert_eq!(
        interfaces::get_websys_function_name("TexImage2D", &op, &r).unwrap(),
        "tex_image_2d"
    );
}

#[test]
fn name_mapper_optional_buffer() {
    let r = g_base_registry();
    let op = g_op("readStuff", vec![g_arg("data", g_opt(TypeKind::ArrayBufferView))], None);
    assert_eq!(
        interfaces::get_websys_function_name("ReadStuff", &op, &r).unwrap(),
        "read_stuff_with_opt_u8_array"
    );
}

#[test]
fn name_mapper_typedef_buffer() {
    let r = g_base_registry();
    let op = g_op("blah", vec![g_arg("data", g_named("BufferDataSource"))], None);
    assert_eq!(
        interfaces::get_websys_function_name("Blah", &op, &r).unwrap(),
        "blah_with_u8_array"
    );
}

#[test]
fn member_op_simple() {
    let r = g_base_registry();
    let op = g_op("clear", vec![g_arg("mask", g_named("GLenum"))], None);
    let text = interfaces::write_member_op("Clear", &op, &r).unwrap();
    assert_eq!(
        text,
        "#[allow(non_snake_case)]\npub unsafe fn Clear(mask: GLenum) {\n    withctx!(CONTEXT, ctx, {ctx.clear(mask)})\n}\n"
    );
}

#[test]
fn member_op_patched_is_suppressed() {
    let r = g_base_registry();
    let op = g_op("bufferData", vec![g_arg("target", g_named("GLenum"))], None);
    let text = interfaces::write_member_op("BufferData", &op, &r).unwrap();
    assert_eq!(text, "");
}

#[test]
fn member_op_fallible_routes_to_error_cell() {
    let r = g_base_registry();
    let op = g_op("readPixels", vec![g_arg("mask", g_named("GLenum"))], None);
    let text = interfaces::write_member_op("ReadPixels", &op, &r).unwrap();
    assert!(text.contains("    .handle_js_error()\n"));
}

#[test]
fn member_op_optional_interface_sentinel() {
    let r = g_base_registry();
    let op = g_op("createBuffer", vec![], Some(g_opt(TypeKind::Named("WebGLBuffer".to_string()))));
    let text = interfaces::write_member_op("CreateBuffer", &op, &r).unwrap();
    assert!(text.contains(" -> WebGLBuffer"));
    assert!(
        text.contains("    .map_or(GLuint::MAX, |val| std::mem::transmute::<_, WebGLBuffer>(val))\n")
    );
    assert!(!text.contains("Option<"));
    // the one class indexed as a signed handle uses its own sentinel
    let op2 = g_op(
        "getUniformLocation",
        vec![],
        Some(g_opt(TypeKind::Named("WebGLUniformLocation".to_string()))),
    );
    let text2 = interfaces::write_member_op("GetUniformLocation", &op2, &r).unwrap();
    assert!(text2.contains(".map_or(-1, |val| std::mem::transmute::<_, WebGLUniformLocation>(val))"));
}

#[test]
fn param_casts() {
    let r = g_base_registry();
    let args = vec![
        g_arg("name", g_ty(TypeKind::DomString)),
        g_arg("offset", g_named("GLintptr")),
        g_arg("buffer", g_named("WebGLBuffer")),
        g_arg("mask", g_named("GLenum")),
    ];
    let text = interfaces::write_param_casts(&args, &r).unwrap();
    let expected = "    let name = std::ffi::CStr::from_ptr(name).to_str().unwrap();\n    let offset = offset as i32;\n    let buffer_ = std::mem::MaybeUninit::new(std::mem::transmute::<_, web_sys::WebGlBuffer>(buffer));\n    let buffer = buffer_.assume_init_ref();\n";
    assert_eq!(text, expected);
    // an optional handle is wrapped after the reinterpretation
    let opt_args = vec![g_arg("buffer", g_opt(TypeKind::Named("WebGLBuffer".to_string())))];
    let opt_text = interfaces::write_param_casts(&opt_args, &r).unwrap();
    assert!(opt_text.ends_with("    let buffer = Some(buffer);\n"));
    // a keyword argument name is escaped throughout
    let kw_args = vec![g_arg("type", g_ty(TypeKind::DomString))];
    let kw_text = interfaces::write_param_casts(&kw_args, &r).unwrap();
    assert_eq!(kw_text, "    let type_ = std::ffi::CStr::from_ptr(type_).to_str().unwrap();\n");
}

#[test]
fn class_alias_carries_size_assertion() {
    let r = g_base_registry();
    let iface = Interface { members: vec![], has_class: true, is_hidden: false };
    let text = interfaces::write_interface("WebGLBuffer", &iface, &r).unwrap();
    assert_eq!(
        text,
        "assert_eq_size!(GLuint, web_sys::WebGlBuffer);\npub type WebGLBuffer = types::GLuint;\n"
    );
    let text2 = interfaces::write_interface("WebGLUniformLocation", &iface, &r).unwrap();
    assert_eq!(
        text2,
        "assert_eq_size!(GLint, web_sys::WebGlUniformLocation);\npub type WebGLUniformLocation = types::GLint;\n"
    );
}

#[test]
fn interface_other_kinds() {
    let r = g_base_registry();
    let plain = Interface { members: vec![], has_class: false, is_hidden: false };
    assert_eq!(interfaces::write_interface("Foo", &plain, &r).unwrap(), "// Foo\n");
    let hidden = Interface { members: vec![], has_class: true, is_hidden: true };
    assert_eq!(interfaces::write_interface("Hidden", &hidden, &r).unwrap(), "");
    let ctxish = Interface { members: vec![], has_class: true, is_hidden: false };
    assert_eq!(interfaces::write_interface("GLContext", &ctxish, &r).unwrap(), "");
}

#[test]
fn index_types() {
    assert_eq!(IndexType::gl_int().ty, "GLint");
    assert_eq!(IndexType::gl_int().none_val, "-1");
    assert_eq!(IndexType::gl_uint().ty, "GLuint");
    assert_eq!(IndexType::gl_uint().none_val, "GLuint::MAX");
    let info = ClassInfo::get("WebGLUniformLocation");
    assert_eq!(info.indexed_as.unwrap().ty, "GLint");
    let info2 = ClassInfo::get("WebGLBuffer");
    assert_eq!(info2.indexed_as.unwrap().ty, "GLuint");
}

#[test]
fn overload_rule_keeps_one() {
    let kept = g_op(
        "bufferData",
        vec![g_arg("target", g_named("GLenum")), g_arg("size", g_named("GLsizeiptr"))],
        None,
    );
    let dropped = g_op(
        "bufferData",
        vec![g_arg("target", g_named("GLenum")), g_arg("data", g_ty(TypeKind::ArrayBufferView))],
        None,
    );
    assert_eq!(interfaces::unoverload("bufferData", &kept), Some("bufferData"));
    assert_eq!(interfaces::unoverload("bufferData", &dropped), None);
    assert_eq!(interfaces::unoverload("clear", &kept), None);

    let members = vec![Member::Operation(dropped), Member::Operation(kept)];
    assert_eq!(interfaces::resolve_op("bufferData", &members).unwrap(), Some(1));
}

#[test]
fn overloads_without_rule_are_fatal() {
    let a = g_op("clear", vec![], None);
    let b = g_op("clear", vec![g_arg("mask", g_named("GLenum"))], None);
    let members = vec![Member::Operation(a), Member::Operation(b)];
    assert!(matches!(
        interfaces::resolve_op("clear", &members),
        Err(GenError::AmbiguousOverload { .. })
    ));
}

#[test]
fn overloads_with_several_survivors_are_fatal() {
    let a = g_op("bufferData", vec![g_arg("t", g_named("GLenum")), g_arg("s", g_named("GLenum"))], None);
    let b = g_op("bufferData", vec![g_arg("t", g_named("GLenum")), g_arg("u", g_named("GLenum"))], None);
    let members = vec![Member::Operation(a), Member::Operation(b)];
    assert!(matches!(
        interfaces::resolve_op("bufferData", &members),
        Err(GenError::AmbiguousOverload { .. })
    ));
}

#[test]
fn write_defs_section() {
    let r = g_base_registry();
    let text = types::write_defs(&r).unwrap();
    let expected = "pub mod types {\n    use wasm_bindgen::JsValue;\n    pub type BufferDataSource = [u8];\n    pub type GLenum = u32;\n    pub type GLintptr = *const std::ffi::c_void;\n    pub type GLsizeiptr = i32;\n    pub type GLuint = u32;\npub type GLchar = i8;\npub type GLdouble = f64;\npub type GLint64 = i64;\n}\nuse types::*;\n";
    assert_eq!(text, expected);
}

fn g_full_registry() -> Registry {
    let mut r = g_base_registry();
    r.insert(
        "WebGLContextAttributes".to_string(),
        NamedType::Dictionary(Dictionary { is_hidden: false }),
    );
    let members = vec![
        Member::Operation(g_op("clear", vec![g_arg("mask", g_named("GLenum"))], None)),
        Member::Const(ConstMember {
            name: "COLOR_BUFFER_BIT".to_string(),
            type_: g_named("GLenum"),
        }),
        Member::Operation(g_op(
            "bufferData",
            vec![g_arg("target", g_named("GLenum")), g_arg("size", g_named("GLsizeiptr"))],
            None,
        )),
        Member::Operation(g_op(
            "bufferData",
            vec![g_arg("target", g_named("GLenum")), g_arg("data", g_ty(TypeKind::ArrayBufferView))],
            None,
        )),
        Member::Operation(g_op(
            "createBuffer",
            vec![],
            Some(g_opt(TypeKind::Named("WebGLBuffer".to_string()))),
        )),
    ];
    r.insert(
        "WebGLRenderingContext".to_string(),
        NamedType::Interface(Interface { members, has_class: false, is_hidden: false }),
    );
    r
}

#[test]
fn full_output_structure() {
    let r = g_full_registry();
    let mut out = String::new();
    WebSysGen.write(&r, &mut out).unwrap();
    assert!(out.starts_with("// DO NOT CHANGE - THIS FILE IS GENERATED AUTOMATICALLY\n"));
    // the sections stand in their fixed order
    let defs_at = out.find("pub mod types {").unwrap();
    let dict_at = out
        .find("pub use web_sys::WebGlContextAttributes as WebGLContextAttributes;\n")
        .unwrap();
    let ifaces_at = out.find("use static_assertions::assert_eq_size;\n").unwrap();
    let compat_at = out.find("pub const STACK_OVERFLOW").unwrap();
    assert!(defs_at < dict_at);
    assert!(dict_at < ifaces_at);
    assert!(ifaces_at < compat_at);
    // every type alias precedes its first use
    let alias_at = out.find("    pub type GLenum = u32;\n").unwrap();
    let use_at = out.find("mask: GLenum").unwrap();
    assert!(alias_at < use_at);
    // the replacement texts form the tail of the output
    let tail = format!("{}\n", runtime::GET_VERTEX_ATTRIB);
    assert!(out.ends_with(&tail));
}

#[test]
fn full_output_one_function_per_name() {
    let r = g_full_registry();
    let mut out = String::new();
    WebSysGen.write(&r, &mut out).unwrap();
    // the overload pair collapses to one binding; it is patched, so the one
    // function for the name is the replacement text
    assert_eq!(out.matches("fn BufferData(").count(), 1);
    // no two emitted functions share an exposed name
    let mut names: Vec<&str> = Vec::new();
    for piece in out.split("pub unsafe fn ").skip(1) {
        let name = piece.split('(').next().unwrap();
        assert!(!names.contains(&name), "duplicate binding name: {}", name);
        names.push(name);
    }
    // the generic pass emitted the resolved operations
    assert!(names.contains(&"Clear"));
    assert!(names.contains(&"CreateBuffer"));
}

#[test]
fn failed_run_writes_nothing() {
    let mut r = g_base_registry();
    let members = vec![
        Member::Operation(g_op("clear", vec![], None)),
        Member::Operation(g_op("clear", vec![g_arg("mask", g_named("GLenum"))], None)),
    ];
    r.insert(
        "WebGLRenderingContext".to_string(),
        NamedType::Interface(Interface { members, has_class: false, is_hidden: false }),
    );
    let mut out = "before".to_string();
    let err = WebSysGen.write(&r, &mut out).unwrap_err();
    assert!(matches!(err, GenError::AmbiguousOverload { .. }));
    assert_eq!(err.message(), "Ambiguous overloads for: clear");
    assert_eq!(out, "before");
}

#[test]
fn rendering_context_groups_in_name_order() {
    let r = g_full_registry();
    let iface = match r.resolve_type("WebGLRenderingContext").unwrap() {
        NamedType::Interface(i) => i,
        _ => unreachable!(),
    };
    let text = interfaces::write_rendering_context("WebGLRenderingContext", iface, &r).unwrap();
    // groups are visited in increasing name order: the constant first
    let const_at = text
        .find("pub const COLOR_BUFFER_BIT: GLenum = web_sys::WebGlRenderingContext::COLOR_BUFFER_BIT;\n")
        .unwrap();
    let clear_at = text.find("pub unsafe fn Clear(").unwrap();
    assert!(const_at < clear_at);
    // the patched name is suppressed here
    assert!(!text.contains("fn BufferData("));
}

#[test]
fn compat_section_layout() {
    let r = g_base_registry();
    let text = compat::write(&r);
    assert!(text.starts_with(runtime::CONSTANTS));
    let poly_at = text.find("pub unsafe fn GetShaderiv").unwrap();
    let first_patch_at = text.find("pub unsafe fn BufferData(").unwrap();
    assert!(poly_at < first_patch_at);
    assert_eq!(
        compat::write_typdefs(&r),
        "pub type GLchar = i8;\npub type GLdouble = f64;\npub type GLint64 = i64;\n"
    );
}

#[test]
fn output_byte_identical_across_runs() {
    let r1 = g_full_registry();
    let r2 = g_full_registry();
    let mut out1 = String::new();
    let mut out2 = String::new();
    WebSysGen.write(&r1, &mut out1).unwrap();
    WebSysGen.write(&r2, &mut out2).unwrap();
    assert_eq!(out1, out2);
}

#[test]
fn sequence_optionality_is_the_sequence_own_flag() {
    let r = g_base_registry();
    // an optional sequence of plain elements keeps the "may be absent"
    // wrapper of the sequence itself
    let opt_seq = g_opt(TypeKind::Sequence(Box::new(g_ty(TypeKind::DomString))));
    assert_eq!(types::stringify_return(&opt_seq, &r).unwrap(), "Option<Vec<*const i8>>");
    assert_eq!(types::stringify_arg(&opt_seq, &r).unwrap(), "Option<&Vec<*const i8>>");
    // an element's own flag is not rendered and does not leak outward
    let seq_of_opt = g_ty(TypeKind::Sequence(Box::new(g_opt(TypeKind::DomString))));
    assert_eq!(types::stringify_return(&seq_of_opt, &r).unwrap(), "Vec<*const i8>");
    assert_eq!(types::stringify_arg(&seq_of_opt, &r).unwrap(), "&Vec<*const i8>");
}
