//! Verbatim runtime text spliced into the generated module.
//!
//! `PRELUDE` carries the binding runtime: one thread-local "current context"
//! slot with a fail-fast borrowing accessor, and one thread-local "last
//! error" cell that fallible calls overwrite. `CONSTANTS` and `POLYFILLS`
//! carry scalar constants and hand-written functions that the source catalog
//! does not describe. The patch texts replace generated bindings one by one;
//! operations whose result shape the generic rules cannot express are spliced
//! as stubs that fail when called, so that the full symbol surface always
//! compiles.

use vstd::prelude::*;

verus! {

pub const PRELUDE: &'static str = "use proc_macro_with_gl_context::with_gl_context;\nuse std::cell::RefCell;\nuse wasm_bindgen::JsValue;\nuse web_sys::WebGlRenderingContext;\n\nthread_local!(static CONTEXT: RefCell<Option<WebGlRenderingContext>> = RefCell::new(None));\n\npub fn set_context(ctx: WebGlRenderingContext) {\n    CONTEXT.with(|tls_ctx| {\n        *tls_ctx.borrow_mut() = Some(ctx);\n    });\n}\n\nstruct Error {\n    #[allow(unused)]\n    details: JsValue,\n}\nthread_local!(static ERROR: RefCell<Option<Error>> = RefCell::new(None));\ntrait HandleJsError {\n    type Output;\n    fn handle_js_error(self);\n}\nimpl<T> HandleJsError for Result<T, JsValue> {\n    type Output = T;\n    fn handle_js_error(self) {\n        if let Err(details) = self {\n            ERROR.with(|err| *err.borrow_mut() = Some(Error { details }));\n        }\n    }\n}\n";

pub const CONSTANTS: &'static str = "pub const STACK_OVERFLOW: types::GLenum = 1337;\npub const STACK_UNDERFLOW: types::GLenum = 1338;\npub const FALSE: GLboolean = false;\npub const TRUE: GLboolean = true;\npub const INFO_LOG_LENGTH: types::GLenum = 0x1;\npub const SHADER_SOURCE_LENGTH: types::GLenum = 0x1;\n";

pub const POLYFILLS: &'static str = "#[allow(non_snake_case)]\npub unsafe fn GetShaderiv(shader: types::GLuint, param: types::GLenum, buf: *mut types::GLint) {\n    withctx!(CONTEXT, ctx, {\n        let shader: web_sys::WebGlShader = std::mem::transmute(shader);\n        match param {\n            DELETE_STATUS | COMPILE_STATUS => {\n                *(buf as *mut GLboolean) =\n                    ctx.get_shader_parameter(&shader, param).as_bool().unwrap();\n            }\n            SHADER_TYPE => todo!(),\n            _ => panic!(\"Unknown shader property {}\", param),\n        }\n        // Don't allow wasm_bindgen runtime to forget the shader object\n        std::mem::forget(shader);\n    });\n}\n\n#[allow(non_snake_case)]\npub unsafe fn GetProgramiv(program: types::GLuint, param: types::GLenum, buf: *mut types::GLint) {\n    withctx!(CONTEXT, ctx, {\n        let program: web_sys::WebGlProgram = std::mem::transmute(program);\n        match param {\n            DELETE_STATUS | LINK_STATUS | VALIDATE_STATUS => {\n                *(buf as *mut GLboolean) =\n                    ctx.get_program_parameter(&program, param).as_bool().unwrap();\n            }\n            ATTACHED_SHADERS | ACTIVE_ATTRIBUTES | ACTIVE_UNIFORMS => todo!(),\n            _ => panic!(\"Unknown shader property {}\", param),\n        }\n        // Don't allow wasm_bindgen runtime to forget the shader object\n        std::mem::forget(program);\n    });\n}\n\n#[allow(non_snake_case)]\npub unsafe fn GenBuffers(n: types::GLsizei, buffers: *mut types::GLuint) {\n    withctx!(CONTEXT, ctx, {\n        for i in 0..n {\n            *buffers.offset(i as isize) = std::mem::transmute(ctx.create_buffer().unwrap());\n        }\n    });\n}\n";

pub const BUFFER_DATA: &'static str = "#[allow(non_snake_case)]\n#[with_gl_context(CONTEXT as ctx)]\npub unsafe fn BufferData(\n    target: GLenum,\n    size: GLsizeiptr,\n    data: *const core::ffi::c_void,\n    usage: GLenum,\n) {\n    let data = std::slice::from_raw_parts(data as *const u8, size as usize);\n    ctx.buffer_data_with_u8_array(target, data, usage);\n}\n";

pub const BUFFER_SUB_DATA: &'static str = "#[allow(non_snake_case)]\n#[with_gl_context(CONTEXT as ctx)]\npub unsafe fn BufferSubData(\n    target: GLenum,\n    offset: GLintptr,\n    size: GLsizeiptr,\n    data: *const std::ffi::c_void,\n) {\n    let data = std::slice::from_raw_parts(data as *const u8, size as usize);\n    let offset = offset as i32;\n    ctx.buffer_sub_data_with_i32_and_u8_array(target, offset, data)\n}\n";

pub const SHADER_SOURCE: &'static str = "#[allow(non_snake_case)]\npub unsafe fn ShaderSource(\n    shader: GLuint,\n    count: types::GLsizei,\n    string: *const *const types::GLchar,\n    length: *const types::GLint,\n) {\n    if count == 1 {\n        let len: types::GLint = *length;\n        let src: &str = std::str::from_utf8_unchecked(std::slice::from_raw_parts(\n            *(string as *const *const u8),\n            len as usize,\n        ));\n        let shdr: web_sys::WebGlShader = std::mem::transmute::<_, _>(shader);\n        withctx!(CONTEXT, ctx, { ctx.shader_source(&shdr, src) });\n        // Don't allow the wasm_bindgen glue to forget the shader object\n        std::mem::forget(shdr);\n    } else {\n        let total_len = std::slice::from_raw_parts(length, count as usize)\n            .iter()\n            .copied()\n            .sum::<i32>() as usize;\n        let mut src = String::with_capacity(total_len);\n        for i in 0..count as isize {\n            let len = *(length.offset(i));\n            let part: &str = std::str::from_utf8_unchecked(std::slice::from_raw_parts(\n                *(string.offset(i) as *const *const u8),\n                len as usize,\n            ));\n            src += part;\n        }\n        let shdr: web_sys::WebGlShader = std::mem::transmute::<_, _>(shader);\n        withctx!(CONTEXT, ctx, { ctx.shader_source(&shdr, &src) });\n        // Don't allow the wasm_bindgen glue to forget the shader object\n        std::mem::forget(shdr);\n    }\n}\n";

pub const GET_PROGRAM_INFO_LOG: &'static str = "#[allow(non_snake_case)]\npub unsafe fn GetProgramInfoLog(\n    program: types::GLuint,\n    bufSize: types::GLsizei,\n    length: *mut types::GLsizei,\n    infoLog: *mut types::GLchar) {{\n        withctx!(CONTEXT, ctx, {\n            let program_ =\n                std::mem::MaybeUninit::new(std::mem::transmute::<_, web_sys::WebGlProgram>(program));\n            let program = program_.assume_init_ref();\n            if let Some(string) = ctx.get_program_info_log(program) {\n                let len: usize = (bufSize as usize).min(string.len());\n                let written = string[0..len].as_bytes();\n                let target = std::slice::from_raw_parts_mut(infoLog as *mut u8, len);\n                target.copy_from_slice(written);\n                *length = len as types::GLsizei;\n            }\n        });\n}}\n";

pub const GET_SHADER_INFO_LOG: &'static str = "#[allow(non_snake_case)]\npub unsafe fn GetShaderInfoLog(\n    shader: types::GLuint,\n    bufSize: types::GLsizei,\n    length: *mut types::GLsizei,\n    infoLog: *mut types::GLchar) {{\n        withctx!(CONTEXT, ctx, {\n            let shader_ =\n                std::mem::MaybeUninit::new(std::mem::transmute::<_, web_sys::WebGlShader>(shader));\n            let shader = shader_.assume_init_ref();\n            if let Some(string) = ctx.get_shader_info_log(shader) {\n                let len: usize = (bufSize as usize).min(string.len());\n                let written = string[0..len].as_bytes();\n                let target = std::slice::from_raw_parts_mut(infoLog as *mut u8, len);\n                target.copy_from_slice(written);\n                *length = len as types::GLsizei;\n            }\n        });\n}}\n";

pub const GET_ATTACHED_SHADERS: &'static str = "#[allow(unused, non_snake_case)]\npub unsafe fn GetAttachedShaders(\n    program: types::GLuint,\n    maxCount: types::GLsizei,\n    count: *mut types::GLsizei,\n    shaders: *mut types::GLuint,\n) {\n    todo!()\n}\n";

pub const GET_EXTENSION: &'static str = "#[allow(unused, non_snake_case)]\npub unsafe fn GetExtension(name: *const types::GLchar) -> *const std::ffi::c_void {\n    todo!()\n}\n";

pub const GET_FRAMEBUFFER_ATTACHMENT_PARAMETER: &'static str = "#[allow(unused, non_snake_case)]\npub unsafe fn GetFramebufferAttachmentParameter(\n    target: GLenum,\n    attachment: GLenum,\n    pname: GLenum,\n    params: *mut types::GLint,\n) {\n    todo!()\n}\n";

pub const GET_PARAMETER: &'static str = "#[allow(unused, non_snake_case)]\npub unsafe fn GetParameter(pname: GLenum, params: *mut types::GLint) {\n    todo!()\n}\n";

pub const GET_SHADER_SOURCE: &'static str = "#[allow(unused, non_snake_case)]\npub unsafe fn GetShaderSource(\n    shader: types::GLuint,\n    bufSize: types::GLsizei,\n    length: *mut types::GLsizei,\n    source: *mut types::GLchar,\n) {\n    todo!()\n}\n";

pub const GET_SUPPORTED_EXTENSIONS: &'static str = "#[allow(unused, non_snake_case)]\npub unsafe fn GetSupportedExtensions(extensions: *mut *const types::GLchar) {\n    todo!()\n}\n";

pub const GET_VERTEX_ATTRIB: &'static str = "#[allow(unused, non_snake_case)]\npub unsafe fn GetVertexAttrib(index: types::GLuint, pname: GLenum, params: *mut types::GLint) {\n    todo!()\n}\n";

} // verus!
