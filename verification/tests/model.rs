use ultrustar::compat::FunctionAlternative;
use ultrustar::error::GenError;
use ultrustar::game::{GameState, MainUISettings, Player, Signals, User};
use ultrustar::registry::{
    ConstMember, Interface, Member, NamedType, Operation, Primitive, Registry, Type, TypeKind,
};
use ultrustar::runtime;
use ultrustar::text;

fn m_member_op(name: &str) -> Member {
    Member::Operation(Operation { name: name.to_string(), args: vec![], return_type: None })
}

fn m_member_const(name: &str) -> Member {
    Member::Const(ConstMember {
        name: name.to_string(),
        type_: Type { kind: TypeKind::Primitive(Primitive::U32), optional: false },
    })
}

#[test]
fn registry_insert_keeps_name_order() {
    let mut r = Registry::new();
    r.insert("b".to_string(), NamedType::Enum);
    r.insert("a".to_string(), NamedType::Enum);
    r.insert("c".to_string(), NamedType::Enum);
    assert_eq!(r.len(), 3);
    assert_eq!(r.entries[0].0, "a");
    assert_eq!(r.entries[1].0, "b");
    assert_eq!(r.entries[2].0, "c");
}

#[test]
fn registry_insert_replaces_same_name() {
    let mut r = Registry::new();
    r.insert("a".to_string(), NamedType::Enum);
    r.insert("a".to_string(), NamedType::Mixin);
    assert_eq!(r.len(), 1);
    assert!(matches!(r.resolve_type("a"), Some(NamedType::Mixin)));
}

#[test]
fn registry_resolve() {
    let mut r = Registry::new();
    r.insert("a".to_string(), NamedType::Enum);
    assert!(matches!(r.resolve_type("a"), Some(NamedType::Enum)));
    assert!(r.resolve_type("b").is_none());
}

#[test]
fn member_names_sorted_and_distinct() {
    let iface = Interface {
        members: vec![
            m_member_op("clear"),
            m_member_op("bufferData"),
            m_member_op("clear"),
            m_member_const("ALPHA"),
        ],
        has_class: false,
        is_hidden: false,
    };
    let names = iface.member_names();
    assert_eq!(names, vec!["ALPHA".to_string(), "bufferData".to_string(), "clear".to_string()]);
}

#[test]
fn patch_lookup_round_trip() {
    let first = FunctionAlternative::get("ShaderSource").unwrap();
    let second = FunctionAlternative::get("ShaderSource").unwrap();
    assert_eq!(first.name, second.name);
    assert_eq!(first.code, second.code);
    assert_eq!(first.code, runtime::SHADER_SOURCE);
    assert!(FunctionAlternative::get("Nope").is_none());
    assert!(FunctionAlternative::get("shaderSource").is_none());
}

#[test]
fn patch_table_keys_distinct() {
    let all = FunctionAlternative::get_all();
    assert_eq!(all.len(), 12);
    assert_eq!(all[0].name, "BufferData");
    for i in 0..all.len() {
        for j in (i + 1)..all.len() {
            assert_ne!(all[i].name, all[j].name);
        }
    }
}

#[test]
fn text_replace() {
    assert_eq!(text::str_replace("tex_image2_d", "2_d", "_2d"), "tex_image_2d");
    assert_eq!(text::str_replace("2_d2_d", "2_d", "_2d"), "_2d_2d");
    assert_eq!(text::str_replace("abc", "2_d", "_2d"), "abc");
    assert_eq!(text::str_replace("WebGLUniformLocation", "WebGL", "WebGl"), "WebGlUniformLocation");
    assert_eq!(text::str_replace("", "x", "y"), "");
}

#[test]
fn text_predicates() {
    assert!(text::str_eq("abc", "abc"));
    assert!(!text::str_eq("abc", "abd"));
    assert!(text::str_ends_with("GLintptr", "ptr"));
    assert!(!text::str_ends_with("GLint", "ptr"));
    assert!(text::str_starts_with("WebGLRenderingContext", "WebGL"));
    assert!(!text::str_starts_with("Web", "WebGL"));
    assert!(text::str_lt("abc", "abd"));
    assert!(text::str_lt("ab", "abc"));
    assert!(!text::str_lt("abc", "abc"));
    assert!(!text::str_lt("b", "abc"));
    assert!(text::str_lt("COLOR", "bufferData"));
}

#[test]
fn error_messages() {
    assert_eq!(
        GenError::Unresolved { name: "X".to_string() }.message(),
        "Cannot resolve type: X"
    );
    assert_eq!(
        GenError::UnsupportedMixin { name: "M".to_string() }.message(),
        "Unsupported type: Mixin: M"
    );
    assert_eq!(
        GenError::UnsupportedCallback { name: "C".to_string() }.message(),
        "Unsupported type: Callback: C"
    );
    assert_eq!(
        GenError::UnionWithoutTypedArray.message(),
        "Unsupported type: Union without TypedArray"
    );
    assert_eq!(
        GenError::TypedefCycle { name: "T".to_string() }.message(),
        "Cyclic typedef: T"
    );
}

#[test]
fn game_defaults() {
    let user = User::default();
    assert_eq!(user.id, "default");
    let ui = MainUISettings::default();
    assert!(ui.dark_mode.is_none());
    let _exit = Signals::Exit;
    let _player = Player {};
    let _state = GameState {};
}

#[test]
fn empty_catalog_generates_fixed_sections() {
    let r = Registry::new();
    let mut out = String::new();
    ultrustar::WebSysGen.write(&r, &mut out).unwrap();
    assert!(out.starts_with("// DO NOT CHANGE - THIS FILE IS GENERATED AUTOMATICALLY\n"));
    assert!(out.contains("pub mod types {\n"));
    assert!(out.contains("use static_assertions::assert_eq_size;\n"));
    assert!(out.contains("pub const STACK_OVERFLOW"));
    let tail = format!("{}\n", runtime::GET_VERTEX_ATTRIB);
    assert!(out.ends_with(&tail));
}

#[test]
fn const_only_group_resolves_to_no_operation() {
    let members = vec![m_member_const("ALPHA")];
    assert_eq!(ultrustar::interfaces::resolve_op("ALPHA", &members).unwrap(), None);
}
