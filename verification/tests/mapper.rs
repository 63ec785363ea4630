use reaper_imgui::types::{map_type, MapError, TypeRef};

fn ok(token: &str) -> (TypeRef, Option<String>) {
    map_type(token).expect("mapping should succeed")
}

#[test]
fn builtin_round_trip_int() {
    let (ty, name) = ok("int value");
    assert_eq!(ty, TypeRef::Int);
    assert_eq!(name.as_deref(), Some(" value"));
}

#[test]
fn builtin_round_trip_every_entry() {
    let cases: Vec<(&str, TypeRef)> = vec![
        ("void", TypeRef::Void),
        ("int", TypeRef::Int),
        ("int*", TypeRef::IntPtr),
        ("const char*", TypeRef::ConstCharPtr),
        ("char*", TypeRef::CharPtr),
        ("bool", TypeRef::Bool),
        ("bool*", TypeRef::BoolPtr),
        ("double", TypeRef::Double),
        ("double*", TypeRef::DoublePtr),
    ];
    for (key, expected) in cases {
        let token = format!("{}retval", key);
        let (ty, name) = ok(&token);
        assert_eq!(ty, expected, "table entry {}", key);
        assert_eq!(name.as_deref(), Some("retval"), "suffix for {}", key);
    }
}

#[test]
fn int_is_kept_apart_from_int_pointer() {
    let (ty, name) = ok("int* v");
    assert_eq!(ty, TypeRef::IntPtr);
    assert_eq!(name.as_deref(), Some(" v"));
    let (ty, name) = ok("int v");
    assert_eq!(ty, TypeRef::Int);
    assert_eq!(name.as_deref(), Some(" v"));
}

#[test]
fn const_char_pointer_is_not_char_pointer() {
    let (ty, name) = ok("const char*text");
    assert_eq!(ty, TypeRef::ConstCharPtr);
    assert_eq!(name.as_deref(), Some("text"));
    let (ty, _) = ok("char*buf");
    assert_eq!(ty, TypeRef::CharPtr);
}

#[test]
fn return_type_token_may_lack_a_name() {
    let (ty, name) = ok("void");
    assert_eq!(ty, TypeRef::Void);
    assert_eq!(name.as_deref(), Some(""));
    let (ty, name) = ok("Context");
    assert_eq!(ty, TypeRef::Opaque("Context".to_string()));
    assert_eq!(name, None);
}

#[test]
fn opaque_star_depth_is_ignored() {
    for token in ["Context ctx", "Context* ctx", "Context** ctx", "Context*** ctx"] {
        let (ty, name) = ok(token);
        assert_eq!(ty, TypeRef::Opaque("Context".to_string()), "token {}", token);
        assert_eq!(name.as_deref(), Some("ctx"), "token {}", token);
    }
}

#[test]
fn opaque_without_space_keeps_whole_token_as_type() {
    let (ty, name) = ok("Viewport*");
    assert_eq!(ty, TypeRef::Opaque("Viewport".to_string()));
    assert_eq!(name, None);
}

#[test]
fn reserved_name_type_is_rewritten() {
    let (_, name) = ok("Context* type");
    assert_eq!(name.as_deref(), Some("type_"));
    let (_, name) = ok("int*type");
    assert_eq!(name.as_deref(), Some("type_"));
}

#[test]
fn name_merely_containing_type_is_untouched() {
    let (_, name) = ok("Context* type_id");
    assert_eq!(name.as_deref(), Some("type_id"));
}

#[test]
fn empty_type_token_is_fatal() {
    let err = map_type(" x").expect_err("leading space leaves no type");
    assert!(matches!(err, MapError::EmptyType { .. }));
    match err {
        MapError::EmptyType { token } => assert_eq!(token, " x"),
        _ => unreachable!(),
    }
}

#[test]
fn generic_array_type_is_rejected_recoverably() {
    let err = map_type("reaper_array* buf").expect_err("array type is rejected");
    assert!(matches!(err, MapError::GenericArray { .. }));
    let err = map_type("reaper_array buf").expect_err("array type is rejected");
    assert!(matches!(err, MapError::GenericArray { .. }));
}
