use reaper_imgui::emit::{emit_bindings, generate_bindings};
use reaper_imgui::scan::scan_header;

const HEADER: &str = "class ImGui_Context;\nREAIMGUIAPI_EXTERN ReaImGuiFunc<void(ImGui_Context*ctx, const char*text)> ImGui_Text\nREAIMGUIAPI_EXTERN ReaImGuiEnum ImGui_Key_A\n";

#[test]
fn regeneration_is_byte_identical() {
    let first = generate_bindings(HEADER).expect("generation should succeed");
    let second = generate_bindings(HEADER).expect("generation should succeed");
    assert_eq!(first, second);
}

#[test]
fn emission_is_a_function_of_the_model_alone() {
    let m1 = scan_header(HEADER).expect("scan should succeed");
    let m2 = scan_header(HEADER).expect("scan should succeed");
    assert_eq!(emit_bindings(&m1), emit_bindings(&m2));
}

#[test]
fn alias_is_emitted_per_opaque_type() {
    let out = generate_bindings(HEADER).unwrap();
    assert!(out.contains("pub type Context = *mut c_void;\n"));
}

#[test]
fn duplicate_aliases_are_emitted_as_declared() {
    let out = generate_bindings("class A;\nclass A;\n").unwrap();
    let needle = "pub type A = *mut c_void;\n";
    let first = out.find(needle).unwrap();
    let second = out[first + needle.len()..].find(needle);
    assert!(second.is_some(), "the second declaration is kept");
}

#[test]
fn table_slot_matches_the_exact_signature() {
    let out = generate_bindings(HEADER).unwrap();
    assert!(out.contains(
        "    pub Text: Option<unsafe extern \"C\" fn(Context, *const std::ffi::c_char) -> ()>,\n"
    ));
    assert!(out.contains("    pub loaded_count: u32,\n"));
}

#[test]
fn loader_resolves_the_fully_qualified_name() {
    let out = generate_bindings(HEADER).unwrap();
    assert!(out.contains("slot(resolve(\"ImGui_Text\"))"));
    assert!(out.contains("if Text.is_some() { loaded_count += 1; }"));
    assert!(out.contains("resolve(\"ImGui_Key_A\")"));
}

#[test]
fn constant_field_is_an_optional_integer() {
    let out = generate_bindings(HEADER).unwrap();
    assert!(out.contains("    pub Key_A: Option<i32>,\n"));
}

#[test]
fn method_forwards_and_fails_naming_the_function() {
    let out = generate_bindings(HEADER).unwrap();
    assert!(out.contains(
        "    pub unsafe fn Text(&self, ctx: Context, text: *const std::ffi::c_char) -> ()"
    ));
    assert!(out.contains("panic!(\"function not loaded: {}\", \"Text\")"));
    assert!(out.contains("Some(f) => f(ctx, text),"));
}

#[test]
fn reserved_parameter_name_is_emitted_rewritten() {
    let out = generate_bindings(
        "REAIMGUIAPI_EXTERN ReaImGuiFunc<void(ImGui_Context*ctx, int*type)> ImGui_SetType\n",
    )
    .unwrap();
    assert!(out.contains("pub unsafe fn SetType(&self, ctx: Context, type_: *mut std::ffi::c_int) -> ()"));
    assert!(out.contains("Some(f) => f(ctx, type_),"));
    assert!(!out.contains("f(ctx, type),"));
}

#[test]
fn empty_header_still_emits_the_skeleton() {
    let out = generate_bindings("").unwrap();
    assert!(out.contains("pub struct FunctionPointers {\n    pub loaded_count: u32,\n}\n"));
    assert!(out.contains("pub struct ImGui {\n    pub pointers: FunctionPointers,\n}\n"));
    assert!(out.contains("pub fn load(resolve: &mut dyn FnMut(&str) -> *mut c_void) -> ImGui"));
}

#[test]
fn scan_error_propagates_through_generation() {
    let err = generate_bindings("REAIMGUIAPI_EXTERN ReaImGuiFunc<void( x)> ImGui_Bad\n")
        .expect_err("generation must fail on a malformed declaration");
    assert_eq!(err.line, 0);
}

#[test]
fn output_ends_with_the_impl_close() {
    let out = generate_bindings(HEADER).unwrap();
    assert!(out.ends_with("}\n"));
    assert!(out.starts_with("//! Typed wrapper over a native function table"));
}

#[test]
fn a_double_slider_method_signature() {
    let out = generate_bindings(
        "REAIMGUIAPI_EXTERN ReaImGuiFunc<bool(ImGui_Context*ctx, double*v)> ImGui_SliderDouble\n",
    )
    .unwrap();
    assert!(out.contains(
        "    pub unsafe fn SliderDouble(&self, ctx: Context, v: *mut f64) -> bool"
    ));
    assert!(out.contains(
        "    pub SliderDouble: Option<unsafe extern \"C\" fn(Context, *mut f64) -> bool>,\n"
    ));
}

#[test]
fn constants_are_loaded_through_a_zero_argument_accessor() {
    let out = generate_bindings("REAIMGUIAPI_EXTERN ReaImGuiEnum ImGui_Mod_Alt\n").unwrap();
    assert!(out.contains(
        "        let Mod_Alt: Option<i32> = match unsafe { slot::<unsafe extern \"C\" fn() -> i32>(resolve(\"ImGui_Mod_Alt\")) } { None => None, Some(f) => Some(unsafe { f() }) };\n"
    ));
}
