use reaper_imgui::model::{BindingModel, Param};
use reaper_imgui::scan::scan_header;
use reaper_imgui::types::{MapError, TypeRef};

fn scan(text: &str) -> BindingModel {
    scan_header(text).expect("scan should succeed")
}

#[test]
fn opaque_forward_declaration_enters_the_model() {
    let m = scan("class Context;\n");
    assert_eq!(m.opaque_types, vec!["Context".to_string()]);
    assert!(m.constants.is_empty());
    assert!(m.functions.is_empty());
}

#[test]
fn opaque_name_has_the_prefix_stripped() {
    let m = scan("class ImGui_Context;\n");
    assert_eq!(m.opaque_types, vec!["Context".to_string()]);
}

#[test]
fn function_declaration_enters_the_model() {
    let m = scan(
        "REAIMGUIAPI_EXTERN ReaImGuiFunc<void(ImGui_Context*ctx, const char*text)> ImGui_Text\n",
    );
    assert_eq!(m.functions.len(), 1);
    let f = &m.functions[0];
    assert_eq!(f.name, "Text");
    assert_eq!(f.ret, TypeRef::Void);
    assert_eq!(
        f.params,
        vec![
            Param { ty: TypeRef::Opaque("Context".to_string()), name: "ctx".to_string() },
            Param { ty: TypeRef::ConstCharPtr, name: "text".to_string() },
        ]
    );
}

#[test]
fn constant_declaration_enters_the_model() {
    let m = scan("REAIMGUIAPI_EXTERN ReaImGuiEnum ImGui_Key_A\n");
    assert_eq!(m.constants, vec!["Key_A".to_string()]);
    assert!(m.functions.is_empty());
    assert!(m.opaque_types.is_empty());
}

#[test]
fn table_type_forward_declaration_is_not_an_opaque_type() {
    let m = scan("class ReaImGuiFunc;\nclass Context;\n");
    assert_eq!(m.opaque_types, vec!["Context".to_string()]);
}

#[test]
fn validate_ptr_helper_is_skipped() {
    let m = scan(
        "REAIMGUIAPI_EXTERN ReaImGuiFunc<bool(ImGui_Context*ctx)> ImGui_ValidatePtr\nREAIMGUIAPI_EXTERN ReaImGuiFunc<void(ImGui_Context*ctx)> ImGui_End\n",
    );
    assert_eq!(m.functions.len(), 1);
    assert_eq!(m.functions[0].name, "End");
}

#[test]
fn generic_array_function_is_dropped_and_no_other() {
    let with_array = "REAIMGUIAPI_EXTERN ReaImGuiFunc<void(ImGui_Context*ctx)> ImGui_First\nREAIMGUIAPI_EXTERN ReaImGuiFunc<bool(reaper_array*values)> ImGui_PlotArray\nREAIMGUIAPI_EXTERN ReaImGuiFunc<void(ImGui_Context*ctx)> ImGui_Last\n";
    let without_array = "REAIMGUIAPI_EXTERN ReaImGuiFunc<void(ImGui_Context*ctx)> ImGui_First\nREAIMGUIAPI_EXTERN ReaImGuiFunc<void(ImGui_Context*ctx)> ImGui_Last\n";
    let m1 = scan(with_array);
    let m2 = scan(without_array);
    assert_eq!(m1.functions.len(), 2);
    assert_eq!(m1.functions, m2.functions);
}

#[test]
fn generic_array_return_type_also_drops_the_function() {
    let m = scan("REAIMGUIAPI_EXTERN ReaImGuiFunc<reaper_array*(ImGui_Context*ctx)> ImGui_Get\n");
    assert!(m.functions.is_empty());
}

#[test]
fn empty_type_token_aborts_with_the_line_index() {
    let text = "class Context;\nREAIMGUIAPI_EXTERN ReaImGuiFunc<void( x)> ImGui_Bad\n";
    let err = scan_header(text).expect_err("empty type is fatal");
    assert_eq!(err.line, 1);
    assert!(matches!(err.cause, MapError::EmptyType { .. }));
}

#[test]
fn missing_parameter_name_aborts() {
    let text = "REAIMGUIAPI_EXTERN ReaImGuiFunc<void(Context)> ImGui_Bad\n";
    let err = scan_header(text).expect_err("a parameter needs a name");
    assert_eq!(err.line, 0);
    match err.cause {
        MapError::MissingName { token } => assert_eq!(token, "Context"),
        other => panic!("unexpected cause: {:?}", other),
    }
}

#[test]
fn unrecognized_lines_are_skipped_silently() {
    let m = scan("// a comment\n#ifndef GUARD\ntypedef int plain;\n\nclass Context;\n");
    assert_eq!(m.opaque_types, vec!["Context".to_string()]);
}

#[test]
fn order_is_preserved_and_duplicates_pass_through() {
    let m = scan("class B;\nclass A;\nclass B;\n");
    assert_eq!(
        m.opaque_types,
        vec!["B".to_string(), "A".to_string(), "B".to_string()]
    );
}

#[test]
fn carriage_returns_are_tolerated() {
    let m = scan("class Context;\r\nREAIMGUIAPI_EXTERN ReaImGuiEnum ImGui_Key_A\r\n");
    assert_eq!(m.opaque_types, vec!["Context".to_string()]);
    assert_eq!(m.constants, vec!["Key_A".to_string()]);
}

#[test]
fn repeated_prefix_is_stripped_repeatedly() {
    let m = scan("class ImGui_ImGui_Context;\n");
    assert_eq!(m.opaque_types, vec!["Context".to_string()]);
}

#[test]
fn a_full_small_header() {
    let text = "#ifndef REAPER_IMGUI_FUNCTIONS_H\nclass ImGui_Context;\nclass ImGui_Viewport;\nREAIMGUIAPI_EXTERN ReaImGuiFunc<void(ImGui_Context*ctx, const char*text)> ImGui_Text\nREAIMGUIAPI_EXTERN ReaImGuiFunc<bool(ImGui_Context*ctx, const char*label, bool*p_open, int*flags)> ImGui_Begin\nREAIMGUIAPI_EXTERN ReaImGuiEnum ImGui_Key_A\nREAIMGUIAPI_EXTERN ReaImGuiEnum ImGui_Mod_Ctrl\n#endif\n";
    let m = scan(text);
    assert_eq!(m.opaque_types, vec!["Context".to_string(), "Viewport".to_string()]);
    assert_eq!(m.constants, vec!["Key_A".to_string(), "Mod_Ctrl".to_string()]);
    assert_eq!(m.functions.len(), 2);
    assert_eq!(m.functions[0].name, "Text");
    assert_eq!(m.functions[1].name, "Begin");
    let begin = &m.functions[1];
    assert_eq!(begin.ret, TypeRef::Bool);
    assert_eq!(begin.params.len(), 4);
    assert_eq!(begin.params[2].ty, TypeRef::BoolPtr);
    assert_eq!(begin.params[2].name, "p_open");
    assert_eq!(begin.params[3].ty, TypeRef::IntPtr);
}

#[test]
fn one_line_can_match_several_patterns() {
    let m = scan("REAIMGUIAPI_EXTERN ReaImGuiEnum ImGui_Key_B; class ImGui_Font;\n");
    assert_eq!(m.constants, vec!["Key_B".to_string()]);
    assert_eq!(m.opaque_types, vec!["Font".to_string()]);
}

#[test]
fn a_realistic_header_slice() {
    let mut text = String::new();
    for line in [
        "// Copyright (C) 2023",
        "#ifndef REAPER_IMGUI_FUNCTIONS_H",
        "#define REAPER_IMGUI_FUNCTIONS_H",
        "class ImGui_Context;",
        "class ImGui_DrawList;",
        "class ImGui_Font;",
        "REAIMGUIAPI_EXTERN ReaImGuiFunc<void(ImGui_Context*ctx, double*p_open)> ImGui_SetNextItemWidth",
        "REAIMGUIAPI_EXTERN ReaImGuiFunc<bool(ImGui_Context*ctx, const char*label, double*v, double*v_min, double*v_max, const char*format, int*flags)> ImGui_SliderDouble",
        "REAIMGUIAPI_EXTERN ReaImGuiFunc<int(ImGui_Context*ctx)> ImGui_GetKeyMods",
        "REAIMGUIAPI_EXTERN ReaImGuiEnum ImGui_Mod_Alt",
        "REAIMGUIAPI_EXTERN ReaImGuiEnum ImGui_Mod_Ctrl",
        "REAIMGUIAPI_EXTERN ReaImGuiEnum ImGui_Mod_Shift",
        "#endif",
    ] {
        text.push_str(line);
        text.push('\n');
    }
    let m = scan(&text);
    assert_eq!(
        m.opaque_types,
        vec!["Context".to_string(), "DrawList".to_string(), "Font".to_string()]
    );
    assert_eq!(
        m.constants,
        vec!["Mod_Alt".to_string(), "Mod_Ctrl".to_string(), "Mod_Shift".to_string()]
    );
    assert_eq!(m.functions.len(), 3);
    let slider = &m.functions[1];
    assert_eq!(slider.name, "SliderDouble");
    assert_eq!(slider.ret, TypeRef::Bool);
    assert_eq!(slider.params.len(), 7);
    assert_eq!(slider.params[1].ty, TypeRef::ConstCharPtr);
    assert_eq!(slider.params[1].name, "label");
    assert_eq!(slider.params[2].ty, TypeRef::DoublePtr);
    assert_eq!(slider.params[2].name, "v");
    assert_eq!(slider.params[6].ty, TypeRef::IntPtr);
    assert_eq!(slider.params[6].name, "flags");
    assert_eq!(m.functions[2].ret, TypeRef::Int);
}

#[test]
fn empty_parameter_name_is_fatal() {
    let text = "REAIMGUIAPI_EXTERN ReaImGuiFunc<void(Foo )> ImGui_Bad\n";
    let err = scan_header(text).expect_err("an empty name is no name");
    assert_eq!(err.line, 0);
    assert!(matches!(err.cause, MapError::MissingName { .. }));
}
