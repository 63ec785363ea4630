use reaper_imgui::runtime::{load_for_model, qualified_name, LoadedTable};
use reaper_imgui::scan::scan_header;

const HEADER: &str = "REAIMGUIAPI_EXTERN ReaImGuiFunc<void(ImGui_Context*ctx, const char*text)> ImGui_Text\nREAIMGUIAPI_EXTERN ReaImGuiFunc<void(ImGui_Context*ctx)> ImGui_End\n";

#[test]
fn null_resolver_still_loads_with_zero_resolved() {
    let model = scan_header(HEADER).unwrap();
    let table = load_for_model(&model, vec![false, false]);
    assert_eq!(table.resolved_count(), 0);
    assert_eq!(table.len(), 2);
}

#[test]
fn dispatch_through_an_unresolved_slot_names_the_function() {
    let model = scan_header(HEADER).unwrap();
    let table = load_for_model(&model, vec![false, false]);
    let err = table.dispatch(0).expect_err("slot never resolved");
    assert_eq!(err.name, "Text");
    let msg = err.describe();
    assert_eq!(msg, "Attempt to use a function that has not been loaded: Text");
    let err = table.dispatch(1).expect_err("slot never resolved");
    assert_eq!(err.name, "End");
}

#[test]
fn resolved_slots_dispatch_and_are_counted() {
    let model = scan_header(HEADER).unwrap();
    let table = load_for_model(&model, vec![true, false]);
    assert_eq!(table.resolved_count(), 1);
    assert!(table.dispatch(0).is_ok());
    assert!(table.dispatch(1).is_err());
    assert!(table.is_resolved(0));
    assert!(!table.is_resolved(1));
}

#[test]
fn partial_availability_never_aborts_the_load() {
    let outcomes = vec![true, false, true, true, false];
    let names = vec![
        "A".to_string(),
        "B".to_string(),
        "C".to_string(),
        "D".to_string(),
        "E".to_string(),
    ];
    let table = LoadedTable::load(names, outcomes);
    assert_eq!(table.resolved_count(), 3);
    assert_eq!(table.len(), 5);
}

#[test]
fn symbols_are_resolved_under_the_qualified_name() {
    assert_eq!(qualified_name("Text"), "ImGui_Text");
    assert_eq!(qualified_name("Key_A"), "ImGui_Key_A");
}
