use reaper_imgui::{ContextFlags, Dock, IntInputValues, KeyBinding, KeyCode, KeyModifier, Position, Rect, Size};

#[test]
fn geometry_constructors_and_conversions() {
    let p = Position::new(3, 4);
    assert_eq!((p.x, p.y), (3, 4));
    let s = Size::new(10, 20);
    assert_eq!((s.width, s.height), (10, 20));
    let r = Rect::from((p, s));
    assert_eq!(r, Rect::new(3, 4, 10, 20));
    assert_eq!(Position::from(r), p);
    assert_eq!(Size::from(r), s);
}

#[test]
fn rect_center_rounds_down() {
    let r = Rect::new(10, 20, 5, 9);
    let c = r.center();
    assert_eq!((c.x, c.y), (12, 24));
}

#[test]
fn geometry_defaults_are_zero() {
    assert_eq!(Position::default(), Position::new(0, 0));
    assert_eq!(Size::default(), Size::new(0, 0));
    assert_eq!(Rect::default(), Rect::new(0, 0, 0, 0));
}

#[test]
fn dock_raw_encodings() {
    assert_eq!(Dock::UnDocked.raw(), 0);
    assert_eq!(Dock::Reaper(3).raw(), -3);
    assert_eq!(Dock::ImGui(5).raw(), 5);
}

#[test]
fn dock_from_raw_decodings() {
    assert_eq!(Dock::from_raw(0), Dock::UnDocked);
    assert_eq!(Dock::from_raw(7), Dock::ImGui(7));
    assert_eq!(Dock::from_raw(-3), Dock::Reaper(3));
    assert_eq!(Dock::from_raw(-300), Dock::Reaper(44));
}

#[test]
fn dock_round_trips_within_one_byte() {
    for id in 1..=255u8 {
        assert_eq!(Dock::from_raw(Dock::Reaper(id).raw()), Dock::Reaper(id));
    }
    assert_eq!(Dock::from_raw(Dock::ImGui(123).raw()), Dock::ImGui(123));
    assert_eq!(Dock::default(), Dock::UnDocked);
}

#[test]
fn key_binding_holds_its_parts() {
    let b = KeyBinding::new(vec![KeyModifier::Ctrl, KeyModifier::Shift], KeyCode::B);
    assert_eq!(b.key_code, KeyCode::B);
    assert_eq!(b.modifiers, vec![KeyModifier::Ctrl, KeyModifier::Shift]);
}

#[test]
fn key_binding_equality_is_by_parts() {
    let a = KeyBinding::new(vec![KeyModifier::Ctrl], KeyCode::B);
    let b = KeyBinding::new(vec![KeyModifier::Ctrl], KeyCode::B);
    let c = KeyBinding::new(vec![KeyModifier::Shift], KeyCode::B);
    let d = KeyBinding::new(vec![KeyModifier::Ctrl], KeyCode::C);
    assert_eq!(a, b);
    assert_ne!(a, c);
    assert_ne!(a, d);
}

#[test]
fn modifier_matching_requires_the_same_set() {
    let b = KeyBinding::new(vec![KeyModifier::Ctrl, KeyModifier::Shift], KeyCode::B);
    assert!(b.matches_modifiers(&vec![KeyModifier::Ctrl, KeyModifier::Shift]));
    assert!(b.matches_modifiers(&vec![KeyModifier::Shift, KeyModifier::Ctrl]));
    assert!(!b.matches_modifiers(&vec![KeyModifier::Ctrl]));
    assert!(!b.matches_modifiers(&vec![KeyModifier::Ctrl, KeyModifier::Shift, KeyModifier::Alt]));
    assert!(!b.matches_modifiers(&vec![]));
}

#[test]
fn modifier_mask_decoding_in_fixed_order() {
    let r = KeyModifier::from_flags(
        0b0101,
        Some(0b0001),
        Some(0b0010),
        Some(0b0100),
        Some(0b1000),
        Some(0b10000),
    )
    .expect("all constants present");
    assert_eq!(r, vec![KeyModifier::Alt, KeyModifier::NoModifier]);
}

#[test]
fn modifier_mask_with_no_bits_set_decodes_empty() {
    let r = KeyModifier::from_flags(0, Some(1), Some(2), Some(4), Some(8), Some(16)).unwrap();
    assert!(r.is_empty());
}

#[test]
fn first_missing_modifier_constant_is_named() {
    let e = KeyModifier::from_flags(1, None, Some(2), Some(4), Some(8), Some(16))
        .expect_err("Mod_Alt missing");
    assert_eq!(e.name, "Mod_Alt");
    assert_eq!(
        e.describe(),
        "Mod_Alt constant is not loaded! Probably, bad version of ReaImGui"
    );
    let e = KeyModifier::from_flags(1, Some(1), Some(2), Some(4), None, Some(16))
        .expect_err("Mod_Shift missing");
    assert_eq!(e.name, "Mod_Shift");
}

#[test]
fn int_input_values_record_their_arity() {
    assert_eq!(IntInputValues::from(7).len(), 1);
    assert_eq!(IntInputValues::from((1, 2)).len(), 2);
    assert_eq!(IntInputValues::from((1, 2, 3)).len(), 3);
    assert_eq!(IntInputValues::from((1, 2, 3, 4)).len(), 4);
    assert_eq!(IntInputValues::from((1, 2)).values, (1, 2));
}

#[test]
fn key_codes_name_their_host_constants() {
    assert_eq!(KeyCode::A.constant_name(), "Key_A");
    assert_eq!(KeyCode::_0.constant_name(), "Key_0");
    assert_eq!(KeyCode::KeypadEnter.constant_name(), "Key_KeypadEnter");
    assert_eq!(KeyCode::UpArrow.constant_name(), "Key_UpArrow");
}

#[test]
fn key_code_resolution_reports_the_missing_constant() {
    assert_eq!(KeyCode::B.resolve(Some(66)), Ok(66));
    let e = KeyCode::B.resolve(None).expect_err("constant absent");
    assert_eq!(e.name, "Key_B");
    assert_eq!(
        e.describe(),
        "Key_B constant is not loaded! Probably, bad version of ReaImGui"
    );
}

#[test]
fn dock_toggle_decision() {
    let docked = Dock::Reaper(2);
    let stored = Dock::ImGui(9);
    // While docked, the stored dock follows the window.
    assert_eq!(Dock::next_dock_decision(docked, stored, None), (docked, Dock::UnChanged));
    // Undocked windows keep the stored dock as the memory.
    assert_eq!(
        Dock::next_dock_decision(Dock::UnDocked, stored, None),
        (stored, Dock::UnChanged)
    );
    // Clicking the toggle off undocks; clicking it on restores the memory.
    assert_eq!(Dock::next_dock_decision(docked, stored, Some(false)).1, Dock::UnDocked);
    assert_eq!(Dock::next_dock_decision(Dock::UnDocked, stored, Some(true)).1, stored);
}

fn all_flag_constants() -> reaper_imgui::flags::FlagConstants {
    reaper_imgui::flags::FlagConstants {
        docking_enable: Some(0b0000001),
        nav_enable_keyboard: Some(0b0000010),
        nav_enable_set_mouse_pos: Some(0b0000100),
        nav_no_capture_keyboard: Some(0b0001000),
        no_mouse: Some(0b0010000),
        no_mouse_cursor_change: Some(0b0100000),
        no_saved_settings: Some(0b1000000),
    }
}

#[test]
fn context_flags_combine_the_requested_masks() {
    let mut f = ContextFlags::empty();
    assert_eq!(f.raw(&all_flag_constants()), Ok(0));
    f.docking_enable = true;
    f.no_mouse = true;
    assert_eq!(f.raw(&all_flag_constants()), Ok(0b0010001));
    f.no_saved_settings = true;
    assert_eq!(f.raw(&all_flag_constants()), Ok(0b1010001));
    assert_eq!(ContextFlags::default(), ContextFlags::empty());
}

#[test]
fn a_requested_flag_without_a_host_constant_is_named() {
    let mut consts = all_flag_constants();
    consts.no_mouse = None;
    let mut f = ContextFlags::empty();
    f.docking_enable = true;
    f.no_mouse = true;
    let e = f.raw(&consts).expect_err("the host lacks NoMouse");
    assert_eq!(e.name, "NoMouse");
    assert_eq!(
        e.describe(),
        "NoMouse is not supported. Probably, ReaImGui extension is outdated."
    );
    // An absent constant for a flag that was not requested is harmless.
    f.no_mouse = false;
    assert_eq!(f.raw(&consts), Ok(0b0000001));
}
