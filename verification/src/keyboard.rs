//! Keyboard bindings: modifier keys, key codes, and the pure matching
//! rules that decide whether a binding fired.
//!
//! The host reports the pressed modifiers as a bit mask together with
//! one mask constant per modifier; decoding the mask and comparing
//! modifier sets are plain computations and are verified here.  Reading
//! the mask and the constants from the host stays outside.

use vstd::prelude::*;
use vstd::string::*;

verus! {

/// One modifier key.  `NoModifier` stands for the host's explicit
/// no-modifier mask.
#[derive(Debug, Clone, Copy, PartialEq, Eq, Structural, Hash)]
pub enum KeyModifier {
    Alt,
    Ctrl,
    NoModifier,
    Shift,
    Super,
}

/// A modifier-mask constant the host build does not provide; the name
/// says which, so a version mismatch can be diagnosed.
#[derive(Debug, Clone, PartialEq, Eq)]
pub struct MissingConstant {
    pub name: String,
}

impl MissingConstant {
    /// The user-visible text of the failure, naming the constant.
    pub fn describe(&self) -> (r: String)
        ensures
            r@ == self.name@ + " constant is not loaded! Probably, bad version of ReaImGui"@,
    {
        let mut out = self.name.clone();
        out.append(" constant is not loaded! Probably, bad version of ReaImGui");
        out
    }
}

/// The modifiers whose mask bits are set in `value`, in the fixed order
/// Alt, Ctrl, None, Shift, Super.
pub open spec fn decode_modifiers(
    value: i32,
    alt: i32,
    ctrl: i32,
    none: i32,
    shift: i32,
    sup: i32,
) -> Seq<KeyModifier> {
    let s0 = Seq::<KeyModifier>::empty();
    let s1 = if value & alt > 0 {
        s0.push(KeyModifier::Alt)
    } else {
        s0
    };
    let s2 = if value & ctrl > 0 {
        s1.push(KeyModifier::Ctrl)
    } else {
        s1
    };
    let s3 = if value & none > 0 {
        s2.push(KeyModifier::NoModifier)
    } else {
        s2
    };
    let s4 = if value & shift > 0 {
        s3.push(KeyModifier::Shift)
    } else {
        s3
    };
    if value & sup > 0 {
        s4.push(KeyModifier::Super)
    } else {
        s4
    }
}

impl KeyModifier {
    /// Decodes a host modifier mask against the five mask constants, of
    /// which the host may provide only some: the first missing one, in
    /// the fixed order, is reported by name.
    pub fn from_flags(
        value: i32,
        alt: Option<i32>,
        ctrl: Option<i32>,
        none: Option<i32>,
        shift: Option<i32>,
        sup: Option<i32>,
    ) -> (r: Result<Vec<KeyModifier>, MissingConstant>)
        ensures
            alt is None ==> (r matches Err(e) && e.name@ == "Mod_Alt"@),
            alt is Some && ctrl is None ==> (r matches Err(e) && e.name@ == "Mod_Ctrl"@),
            alt is Some && ctrl is Some && none is None ==> (r matches Err(e) && e.name@
                == "Mod_None"@),
            alt is Some && ctrl is Some && none is Some && shift is None ==> (r matches Err(e)
                && e.name@ == "Mod_Shift"@),
            alt is Some && ctrl is Some && none is Some && shift is Some && sup is None ==> (r
                matches Err(e) && e.name@ == "Mod_Super"@),
            alt is Some && ctrl is Some && none is Some && shift is Some && sup is Some ==> (r
                matches Ok(v) && v@ == decode_modifiers(
                value,
                alt->0,
                ctrl->0,
                none->0,
                shift->0,
                sup->0,
            )),
    {
        let a: i32 = match alt {
            Option::None => {
                return Err(MissingConstant { name: String::from_str("Mod_Alt") });
            },
            Option::Some(v) => v,
        };
        let c: i32 = match ctrl {
            Option::None => {
                return Err(MissingConstant { name: String::from_str("Mod_Ctrl") });
            },
            Option::Some(v) => v,
        };
        let n: i32 = match none {
            Option::None => {
                return Err(MissingConstant { name: String::from_str("Mod_None") });
            },
            Option::Some(v) => v,
        };
        let s: i32 = match shift {
            Option::None => {
                return Err(MissingConstant { name: String::from_str("Mod_Shift") });
            },
            Option::Some(v) => v,
        };
        let u: i32 = match sup {
            Option::None => {
                return Err(MissingConstant { name: String::from_str("Mod_Super") });
            },
            Option::Some(v) => v,
        };
        let mut out: Vec<KeyModifier> = Vec::new();
        if value & a > 0 {
            out.push(KeyModifier::Alt);
        }
        if value & c > 0 {
            out.push(KeyModifier::Ctrl);
        }
        if value & n > 0 {
            out.push(KeyModifier::NoModifier);
        }
        if value & s > 0 {
            out.push(KeyModifier::Shift);
        }
        if value & u > 0 {
            out.push(KeyModifier::Super);
        }
        proof {
            assert(out@ =~= decode_modifiers(value, a, c, n, s, u));
        }
        Ok(out)
    }
}

/// `v` holds `m`.
pub fn has_modifier(v: &Vec<KeyModifier>, m: KeyModifier) -> (b: bool)
    ensures
        b == v@.contains(m),
{
    let mut i: usize = 0;
    while i < v.len()
        invariant
            i <= v.len(),
            forall|j: int| 0 <= j < i ==> v@[j] != m,
        decreases v.len() - i,
    {
        if v[i] == m {
            return true;
        }
        i += 1;
    }
    false
}

/// Two modifier lists describe the same set of modifiers.
pub open spec fn same_modifiers(a: Seq<KeyModifier>, b: Seq<KeyModifier>) -> bool {
    &&& forall|i: int| 0 <= i < a.len() ==> b.contains(#[trigger] a[i])
    &&& forall|i: int| 0 <= i < b.len() ==> a.contains(#[trigger] b[i])
}

/// A key chord: the modifiers that must be held and the key itself.
#[derive(Debug, Eq, Hash)]
pub struct KeyBinding {
    pub modifiers: Vec<KeyModifier>,
    pub key_code: KeyCode,
}

impl KeyBinding {
    pub fn new(modifiers: Vec<KeyModifier>, key_code: KeyCode) -> (b: KeyBinding)
        ensures
            b.modifiers == modifiers,
            b.key_code == key_code,
    {
        KeyBinding { modifiers, key_code }
    }

    /// Whether the binding's modifier set is exactly the active one:
    /// every active modifier is bound and every bound modifier is
    /// active.  This is the decision at the heart of matching a pressed
    /// key against a binding; whether the key itself is down comes from
    /// the host.
    pub fn matches_modifiers(&self, active: &Vec<KeyModifier>) -> (b: bool)
        ensures
            b == same_modifiers(self.modifiers@, active@),
    {
        let mut i: usize = 0;
        while i < active.len()
            invariant
                i <= active.len(),
                forall|j: int| 0 <= j < i ==> self.modifiers@.contains(#[trigger] active@[j]),
            decreases active.len() - i,
        {
            if !has_modifier(&self.modifiers, active[i]) {
                return false;
            }
            i += 1;
        }
        let mut i: usize = 0;
        while i < self.modifiers.len()
            invariant
                i <= self.modifiers.len(),
                forall|j: int| 0 <= j < active.len() ==> self.modifiers@.contains(
                    #[trigger] active@[j],
                ),
                forall|j: int| 0 <= j < i ==> active@.contains(#[trigger] self.modifiers@[j]),
            decreases self.modifiers.len() - i,
        {
            if !has_modifier(active, self.modifiers[i]) {
                return false;
            }
            i += 1;
        }
        true
    }
}

impl PartialEq for KeyBinding {
    fn eq(&self, other: &KeyBinding) -> (r: bool) {
        if self.key_code != other.key_code {
            return false;
        }
        if self.modifiers.len() != other.modifiers.len() {
            return false;
        }
        let mut i: usize = 0;
        while i < self.modifiers.len()
            invariant
                i <= self.modifiers.len(),
                self.modifiers@.len() == other.modifiers@.len(),
                forall|j: int| 0 <= j < i ==> self.modifiers@[j] == other.modifiers@[j],
            decreases self.modifiers.len() - i,
        {
            if self.modifiers[i] != other.modifiers[i] {
                return false;
            }
            i += 1;
        }
        proof {
            assert(self.modifiers@ =~= other.modifiers@);
        }
        true
    }
}

impl vstd::std_specs::cmp::PartialEqSpecImpl for KeyBinding {
    open spec fn obeys_eq_spec() -> bool {
        true
    }

    open spec fn eq_spec(&self, other: &KeyBinding) -> bool {
        self.modifiers@ == other.modifiers@ && self.key_code == other.key_code
    }
}

/// One key on the keyboard, named as the host names it.
#[derive(Debug, Clone, Copy, PartialEq, Eq, Structural, Hash)]
pub enum KeyCode {
    _0,
    _1,
    _2,
    _3,
    _4,
    _5,
    _6,
    _7,
    _8,
    _9,
    A,
    Apostrophe,
    B,
    Backslash,
    Backspace,
    C,
    CapsLock,
    Comma,
    D,
    Delete,
    DownArrow,
    E,
    End,
    Enter,
    Equal,
    Escape,
    F,
    F1,
    F10,
    F11,
    F12,
    F2,
    F3,
    F4,
    F5,
    F6,
    F7,
    F8,
    F9,
    G,
    GraveAccent,
    H,
    Home,
    I,
    Insert,
    J,
    K,
    Keypad0,
    Keypad1,
    Keypad2,
    Keypad3,
    Keypad4,
    Keypad5,
    Keypad6,
    Keypad7,
    Keypad8,
    Keypad9,
    KeypadAdd,
    KeypadDecimal,
    KeypadDivide,
    KeypadEnter,
    KeypadEqual,
    KeypadMultiply,
    KeypadSubtract,
    L,
    LeftAlt,
    LeftArrow,
    LeftBracket,
    LeftCtrl,
    LeftShift,
    LeftSuper,
    M,
    Menu,
    Minus,
    N,
    NumLock,
    O,
    P,
    PageDown,
    PageUp,
    Pause,
    Period,
    PrintScreen,
    Q,
    R,
    RightAlt,
    RightArrow,
    RightBracket,
    RightCtrl,
    RightShift,
    RightSuper,
    S,
    ScrollLock,
    Semicolon,
    Slash,
    Space,
    T,
    Tab,
    U,
    UpArrow,
    V,
    W,
    X,
    Y,
    Z,
}

/// The host constant that carries this key's code, by name.
pub open spec fn spec_constant_name(k: KeyCode) -> Seq<char> {
    match k {
        KeyCode::_0 => "Key_0"@,
        KeyCode::_1 => "Key_1"@,
        KeyCode::_2 => "Key_2"@,
        KeyCode::_3 => "Key_3"@,
        KeyCode::_4 => "Key_4"@,
        KeyCode::_5 => "Key_5"@,
        KeyCode::_6 => "Key_6"@,
        KeyCode::_7 => "Key_7"@,
        KeyCode::_8 => "Key_8"@,
        KeyCode::_9 => "Key_9"@,
        KeyCode::A => "Key_A"@,
        KeyCode::Apostrophe => "Key_Apostrophe"@,
        KeyCode::B => "Key_B"@,
        KeyCode::Backslash => "Key_Backslash"@,
        KeyCode::Backspace => "Key_Backspace"@,
        KeyCode::C => "Key_C"@,
        KeyCode::CapsLock => "Key_CapsLock"@,
        KeyCode::Comma => "Key_Comma"@,
        KeyCode::D => "Key_D"@,
        KeyCode::Delete => "Key_Delete"@,
        KeyCode::DownArrow => "Key_DownArrow"@,
        KeyCode::E => "Key_E"@,
        KeyCode::End => "Key_End"@,
        KeyCode::Enter => "Key_Enter"@,
        KeyCode::Equal => "Key_Equal"@,
        KeyCode::Escape => "Key_Escape"@,
        KeyCode::F => "Key_F"@,
        KeyCode::F1 => "Key_F1"@,
        KeyCode::F10 => "Key_F10"@,
        KeyCode::F11 => "Key_F11"@,
        KeyCode::F12 => "Key_F12"@,
        KeyCode::F2 => "Key_F2"@,
        KeyCode::F3 => "Key_F3"@,
        KeyCode::F4 => "Key_F4"@,
        KeyCode::F5 => "Key_F5"@,
        KeyCode::F6 => "Key_F6"@,
        KeyCode::F7 => "Key_F7"@,
        KeyCode::F8 => "Key_F8"@,
        KeyCode::F9 => "Key_F9"@,
        KeyCode::G => "Key_G"@,
        KeyCode::GraveAccent => "Key_GraveAccent"@,
        KeyCode::H => "Key_H"@,
        KeyCode::Home => "Key_Home"@,
        KeyCode::I => "Key_I"@,
        KeyCode::Insert => "Key_Insert"@,
        KeyCode::J => "Key_J"@,
        KeyCode::K => "Key_K"@,
        KeyCode::Keypad0 => "Key_Keypad0"@,
        KeyCode::Keypad1 => "Key_Keypad1"@,
        KeyCode::Keypad2 => "Key_Keypad2"@,
        KeyCode::Keypad3 => "Key_Keypad3"@,
        KeyCode::Keypad4 => "Key_Keypad4"@,
        KeyCode::Keypad5 => "Key_Keypad5"@,
        KeyCode::Keypad6 => "Key_Keypad6"@,
        KeyCode::Keypad7 => "Key_Keypad7"@,
        KeyCode::Keypad8 => "Key_Keypad8"@,
        KeyCode::Keypad9 => "Key_Keypad9"@,
        KeyCode::KeypadAdd => "Key_KeypadAdd"@,
        KeyCode::KeypadDecimal => "Key_KeypadDecimal"@,
        KeyCode::KeypadDivide => "Key_KeypadDivide"@,
        KeyCode::KeypadEnter => "Key_KeypadEnter"@,
        KeyCode::KeypadEqual => "Key_KeypadEqual"@,
        KeyCode::KeypadMultiply => "Key_KeypadMultiply"@,
        KeyCode::KeypadSubtract => "Key_KeypadSubtract"@,
        KeyCode::L => "Key_L"@,
        KeyCode::LeftAlt => "Key_LeftAlt"@,
        KeyCode::LeftArrow => "Key_LeftArrow"@,
        KeyCode::LeftBracket => "Key_LeftBracket"@,
        KeyCode::LeftCtrl => "Key_LeftCtrl"@,
        KeyCode::LeftShift => "Key_LeftShift"@,
        KeyCode::LeftSuper => "Key_LeftSuper"@,
        KeyCode::M => "Key_M"@,
        KeyCode::Menu => "Key_Menu"@,
        KeyCode::Minus => "Key_Minus"@,
        KeyCode::N => "Key_N"@,
        KeyCode::NumLock => "Key_NumLock"@,
        KeyCode::O => "Key_O"@,
        KeyCode::P => "Key_P"@,
        KeyCode::PageDown => "Key_PageDown"@,
        KeyCode::PageUp => "Key_PageUp"@,
        KeyCode::Pause => "Key_Pause"@,
        KeyCode::Period => "Key_Period"@,
        KeyCode::PrintScreen => "Key_PrintScreen"@,
        KeyCode::Q => "Key_Q"@,
        KeyCode::R => "Key_R"@,
        KeyCode::RightAlt => "Key_RightAlt"@,
        KeyCode::RightArrow => "Key_RightArrow"@,
        KeyCode::RightBracket => "Key_RightBracket"@,
        KeyCode::RightCtrl => "Key_RightCtrl"@,
        KeyCode::RightShift => "Key_RightShift"@,
        KeyCode::RightSuper => "Key_RightSuper"@,
        KeyCode::S => "Key_S"@,
        KeyCode::ScrollLock => "Key_ScrollLock"@,
        KeyCode::Semicolon => "Key_Semicolon"@,
        KeyCode::Slash => "Key_Slash"@,
        KeyCode::Space => "Key_Space"@,
        KeyCode::T => "Key_T"@,
        KeyCode::Tab => "Key_Tab"@,
        KeyCode::U => "Key_U"@,
        KeyCode::UpArrow => "Key_UpArrow"@,
        KeyCode::V => "Key_V"@,
        KeyCode::W => "Key_W"@,
        KeyCode::X => "Key_X"@,
        KeyCode::Y => "Key_Y"@,
        KeyCode::Z => "Key_Z"@,
    }
}

impl KeyCode {
    /// The name of the host constant this key is read from.
    pub fn constant_name(&self) -> (r: String)
        ensures
            r@ == spec_constant_name(*self),
    {
        match self {
            KeyCode::_0 => String::from_str("Key_0"),
            KeyCode::_1 => String::from_str("Key_1"),
            KeyCode::_2 => String::from_str("Key_2"),
            KeyCode::_3 => String::from_str("Key_3"),
            KeyCode::_4 => String::from_str("Key_4"),
            KeyCode::_5 => String::from_str("Key_5"),
            KeyCode::_6 => String::from_str("Key_6"),
            KeyCode::_7 => String::from_str("Key_7"),
            KeyCode::_8 => String::from_str("Key_8"),
            KeyCode::_9 => String::from_str("Key_9"),
            KeyCode::A => String::from_str("Key_A"),
            KeyCode::Apostrophe => String::from_str("Key_Apostrophe"),
            KeyCode::B => String::from_str("Key_B"),
            KeyCode::Backslash => String::from_str("Key_Backslash"),
            KeyCode::Backspace => String::from_str("Key_Backspace"),
            KeyCode::C => String::from_str("Key_C"),
            KeyCode::CapsLock => String::from_str("Key_CapsLock"),
            KeyCode::Comma => String::from_str("Key_Comma"),
            KeyCode::D => String::from_str("Key_D"),
            KeyCode::Delete => String::from_str("Key_Delete"),
            KeyCode::DownArrow => String::from_str("Key_DownArrow"),
            KeyCode::E => String::from_str("Key_E"),
            KeyCode::End => String::from_str("Key_End"),
            KeyCode::Enter => String::from_str("Key_Enter"),
            KeyCode::Equal => String::from_str("Key_Equal"),
            KeyCode::Escape => String::from_str("Key_Escape"),
            KeyCode::F => String::from_str("Key_F"),
            KeyCode::F1 => String::from_str("Key_F1"),
            KeyCode::F10 => String::from_str("Key_F10"),
            KeyCode::F11 => String::from_str("Key_F11"),
            KeyCode::F12 => String::from_str("Key_F12"),
            KeyCode::F2 => String::from_str("Key_F2"),
            KeyCode::F3 => String::from_str("Key_F3"),
            KeyCode::F4 => String::from_str("Key_F4"),
            KeyCode::F5 => String::from_str("Key_F5"),
            KeyCode::F6 => String::from_str("Key_F6"),
            KeyCode::F7 => String::from_str("Key_F7"),
            KeyCode::F8 => String::from_str("Key_F8"),
            KeyCode::F9 => String::from_str("Key_F9"),
            KeyCode::G => String::from_str("Key_G"),
            KeyCode::GraveAccent => String::from_str("Key_GraveAccent"),
            KeyCode::H => String::from_str("Key_H"),
            KeyCode::Home => String::from_str("Key_Home"),
            KeyCode::I => String::from_str("Key_I"),
            KeyCode::Insert => String::from_str("Key_Insert"),
            KeyCode::J => String::from_str("Key_J"),
            KeyCode::K => String::from_str("Key_K"),
            KeyCode::Keypad0 => String::from_str("Key_Keypad0"),
            KeyCode::Keypad1 => String::from_str("Key_Keypad1"),
            KeyCode::Keypad2 => String::from_str("Key_Keypad2"),
            KeyCode::Keypad3 => String::from_str("Key_Keypad3"),
            KeyCode::Keypad4 => String::from_str("Key_Keypad4"),
            KeyCode::Keypad5 => String::from_str("Key_Keypad5"),
            KeyCode::Keypad6 => String::from_str("Key_Keypad6"),
            KeyCode::Keypad7 => String::from_str("Key_Keypad7"),
            KeyCode::Keypad8 => String::from_str("Key_Keypad8"),
            KeyCode::Keypad9 => String::from_str("Key_Keypad9"),
            KeyCode::KeypadAdd => String::from_str("Key_KeypadAdd"),
            KeyCode::KeypadDecimal => String::from_str("Key_KeypadDecimal"),
            KeyCode::KeypadDivide => String::from_str("Key_KeypadDivide"),
            KeyCode::KeypadEnter => String::from_str("Key_KeypadEnter"),
            KeyCode::KeypadEqual => String::from_str("Key_KeypadEqual"),
            KeyCode::KeypadMultiply => String::from_str("Key_KeypadMultiply"),
            KeyCode::KeypadSubtract => String::from_str("Key_KeypadSubtract"),
            KeyCode::L => String::from_str("Key_L"),
            KeyCode::LeftAlt => String::from_str("Key_LeftAlt"),
            KeyCode::LeftArrow => String::from_str("Key_LeftArrow"),
            KeyCode::LeftBracket => String::from_str("Key_LeftBracket"),
            KeyCode::LeftCtrl => String::from_str("Key_LeftCtrl"),
            KeyCode::LeftShift => String::from_str("Key_LeftShift"),
            KeyCode::LeftSuper => String::from_str("Key_LeftSuper"),
            KeyCode::M => String::from_str("Key_M"),
            KeyCode::Menu => String::from_str("Key_Menu"),
            KeyCode::Minus => String::from_str("Key_Minus"),
            KeyCode::N => String::from_str("Key_N"),
            KeyCode::NumLock => String::from_str("Key_NumLock"),
            KeyCode::O => String::from_str("Key_O"),
            KeyCode::P => String::from_str("Key_P"),
            KeyCode::PageDown => String::from_str("Key_PageDown"),
            KeyCode::PageUp => String::from_str("Key_PageUp"),
            KeyCode::Pause => String::from_str("Key_Pause"),
            KeyCode::Period => String::from_str("Key_Period"),
            KeyCode::PrintScreen => String::from_str("Key_PrintScreen"),
            KeyCode::Q => String::from_str("Key_Q"),
            KeyCode::R => String::from_str("Key_R"),
            KeyCode::RightAlt => String::from_str("Key_RightAlt"),
            KeyCode::RightArrow => String::from_str("Key_RightArrow"),
            KeyCode::RightBracket => String::from_str("Key_RightBracket"),
            KeyCode::RightCtrl => String::from_str("Key_RightCtrl"),
            KeyCode::RightShift => String::from_str("Key_RightShift"),
            KeyCode::RightSuper => String::from_str("Key_RightSuper"),
            KeyCode::S => String::from_str("Key_S"),
            KeyCode::ScrollLock => String::from_str("Key_ScrollLock"),
            KeyCode::Semicolon => String::from_str("Key_Semicolon"),
            KeyCode::Slash => String::from_str("Key_Slash"),
            KeyCode::Space => String::from_str("Key_Space"),
            KeyCode::T => String::from_str("Key_T"),
            KeyCode::Tab => String::from_str("Key_Tab"),
            KeyCode::U => String::from_str("Key_U"),
            KeyCode::UpArrow => String::from_str("Key_UpArrow"),
            KeyCode::V => String::from_str("Key_V"),
            KeyCode::W => String::from_str("Key_W"),
            KeyCode::X => String::from_str("Key_X"),
            KeyCode::Y => String::from_str("Key_Y"),
            KeyCode::Z => String::from_str("Key_Z"),
        }
    }

    /// The key's host code, read from the loaded constant slot: the
    /// value when the host provided it, and otherwise an error naming
    /// the constant, so a version mismatch can be diagnosed.
    pub fn resolve(&self, loaded: Option<i32>) -> (r: Result<i32, MissingConstant>)
        ensures
            loaded matches Some(v) ==> r == Ok::<i32, MissingConstant>(v),
            loaded is None ==> (r matches Err(e) && e.name@ == spec_constant_name(*self)),
    {
        match loaded {
            Option::Some(v) => Ok(v),
            Option::None => Err(MissingConstant { name: self.constant_name() }),
        }
    }
}

} // verus!
