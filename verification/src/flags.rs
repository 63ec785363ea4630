//! Context configuration flags and their host encoding.
//!
//! An application asks for a set of behaviour flags when it creates a
//! GUI context; the host publishes one mask constant per flag, and a
//! constant may be absent when the host build predates the flag.  The
//! combination rule is pure and verified here: the masks of the
//! requested flags are or-ed together, and a requested flag whose
//! constant the host does not provide is a fatal, named failure.
//! Reading the constants from the host stays outside.

use vstd::prelude::*;
use vstd::string::*;

verus! {

/// The context behaviour flags an application can ask for.
#[derive(Debug, Clone, Copy, PartialEq, Eq, Structural)]
pub struct ContextFlags {
    /// Enable docking functionality.
    pub docking_enable: bool,
    /// Master keyboard navigation enable flag.
    pub nav_enable_keyboard: bool,
    /// Instruct navigation to move the mouse cursor.
    pub nav_enable_set_mouse_pos: bool,
    /// Instruct navigation not to capture global keyboard input when
    /// keyboard navigation is enabled.
    pub nav_no_capture_keyboard: bool,
    /// Ignore mouse position and buttons.
    pub no_mouse: bool,
    /// Do not alter mouse cursor shape and visibility.
    pub no_mouse_cursor_change: bool,
    /// Disable state restoration and persistence for the context.
    pub no_saved_settings: bool,
}

/// The host's mask constant for each flag, each absent when the host
/// build does not know the flag.
#[derive(Debug, Clone, Copy, PartialEq, Eq, Structural)]
pub struct FlagConstants {
    pub docking_enable: Option<i32>,
    pub nav_enable_keyboard: Option<i32>,
    pub nav_enable_set_mouse_pos: Option<i32>,
    pub nav_no_capture_keyboard: Option<i32>,
    pub no_mouse: Option<i32>,
    pub no_mouse_cursor_change: Option<i32>,
    pub no_saved_settings: Option<i32>,
}

/// A requested flag whose mask constant the host build does not
/// provide; the name says which.
#[derive(Debug, Clone, PartialEq, Eq)]
pub struct UnsupportedFlag {
    pub name: String,
}

impl UnsupportedFlag {
    /// The user-visible text of the failure, naming the flag.
    pub fn describe(&self) -> (r: String)
        ensures
            r@ == self.name@ + " is not supported. Probably, ReaImGui extension is outdated."@,
    {
        let mut out = self.name.clone();
        out.append(" is not supported. Probably, ReaImGui extension is outdated.");
        out
    }
}

/// The name of the first requested flag, in declaration order, whose
/// constant is absent — the flag that makes the combination fail.
pub open spec fn first_missing_flag(f: ContextFlags, c: FlagConstants) -> Option<Seq<char>> {
    if f.docking_enable && c.docking_enable is None {
        Some("DockingEnable"@)
    } else if f.nav_enable_keyboard && c.nav_enable_keyboard is None {
        Some("NavEnableKeyboard"@)
    } else if f.nav_enable_set_mouse_pos && c.nav_enable_set_mouse_pos is None {
        Some("NavEnableSetMousePos"@)
    } else if f.nav_no_capture_keyboard && c.nav_no_capture_keyboard is None {
        Some("NavNoCaptureKeyboard"@)
    } else if f.no_mouse && c.no_mouse is None {
        Some("NoMouse"@)
    } else if f.no_mouse_cursor_change && c.no_mouse_cursor_change is None {
        Some("NoMouseCursorChange"@)
    } else if f.no_saved_settings && c.no_saved_settings is None {
        Some("NoSavedSettings"@)
    } else {
        None
    }
}

/// The host mask of the requested flags: the or of their constants, in
/// declaration order, over a zero start.
pub open spec fn spec_combine(f: ContextFlags, c: FlagConstants) -> i32 {
    let v0: i32 = 0;
    let v1 = if f.docking_enable {
        v0 | c.docking_enable->0
    } else {
        v0
    };
    let v2 = if f.nav_enable_keyboard {
        v1 | c.nav_enable_keyboard->0
    } else {
        v1
    };
    let v3 = if f.nav_enable_set_mouse_pos {
        v2 | c.nav_enable_set_mouse_pos->0
    } else {
        v2
    };
    let v4 = if f.nav_no_capture_keyboard {
        v3 | c.nav_no_capture_keyboard->0
    } else {
        v3
    };
    let v5 = if f.no_mouse {
        v4 | c.no_mouse->0
    } else {
        v4
    };
    let v6 = if f.no_mouse_cursor_change {
        v5 | c.no_mouse_cursor_change->0
    } else {
        v5
    };
    if f.no_saved_settings {
        v6 | c.no_saved_settings->0
    } else {
        v6
    }
}

impl ContextFlags {
    /// No flag requested.
    pub fn empty() -> (f: ContextFlags)
        ensures
            f == (ContextFlags {
                docking_enable: false,
                nav_enable_keyboard: false,
                nav_enable_set_mouse_pos: false,
                nav_no_capture_keyboard: false,
                no_mouse: false,
                no_mouse_cursor_change: false,
                no_saved_settings: false,
            }),
    {
        ContextFlags {
            docking_enable: false,
            nav_enable_keyboard: false,
            nav_enable_set_mouse_pos: false,
            nav_no_capture_keyboard: false,
            no_mouse: false,
            no_mouse_cursor_change: false,
            no_saved_settings: false,
        }
    }

    /// The host mask for this flag set, given the host's constants: the
    /// or of the requested flags' masks, or the first requested flag
    /// the host does not support, by name.
    pub fn raw(&self, consts: &FlagConstants) -> (r: Result<i32, UnsupportedFlag>)
        ensures
            first_missing_flag(*self, *consts) is None ==> r == Ok::<i32, UnsupportedFlag>(
                spec_combine(*self, *consts),
            ),
            first_missing_flag(*self, *consts) matches Some(nm) ==> (r matches Err(e) && e.name@
                == nm),
    {
        let mut v: i32 = 0;
        if self.docking_enable {
            match consts.docking_enable {
                Option::Some(m) => {
                    v = v | m;
                },
                Option::None => {
                    return Err(UnsupportedFlag { name: String::from_str("DockingEnable") });
                },
            }
        }
        if self.nav_enable_keyboard {
            match consts.nav_enable_keyboard {
                Option::Some(m) => {
                    v = v | m;
                },
                Option::None => {
                    return Err(UnsupportedFlag { name: String::from_str("NavEnableKeyboard") });
                },
            }
        }
        if self.nav_enable_set_mouse_pos {
            match consts.nav_enable_set_mouse_pos {
                Option::Some(m) => {
                    v = v | m;
                },
                Option::None => {
                    return Err(UnsupportedFlag { name: String::from_str("NavEnableSetMousePos") });
                },
            }
        }
        if self.nav_no_capture_keyboard {
            match consts.nav_no_capture_keyboard {
                Option::Some(m) => {
                    v = v | m;
                },
                Option::None => {
                    return Err(UnsupportedFlag { name: String::from_str("NavNoCaptureKeyboard") });
                },
            }
        }
        if self.no_mouse {
            match consts.no_mouse {
                Option::Some(m) => {
                    v = v | m;
                },
                Option::None => {
                    return Err(UnsupportedFlag { name: String::from_str("NoMouse") });
                },
            }
        }
        if self.no_mouse_cursor_change {
            match consts.no_mouse_cursor_change {
                Option::Some(m) => {
                    v = v | m;
                },
                Option::None => {
                    return Err(UnsupportedFlag { name: String::from_str("NoMouseCursorChange") });
                },
            }
        }
        if self.no_saved_settings {
            match consts.no_saved_settings {
                Option::Some(m) => {
                    v = v | m;
                },
                Option::None => {
                    return Err(UnsupportedFlag { name: String::from_str("NoSavedSettings") });
                },
            }
        }
        Ok(v)
    }
}

impl Default for ContextFlags {
    /// No flag requested.
    fn default() -> (f: ContextFlags)
        ensures
            f == (ContextFlags {
                docking_enable: false,
                nav_enable_keyboard: false,
                nav_enable_set_mouse_pos: false,
                nav_no_capture_keyboard: false,
                no_mouse: false,
                no_mouse_cursor_change: false,
                no_saved_settings: false,
            }),
    {
        ContextFlags::empty()
    }
}

} // verus!
