//! The docking state of a window, and its host encoding.
//!
//! The host encodes a dock as one signed integer: zero for an undocked
//! window, a negative value for one of the host's own dockers (only the
//! low byte of the magnitude names the docker), and a positive value
//! for a docker of the GUI library.  `UnChanged` is a sentinel used by
//! widgets to say "leave the dock as it is"; it has no host encoding.

use vstd::prelude::*;

verus! {

/// Where a window is docked.
#[derive(Debug, Clone, Copy, PartialEq, Eq, Structural, PartialOrd, Ord, Hash)]
pub enum Dock {
    UnDocked,
    UnChanged,
    Reaper(u8),
    ImGui(u32),
}

impl Default for Dock {
    /// A window starts undocked.
    fn default() -> (d: Dock)
        ensures
            d == Dock::UnDocked,
    {
        Dock::UnDocked
    }
}

impl Dock {
    /// The host encoding of this state.  `UnChanged` has none, and a
    /// GUI-library docker id must fit the positive range.
    pub fn raw(&self) -> (r: i32)
        requires
            !(self matches Dock::UnChanged),
            self matches Dock::ImGui(id) ==> id <= i32::MAX as u32,
        ensures
            match *self {
                Dock::UnDocked => r == 0,
                Dock::Reaper(id) => r as int == 0 - id as int,
                Dock::ImGui(id) => r as int == id as int,
                Dock::UnChanged => false,
            },
    {
        match self {
            Dock::UnDocked => 0,
            Dock::Reaper(id) => 0 - (*id as i32),
            Dock::ImGui(id) => *id as i32,
            Dock::UnChanged => {
                proof {
                    assert(false);
                }
                0
            },
        }
    }

    /// The decision behind a dock-toggle widget, once the host has
    /// reported the window's current dock and the toggle's outcome
    /// (`None` when it was not clicked).  The remembered application
    /// dock follows the window while it is docked; the next dock is
    /// left unchanged without a click, undocked after a click off, and
    /// the remembered dock after a click on.  Returns the remembered
    /// dock and the next one, in that order.
    pub fn next_dock_decision(current: Dock, app_dock: Dock, toggle: Option<bool>) -> (r: (
        Dock,
        Dock,
    ))
        ensures
            r.0 == (if current == Dock::UnDocked {
                app_dock
            } else {
                current
            }),
            toggle is None ==> r.1 == Dock::UnChanged,
            toggle == Some(false) ==> r.1 == Dock::UnDocked,
            toggle == Some(true) ==> r.1 == r.0,
    {
        let remembered: Dock = if current == Dock::UnDocked {
            app_dock
        } else {
            current
        };
        let next: Dock = match toggle {
            Option::None => Dock::UnChanged,
            Option::Some(false) => Dock::UnDocked,
            Option::Some(true) => remembered,
        };
        (remembered, next)
    }

    /// The state a host encoding denotes.  A negative encoding keeps
    /// only the low byte of its magnitude, as the host does.
    pub fn from_raw(id: i32) -> (d: Dock)
        requires
            id > i32::MIN,
        ensures
            id == 0 ==> d == Dock::UnDocked,
            id > 0 ==> d == Dock::ImGui(id as u32),
            id < 0 ==> (d matches Dock::Reaper(b) && b as int == (0 - id as int) % 256),
    {
        if id < 0 {
            let m: i32 = -id;
            Dock::Reaper((m % 256) as u8)
        } else if id == 0 {
            Dock::UnDocked
        } else {
            Dock::ImGui(id as u32)
        }
    }
}

} // verus!
