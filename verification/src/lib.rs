//! A header-driven binding generator for a native GUI function table.
//!
//! The library reads a machine-readable C-style header that describes a
//! plugin's exported function table, derives a structured model from it
//! (opaque types, integer constants, and function records), and emits a
//! typed wrapper as source text.  A small runtime component models the
//! per-symbol load-and-dispatch decisions of the generated wrapper: every
//! symbol is resolved independently, a missing symbol never aborts the
//! load, and invoking an unresolved function is reported as an error that
//! names the function.

use vstd::prelude::*;

pub mod dimensions;
pub mod emit;
pub mod flags;
pub mod inputs;
pub mod keyboard;
pub mod laws;
pub mod model;
pub mod runtime;
pub mod scan;
pub mod text;
pub mod types;
pub mod window;

pub use dimensions::Position;
pub use dimensions::Rect;
pub use dimensions::Size;
pub use flags::ContextFlags;
pub use inputs::IntInputValues;
pub use keyboard::KeyBinding;
pub use keyboard::KeyCode;
pub use keyboard::KeyModifier;
pub use window::Dock;

verus! {

/// The fixed library prefix that is stripped from every declared name
/// before it enters the model.
pub fn library_prefix() -> (s: &'static str)
    ensures
        s@ == crate::text::lib_prefix(),
{
    let s = "ImGui_";
    proof {
        reveal_strlit("ImGui_");
        assert(s@ =~= crate::text::lib_prefix());
    }
    s
}

} // verus!
