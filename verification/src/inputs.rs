//! The value set handed to a numeric input widget: one to four integers
//! together with their arity.

use vstd::prelude::*;
use vstd::std_specs::convert::FromSpec;

verus! {

/// One to four integers for a numeric input, with the arity recorded.
#[derive(Debug, Clone, Copy, PartialEq, Eq)]
pub struct IntInputValues<T> {
    pub values: T,
    pub len: u8,
}

impl<T> IntInputValues<T> {
    /// How many integers the widget edits.
    pub fn len(&self) -> (l: u8)
        ensures
            l == self.len,
    {
        self.len
    }
}

impl From<i32> for IntInputValues<i32> {
    fn from(values: i32) -> (r: IntInputValues<i32>) {
        IntInputValues { values, len: 1 }
    }
}

impl vstd::std_specs::convert::FromSpecImpl<i32> for IntInputValues<i32> {
    open spec fn obeys_from_spec() -> bool {
        true
    }

    open spec fn from_spec(values: i32) -> IntInputValues<i32> {
        IntInputValues { values, len: 1 }
    }
}

impl From<(i32, i32)> for IntInputValues<(i32, i32)> {
    fn from(values: (i32, i32)) -> (r: IntInputValues<(i32, i32)>) {
        IntInputValues { values, len: 2 }
    }
}

impl vstd::std_specs::convert::FromSpecImpl<(i32, i32)> for IntInputValues<(i32, i32)> {
    open spec fn obeys_from_spec() -> bool {
        true
    }

    open spec fn from_spec(values: (i32, i32)) -> IntInputValues<(i32, i32)> {
        IntInputValues { values, len: 2 }
    }
}

impl From<(i32, i32, i32)> for IntInputValues<(i32, i32, i32)> {
    fn from(values: (i32, i32, i32)) -> (r: IntInputValues<(i32, i32, i32)>) {
        IntInputValues { values, len: 3 }
    }
}

impl vstd::std_specs::convert::FromSpecImpl<(i32, i32, i32)> for IntInputValues<(i32, i32, i32)> {
    open spec fn obeys_from_spec() -> bool {
        true
    }

    open spec fn from_spec(values: (i32, i32, i32)) -> IntInputValues<(i32, i32, i32)> {
        IntInputValues { values, len: 3 }
    }
}

impl From<(i32, i32, i32, i32)> for IntInputValues<(i32, i32, i32, i32)> {
    fn from(values: (i32, i32, i32, i32)) -> (r: IntInputValues<(i32, i32, i32, i32)>) {
        IntInputValues { values, len: 4 }
    }
}

impl vstd::std_specs::convert::FromSpecImpl<(i32, i32, i32, i32)> for IntInputValues<(i32, i32, i32, i32)> {
    open spec fn obeys_from_spec() -> bool {
        true
    }

    open spec fn from_spec(values: (i32, i32, i32, i32)) -> IntInputValues<(i32, i32, i32, i32)> {
        IntInputValues { values, len: 4 }
    }
}

} // verus!
