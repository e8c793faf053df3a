//! The host's one-byte boolean.
use vstd::prelude::*;

verus! {

/// A boolean as the host stores it: zero is false, anything else true.
#[derive(Debug, Clone, Copy, PartialEq, Eq, Structural)]
pub struct LVBool(pub u8);

impl From<bool> for LVBool {
    fn from(value: bool) -> (r: LVBool) {
        if value {
            LVBool(1)
        } else {
            LVBool(0)
        }
    }
}

impl vstd::std_specs::convert::FromSpecImpl<bool> for LVBool {
    open spec fn obeys_from_spec() -> bool {
        true
    }

    open spec fn from_spec(value: bool) -> LVBool {
        if value {
            LVBool(1)
        } else {
            LVBool(0)
        }
    }
}

impl From<LVBool> for bool {
    fn from(value: LVBool) -> (r: bool) {
        value.0 != 0
    }
}

impl vstd::std_specs::convert::FromSpecImpl<LVBool> for bool {
    open spec fn obeys_from_spec() -> bool {
        true
    }

    open spec fn from_spec(value: LVBool) -> bool {
        value.0 != 0
    }
}

} // verus!
