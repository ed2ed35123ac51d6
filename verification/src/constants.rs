use vstd::prelude::*;

verus! {

/// Name of the application, and of its data directory.
pub const APP_NAME: &'static str = "ClipBox";

/// Control identifier of the expand button.
pub const ID_EXPAND_BUTTON: i32 = 1;

} // verus!
