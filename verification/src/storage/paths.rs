use vstd::prelude::*;

use crate::storage::clipbox::{box_name, box_name_of, join_name};

verus! {

/// A box directory, known by its location alone.
pub struct ClipBox {
    /// Location of the box directory, as its path components.
    pub path: Vec<String>,
}

impl ClipBox {
    /// The box made at `secs` seconds after the Unix epoch in the directory
    /// `base`: its path is `base` joined with the box name.
    pub fn new(base: &Vec<String>, secs: u64) -> (res: ClipBox)
        ensures
            res.path.deep_view() == base.deep_view().push(box_name_of(secs as nat)),
    {
        let name = box_name(secs);
        ClipBox { path: join_name(base, &name) }
    }
}

} // verus!
