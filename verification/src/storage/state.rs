use vstd::prelude::*;

use std::sync::{Arc, Mutex};

use crate::storage::clipbox::ClipBox;

verus! {

/// `std::sync::Mutex`, whose contents Verus does not see.
#[verifier::external_type_specification]
#[verifier::external_body]
#[verifier::reject_recursive_types(T)]
pub struct ExMutex<T: ?Sized>(Mutex<T>);

/// The path components of the box that a mutex was created holding, as
/// `(path, curr_path)`.
pub uninterp spec fn initial_clip_box(m: Mutex<ClipBox>) -> (Seq<Seq<char>>, Seq<Seq<char>>);

/// `Mutex::new`: the new mutex holds the given box.  What the mutex holds
/// after it is locked and changed is left unsaid.
#[verifier::external_body]
fn new_mutex(clip_box: ClipBox) -> (res: Mutex<ClipBox>)
    ensures
        initial_clip_box(res) == (clip_box.path.deep_view(), clip_box.curr_path.deep_view()),
{
    Mutex::new(clip_box)
}

/// State shared between threads: the current box, behind a mutex.
pub struct SharedState {
    pub clip_box: Arc<Mutex<ClipBox>>,
}

impl SharedState {
    /// Shared state holding `clip_box`.
    pub fn new(clip_box: ClipBox) -> (res: SharedState)
        ensures
            initial_clip_box(*res.clip_box) == (
                clip_box.path.deep_view(),
                clip_box.curr_path.deep_view(),
            ),
    {
        SharedState { clip_box: Arc::new(new_mutex(clip_box)) }
    }
}

} // verus!
