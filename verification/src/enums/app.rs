use vstd::prelude::*;

verus! {

/// The application that owns the foreground window.
#[derive(Debug, Clone, Copy, PartialEq, Eq, Structural)]
pub enum App {
    /// A File Explorer window.
    FileExplorer,
    /// Any other application.
    Unsupported,
}

} // verus!
