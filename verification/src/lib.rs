//! Verified core of ClipBox, a small Windows utility that collects files
//! dropped onto a floating window into a "box" directory.
//!
//! The library holds the logic of the application: UTF-16 text handling for
//! the Win32 API, the naming of box directories, the planning of the copies
//! made into a box, the recognition of the foreground application, and the
//! decisions of the window procedures.  All calls into Win32 live in `app/`.
pub mod tools;
pub mod storage;
pub mod enums;
pub mod windows;
pub mod constants;
