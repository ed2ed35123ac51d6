pub mod clipbox;
pub mod files;
pub mod paths;
pub mod state;
