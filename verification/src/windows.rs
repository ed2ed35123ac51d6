pub mod layout;
pub mod procedures;
pub mod window;
