pub mod encoding;
