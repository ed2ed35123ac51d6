pub mod icon_box_proc;
pub mod window_proc;
