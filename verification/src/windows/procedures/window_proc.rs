use vstd::prelude::*;

use windows_sys::Win32::Foundation::HWND;
use windows_sys::Win32::UI::WindowsAndMessaging::HICON;

use crate::windows::layout::{icon_placement, icon_placement_fits, icon_placement_of, Placement, Rect};

verus! {

/// How many times its hotspot extent an icon box is made for a dropped file.
pub const DROPPED_ICON_SCALE: i32 = 4;

/// What the drop window procedure remembers between messages: the icon of
/// the latest dropped file and the icon boxes made so far, oldest first.
pub struct DropWindowState {
    pub icon: Option<HICON>,
    pub icon_boxes: Vec<HWND>,
}

impl DropWindowState {
    /// The state before any message: no icon and no icon box.
    pub fn new() -> (res: DropWindowState)
        ensures
            res.icon is None,
            res.icon_boxes@ == Seq::<HWND>::empty(),
    {
        DropWindowState { icon: None, icon_boxes: Vec::new() }
    }

    /// Records the outcome of looking up a dropped file's icon: when
    /// `SHGetFileInfoW` succeeded (`found`), its icon becomes the window's
    /// icon, and an icon box is to be made for it.  Returns whether it is.
    pub fn record_file_icon(&mut self, found: bool, icon: HICON) -> (make_icon_box: bool)
        ensures
            make_icon_box == found,
            final(self).icon == (if found { Some(icon) } else { old(self).icon }),
            final(self).icon_boxes@ == old(self).icon_boxes@,
    {
        if found {
            self.icon = Some(icon);
        }
        found
    }

    /// Where the icon box of a dropped file goes in the client area `client`,
    /// given the hotspot of the file's icon: centred, four times the hotspot
    /// extent.
    pub fn icon_box_placement(client: Rect, hotspot_x: u32, hotspot_y: u32) -> (res: Placement)
        requires
            icon_placement_fits(client, hotspot_x, hotspot_y, DROPPED_ICON_SCALE),
        ensures
            res == icon_placement_of(client, hotspot_x, hotspot_y, DROPPED_ICON_SCALE),
    {
        icon_placement(client, hotspot_x, hotspot_y, DROPPED_ICON_SCALE)
    }

    /// Records a new icon box.  Returns whether the expand button is to be
    /// made, which is whenever there is an icon box.
    pub fn add_icon_box(&mut self, icon_box: HWND) -> (show_expand_button: bool)
        ensures
            final(self).icon_boxes@ == old(self).icon_boxes@.push(icon_box),
            final(self).icon == old(self).icon,
            show_expand_button == (final(self).icon_boxes@.len() > 0),
            show_expand_button,
    {
        self.icon_boxes.push(icon_box);
        self.icon_boxes.len() > 0
    }
}

} // verus!
