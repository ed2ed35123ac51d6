use vstd::prelude::*;

use windows_sys::Win32::Foundation::{BOOL, HWND, WPARAM};
use windows_sys::Win32::UI::WindowsAndMessaging::HICON;

use crate::constants::ID_EXPAND_BUTTON;
use crate::enums::app::App;
use crate::tools::encoding::{
    before_nul, decode_utf16, decode_utf16_lossy, decode_wide_lossy, trim_end_nul,
    trim_end_nul_chars, WideChar,
};
use crate::windows::layout::{
    expand_button_fits, expand_button_placement, expand_button_placement_of, icon_placement,
    icon_placement_fits, icon_placement_of, Placement, Rect,
};

verus! {

/// The window class name of File Explorer windows.
pub open spec fn explorer_class_name() -> Seq<char> {
    seq!['C', 'a', 'b', 'i', 'n', 'e', 't', 'W', 'C', 'l', 'a', 's', 's']
}

/// Whether the buffer that `GetClassNameW` filled names File Explorer's
/// window class: decoded lossily, without trailing NUL characters.
pub open spec fn is_explorer_class(class_name: Seq<u16>) -> bool {
    trim_end_nul(decode_utf16_lossy(class_name)) == explorer_class_name()
}

/// Whether two character slices hold the same characters.
pub fn chars_equal(a: &[char], b: &[char]) -> (res: bool)
    ensures
        res == (a@ == b@),
{
    if a.len() != b.len() {
        return false;
    }
    let n = a.len();
    let mut i: usize = 0;
    while i < n
        invariant
            n == a@.len(),
            n == b@.len(),
            i <= n,
            forall|j: int| 0 <= j < i ==> a@[j] == b@[j],
        decreases n - i,
    {
        if a[i] != b[i] {
            return false;
        }
        i = i + 1;
    }
    assert(a@ =~= b@);
    true
}

/// Which application owns the foreground window `handle`, given the buffer
/// that `GetClassNameW` filled with its class name.  Only a File Explorer
/// window is handed back.
pub fn foreground_window(handle: HWND, class_name: &[u16]) -> (res: (App, Option<HWND>))
    ensures
        is_explorer_class(class_name@) ==> res == (App::FileExplorer, Some(handle)),
        !is_explorer_class(class_name@) ==> res == (App::Unsupported, None::<HWND>),
{
    let mut name = decode_wide_lossy(class_name);
    trim_end_nul_chars(&mut name);
    let explorer = vec!['C', 'a', 'b', 'i', 'n', 'e', 't', 'W', 'C', 'l', 'a', 's', 's'];
    assert(explorer@ =~= explorer_class_name());
    if chars_equal(name.as_slice(), explorer.as_slice()) {
        (App::FileExplorer, Some(handle))
    } else {
        (App::Unsupported, None)
    }
}

/// What the message loop does with the result of `GetMessageW`.
#[derive(Debug, Clone, Copy, PartialEq, Eq, Structural)]
pub enum LoopStep {
    /// Translate and dispatch the message, then wait for the next one.
    Dispatch,
    /// Leave the loop: `WM_QUIT` arrived (0) or `GetMessageW` failed (-1).
    Stop,
}

/// The message loop's decision on the result of `GetMessageW`.
pub fn message_loop_step(get_message_result: BOOL) -> (res: LoopStep)
    ensures
        res == (if get_message_result == 0 || get_message_result == -1 {
            LoopStep::Stop
        } else {
            LoopStep::Dispatch
        }),
{
    if get_message_result == 0 || get_message_result == -1 {
        LoopStep::Stop
    } else {
        LoopStep::Dispatch
    }
}

/// The button that a `WM_COMMAND` message comes from.
#[derive(Debug, Clone, Copy, PartialEq, Eq, Structural)]
pub enum ButtonCommand {
    /// The expand button: open the expanded window.
    Expand,
    /// Any other control.
    Unrecognized,
}

/// The button named by the `wparam` of a `WM_COMMAND` message, read as an `i32`.
pub fn button_command(wparam: WPARAM) -> (res: ButtonCommand)
    ensures
        res == (if wparam as i32 == ID_EXPAND_BUTTON {
            ButtonCommand::Expand
        } else {
            ButtonCommand::Unrecognized
        }),
{
    let button_id = wparam as i32;
    if button_id == ID_EXPAND_BUTTON {
        ButtonCommand::Expand
    } else {
        ButtonCommand::Unrecognized
    }
}

/// The window class name of icon boxes.
pub open spec fn icon_box_class_name() -> Seq<char> {
    seq!['I', 'C', 'O', 'N', '_', 'B', 'O', 'X']
}

/// Whether the NUL-terminated class name that `GetClassNameW` wrote into
/// `class_name` is that of an icon box.  The name must be valid UTF-16.
pub fn is_icon_box_class(class_name: &[u16]) -> (res: bool)
    requires
        exists|j: int| 0 <= j < class_name@.len() && class_name@[j] == 0,
        decode_utf16(before_nul(class_name@)) is Some,
    ensures
        res == (decode_utf16(before_nul(class_name@)) == Some(icon_box_class_name())),
{
    let wide = WideChar::from_ptr(class_name);
    proof {
        crate::tools::encoding::lemma_before_nul_idempotent(class_name@);
    }
    let name = wide.to_string();
    let mut chars: Vec<char> = Vec::new();
    for c in it: name.as_str().chars()
        invariant
            it.seq() == name@,
            chars@ == name@.take(it.index()),
    {
        assert(name@.take(it.index() + 1) =~= name@.take(it.index()).push(c));
        chars.push(c);
    }
    assert(name@.take(name@.len() as int) =~= name@);
    let expected = vec!['I', 'C', 'O', 'N', '_', 'B', 'O', 'X'];
    assert(expected@ =~= icon_box_class_name());
    chars_equal(chars.as_slice(), expected.as_slice())
}

/// How many times its hotspot extent the main window draws the dropped icon.
pub const MAIN_ICON_SCALE: i32 = 2;

/// What the main window procedure remembers between messages: the icon of
/// the latest dropped file, and the icon box it made.
#[derive(Debug, Clone, Copy, PartialEq, Eq, Structural)]
pub struct MainWindowState {
    pub icon: Option<HICON>,
    pub icon_box: Option<HWND>,
}

/// What the main window does on `WM_PAINT`.
#[derive(Debug, Clone, Copy, PartialEq, Eq, Structural)]
pub enum PaintPlan {
    /// Only begin and end painting.
    Nothing,
    /// Create the icon box at `icon_at`, draw `icon` there, and create the
    /// expand button at `button`.
    CreateIconBox { icon: HICON, icon_at: Placement, button: Placement },
}

/// Whether the main window can paint in `state` without overflow.
/// The icon's placement is computed whenever there is an icon; the button's
/// only when the icon box is to be made.
pub open spec fn paint_fits(state: MainWindowState, client: Rect, hotspot_x: u32, hotspot_y: u32) -> bool {
    state.icon is Some ==> {
        &&& icon_placement_fits(client, hotspot_x, hotspot_y, MAIN_ICON_SCALE)
        &&& (state.icon_box is None || state.icon_box == Some(0isize)) ==> expand_button_fits(client)
    }
}

/// The main window's paint decision: once a dropped file's icon is known and
/// no icon box exists yet (or the one recorded is the null window), the icon
/// box and the expand button are made.
pub open spec fn paint_plan_of(state: MainWindowState, client: Rect, hotspot_x: u32, hotspot_y: u32) -> PaintPlan {
    match state.icon {
        None => PaintPlan::Nothing,
        Some(icon) => if state.icon_box is None || state.icon_box == Some(0isize) {
            PaintPlan::CreateIconBox {
                icon,
                icon_at: icon_placement_of(client, hotspot_x, hotspot_y, MAIN_ICON_SCALE),
                button: expand_button_placement_of(client),
            }
        } else {
            PaintPlan::Nothing
        },
    }
}

impl MainWindowState {
    /// The state before any message: no icon and no icon box.
    pub fn new() -> (res: MainWindowState)
        ensures
            res.icon is None,
            res.icon_box is None,
    {
        MainWindowState { icon: None, icon_box: None }
    }

    /// Records the outcome of looking up a dropped file's icon: when
    /// `SHGetFileInfoW` succeeded (`found`), its icon becomes the window's
    /// icon.  Returns whether the window must be redrawn.
    pub fn record_file_icon(&mut self, found: bool, icon: HICON) -> (redraw: bool)
        ensures
            redraw == found,
            final(self).icon == (if found { Some(icon) } else { old(self).icon }),
            final(self).icon_box == old(self).icon_box,
    {
        if found {
            self.icon = Some(icon);
        }
        found
    }

    /// What to do on `WM_PAINT`, given the client rectangle and, when the
    /// window has an icon, that icon's hotspot.
    pub fn paint(&self, client: Rect, hotspot_x: u32, hotspot_y: u32) -> (res: PaintPlan)
        requires
            paint_fits(*self, client, hotspot_x, hotspot_y),
        ensures
            res == paint_plan_of(*self, client, hotspot_x, hotspot_y),
    {
        match self.icon {
            None => PaintPlan::Nothing,
            Some(icon) => {
                let icon_at = icon_placement(client, hotspot_x, hotspot_y, MAIN_ICON_SCALE);
                let no_box = match self.icon_box {
                    None => true,
                    Some(h) => h == 0,
                };
                if no_box {
                    let button = expand_button_placement(client);
                    PaintPlan::CreateIconBox { icon, icon_at, button }
                } else {
                    PaintPlan::Nothing
                }
            },
        }
    }

    /// Records the icon box made while painting.
    pub fn set_icon_box(&mut self, icon_box: HWND)
        ensures
            final(self).icon_box == Some(icon_box),
            final(self).icon == old(self).icon,
    {
        self.icon_box = Some(icon_box);
    }
}

/// The icon box is made once: after it is recorded, painting makes no other.
pub proof fn lemma_icon_box_made_once(
    state: MainWindowState,
    icon_box: HWND,
    client: Rect,
    hotspot_x: u32,
    hotspot_y: u32,
)
    requires
        icon_box != 0,
    ensures
        paint_plan_of(MainWindowState { icon_box: Some(icon_box), ..state }, client, hotspot_x, hotspot_y)
            == PaintPlan::Nothing,
{
}

} // verus!
