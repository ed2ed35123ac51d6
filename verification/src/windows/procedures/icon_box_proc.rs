use vstd::prelude::*;

use windows_sys::Win32::UI::WindowsAndMessaging::HICON;

use crate::windows::layout::{fits_i32, icon_placement, icon_placement_fits, icon_placement_of, Placement, Point, Rect};

verus! {

/// How many times its hotspot extent an icon box draws its icon.
pub const ICON_BOX_ICON_SCALE: i32 = 3;

/// What the icon box procedure remembers between messages: the icon it
/// draws, and where the cursor and the window were when the left button went
/// down, and the latest cursor position.
#[derive(Debug, Clone, Copy, PartialEq, Eq, Structural)]
pub struct IconBoxState {
    pub icon: Option<HICON>,
    pub cursor_at_press: Point,
    pub last_cursor: Point,
    pub window_at_press: Rect,
}

/// A message to an icon box, with what the procedure reads from the system
/// while handling it.
#[derive(Debug, Clone, Copy, PartialEq, Eq, Structural)]
pub enum IconBoxEvent {
    /// `WM_LBUTTONDOWN`, with the box's window rectangle and the cursor position.
    ButtonDown { window_rect: Rect, cursor: Point },
    /// `WM_LBUTTONUP`.
    ButtonUp,
    /// `WM_MOUSEMOVE`, with the cursor position and whether the key state is
    /// exactly "left button down".
    MouseMove { cursor: Point, left_button: bool },
    /// `WM_SETICON`, carrying the icon to draw.
    SetIcon { icon: HICON },
    /// `WM_PAINT`, with the client rectangle and the hotspot of the current icon.
    Paint { client: Rect, hotspot_x: u32, hotspot_y: u32 },
    /// Any other message.
    Other,
}

/// What the icon box procedure does in answer to a message.
#[derive(Debug, Clone, Copy, PartialEq, Eq, Structural)]
pub enum IconBoxAction {
    /// Capture the mouse, and answer 0.
    Capture,
    /// Release the mouse capture, and answer 0.
    Release,
    /// Move the box to the placement, and answer 0.
    MoveTo(Placement),
    /// Answer 0 and do nothing more.
    Done,
    /// Draw `icon` at the placement, and answer 0.
    Draw { icon: HICON, placement: Placement },
    /// Hand the message to `DefWindowProcW`.
    Default,
}

/// Where a drag moves the box: by the cursor's offset from where the button
/// went down, keeping the box's size.
pub open spec fn drag_placement_of(state: IconBoxState, cursor: Point) -> Placement {
    Placement {
        x: (cursor.x - state.cursor_at_press.x) as i32,
        y: (cursor.y - state.cursor_at_press.y) as i32,
        width: (state.window_at_press.right - state.window_at_press.left) as i32,
        height: (state.window_at_press.bottom - state.window_at_press.top) as i32,
    }
}

/// Whether the icon box procedure can handle `event` in `state`: a paint
/// needs an icon, and the arithmetic must not overflow.
pub open spec fn icon_box_event_ok(state: IconBoxState, event: IconBoxEvent) -> bool {
    match event {
        IconBoxEvent::MouseMove { cursor, left_button } => {
            &&& fits_i32(state.window_at_press.right - state.window_at_press.left)
            &&& fits_i32(state.window_at_press.bottom - state.window_at_press.top)
            &&& fits_i32(cursor.x - state.cursor_at_press.x)
            &&& fits_i32(cursor.y - state.cursor_at_press.y)
        },
        IconBoxEvent::Paint { client, hotspot_x, hotspot_y } => {
            &&& state.icon is Some
            &&& icon_placement_fits(client, hotspot_x, hotspot_y, ICON_BOX_ICON_SCALE)
        },
        _ => true,
    }
}

/// The icon box procedure as a function from state and message to the next
/// state and the action taken.
pub open spec fn icon_box_next(state: IconBoxState, event: IconBoxEvent) -> (IconBoxState, IconBoxAction) {
    match event {
        IconBoxEvent::ButtonDown { window_rect, cursor } => (
            IconBoxState { window_at_press: window_rect, cursor_at_press: cursor, ..state },
            IconBoxAction::Capture,
        ),
        IconBoxEvent::ButtonUp => (state, IconBoxAction::Release),
        IconBoxEvent::MouseMove { cursor, left_button } => {
            let next = IconBoxState { last_cursor: cursor, ..state };
            if left_button {
                (next, IconBoxAction::MoveTo(drag_placement_of(state, cursor)))
            } else {
                (next, IconBoxAction::Done)
            }
        },
        IconBoxEvent::SetIcon { icon } => (IconBoxState { icon: Some(icon), ..state }, IconBoxAction::Done),
        IconBoxEvent::Paint { client, hotspot_x, hotspot_y } => (
            state,
            IconBoxAction::Draw {
                icon: state.icon.unwrap(),
                placement: icon_placement_of(client, hotspot_x, hotspot_y, ICON_BOX_ICON_SCALE),
            },
        ),
        IconBoxEvent::Other => (state, IconBoxAction::Default),
    }
}

impl IconBoxState {
    /// The state before any message: no icon, everything at zero.
    pub fn new() -> (res: IconBoxState)
        ensures
            res.icon is None,
            res.cursor_at_press == (Point { x: 0, y: 0 }),
            res.last_cursor == (Point { x: 0, y: 0 }),
            res.window_at_press == (Rect { left: 0, top: 0, right: 0, bottom: 0 }),
    {
        IconBoxState {
            icon: None,
            cursor_at_press: Point { x: 0, y: 0 },
            last_cursor: Point { x: 0, y: 0 },
            window_at_press: Rect { left: 0, top: 0, right: 0, bottom: 0 },
        }
    }

    /// Handles one message to an icon box.
    pub fn step(&mut self, event: IconBoxEvent) -> (action: IconBoxAction)
        requires
            icon_box_event_ok(*old(self), event),
        ensures
            (*final(self), action) == icon_box_next(*old(self), event),
    {
        match event {
            IconBoxEvent::ButtonDown { window_rect, cursor } => {
                self.window_at_press = window_rect;
                self.cursor_at_press = cursor;
                IconBoxAction::Capture
            },
            IconBoxEvent::ButtonUp => IconBoxAction::Release,
            IconBoxEvent::MouseMove { cursor, left_button } => {
                self.last_cursor = cursor;
                let width = self.window_at_press.right - self.window_at_press.left;
                let height = self.window_at_press.bottom - self.window_at_press.top;
                let x = self.last_cursor.x - self.cursor_at_press.x;
                let y = self.last_cursor.y - self.cursor_at_press.y;
                if left_button {
                    IconBoxAction::MoveTo(Placement { x, y, width, height })
                } else {
                    IconBoxAction::Done
                }
            },
            IconBoxEvent::SetIcon { icon } => {
                self.icon = Some(icon);
                IconBoxAction::Done
            },
            IconBoxEvent::Paint { client, hotspot_x, hotspot_y } => {
                let icon = self.icon.unwrap();
                let placement = icon_placement(client, hotspot_x, hotspot_y, ICON_BOX_ICON_SCALE);
                IconBoxAction::Draw { icon, placement }
            },
            IconBoxEvent::Other => IconBoxAction::Default,
        }
    }
}

/// An icon box paints the icon that it was last sent.
pub proof fn lemma_paints_last_set_icon(
    state: IconBoxState,
    icon: HICON,
    client: Rect,
    hotspot_x: u32,
    hotspot_y: u32,
)
    ensures
        icon_box_next(
            icon_box_next(state, IconBoxEvent::SetIcon { icon }).0,
            IconBoxEvent::Paint { client, hotspot_x, hotspot_y },
        ).1 == (IconBoxAction::Draw {
            icon,
            placement: icon_placement_of(client, hotspot_x, hotspot_y, ICON_BOX_ICON_SCALE),
        }),
{
}

/// While the left button is held, the box moves by the cursor's offset from
/// where the button went down, and keeps the size it had then.
pub proof fn lemma_drag_follows_cursor(
    state: IconBoxState,
    window_rect: Rect,
    press: Point,
    cursor: Point,
)
    ensures
        icon_box_next(
            icon_box_next(state, IconBoxEvent::ButtonDown { window_rect, cursor: press }).0,
            IconBoxEvent::MouseMove { cursor, left_button: true },
        ).1 == IconBoxAction::MoveTo(
            Placement {
                x: (cursor.x - press.x) as i32,
                y: (cursor.y - press.y) as i32,
                width: (window_rect.right - window_rect.left) as i32,
                height: (window_rect.bottom - window_rect.top) as i32,
            },
        ),
{
}

/// A mouse move records the cursor and nothing else: the press point, the
/// window rectangle taken at the press and the icon stay as they were.
pub proof fn lemma_move_keeps_press(state: IconBoxState, cursor: Point, left_button: bool)
    ensures
        icon_box_next(state, IconBoxEvent::MouseMove { cursor, left_button }).0 == (IconBoxState {
            icon: state.icon,
            cursor_at_press: state.cursor_at_press,
            last_cursor: cursor,
            window_at_press: state.window_at_press,
        }),
{
}

/// Every move of a drag, however many moves came before it, places the box at
/// the cursor's offset from the point where the button went down, with the
/// size the window had then.
pub proof fn lemma_every_move_offsets_from_press(
    state: IconBoxState,
    window_rect: Rect,
    press: Point,
    first: Point,
    first_button: bool,
    cursor: Point,
)
    ensures
        ({
            let pressed = icon_box_next(state, IconBoxEvent::ButtonDown { window_rect, cursor: press }).0;
            let moved = icon_box_next(pressed, IconBoxEvent::MouseMove { cursor: first, left_button: first_button }).0;
            icon_box_next(moved, IconBoxEvent::MouseMove { cursor, left_button: true }).1
                == IconBoxAction::MoveTo(
                Placement {
                    x: (cursor.x - press.x) as i32,
                    y: (cursor.y - press.y) as i32,
                    width: (window_rect.right - window_rect.left) as i32,
                    height: (window_rect.bottom - window_rect.top) as i32,
                },
            )
        }),
{
}

/// Moving the mouse, pressing or releasing the button never changes the icon.
pub proof fn lemma_icon_kept(state: IconBoxState, event: IconBoxEvent)
    requires
        !(event is SetIcon),
    ensures
        icon_box_next(state, event).0.icon == state.icon,
{
}

} // verus!
