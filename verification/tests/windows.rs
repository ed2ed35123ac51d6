use clipbox::constants::ID_EXPAND_BUTTON;
use clipbox::enums::app::App;
use clipbox::windows::layout::{circular_region, expand_button_placement, icon_placement, Placement, Point, Rect};
use clipbox::windows::procedures::icon_box_proc::{IconBoxAction, IconBoxEvent, IconBoxState};
use clipbox::windows::procedures::window_proc::DropWindowState;
use clipbox::windows::window::{
    button_command, foreground_window, is_icon_box_class, message_loop_step, ButtonCommand,
    LoopStep, MainWindowState, PaintPlan,
};

fn class_buffer(name: &str) -> Vec<u16> {
    let mut buf = vec![0u16; 256];
    for (i, u) in name.encode_utf16().enumerate() {
        buf[i] = u;
    }
    buf
}

fn rect(left: i32, top: i32, right: i32, bottom: i32) -> Rect {
    Rect { left, top, right, bottom }
}

#[test]
fn explorer_window_is_recognised() {
    assert_eq!(foreground_window(77, &class_buffer("CabinetWClass")), (App::FileExplorer, Some(77)));
}

#[test]
fn other_windows_are_unsupported() {
    assert_eq!(foreground_window(77, &class_buffer("Notepad")), (App::Unsupported, None));
    assert_eq!(foreground_window(77, &class_buffer("CabinetWClass2")), (App::Unsupported, None));
    assert_eq!(foreground_window(77, &class_buffer("")), (App::Unsupported, None));
}

#[test]
fn message_loop_stops_on_quit_and_error() {
    assert_eq!(message_loop_step(0), LoopStep::Stop);
    assert_eq!(message_loop_step(-1), LoopStep::Stop);
    assert_eq!(message_loop_step(1), LoopStep::Dispatch);
    assert_eq!(message_loop_step(42), LoopStep::Dispatch);
}

#[test]
fn expand_button_command_is_recognised() {
    assert_eq!(button_command(ID_EXPAND_BUTTON as usize), ButtonCommand::Expand);
    assert_eq!(button_command(ID_EXPAND_BUTTON as usize + 1), ButtonCommand::Unrecognized);
}

#[test]
fn icon_box_class_is_recognised() {
    assert!(is_icon_box_class(&class_buffer("ICON_BOX")));
    assert!(!is_icon_box_class(&class_buffer("ICON_BOX2")));
    assert!(!is_icon_box_class(&class_buffer("Button")));
}

#[test]
fn icon_placement_centres_scaled_icon() {
    assert_eq!(
        icon_placement(rect(0, 0, 160, 160), 16, 16, 2),
        Placement { x: 64, y: 64, width: 32, height: 32 }
    );
    assert_eq!(
        icon_placement(rect(10, 20, 170, 120), 16, 8, 4),
        Placement { x: 48, y: 34, width: 64, height: 32 }
    );
}

#[test]
fn icon_placement_rounds_toward_zero() {
    assert_eq!(
        icon_placement(rect(0, 0, 10, 11), 16, 16, 2),
        Placement { x: -11, y: -10, width: 32, height: 32 }
    );
}

#[test]
fn expand_button_sits_above_bottom_edge() {
    assert_eq!(
        expand_button_placement(rect(0, 0, 160, 160)),
        Placement { x: 40, y: 130, width: 80, height: 20 }
    );
}

#[test]
fn circular_region_uses_smaller_side() {
    assert_eq!(circular_region(rect(0, 0, 64, 48)), rect(0, 0, 48, 48));
    assert_eq!(circular_region(rect(5, 5, 68, 68)), rect(5, 5, 67, 67));
}

#[test]
fn main_window_paints_icon_box_once() {
    let mut state = MainWindowState::new();
    let client = rect(0, 0, 160, 160);
    assert_eq!(state.paint(client, 0, 0), PaintPlan::Nothing);
    assert!(!state.record_file_icon(false, 9));
    assert_eq!(state.icon, None);
    assert!(state.record_file_icon(true, 9));
    assert_eq!(
        state.paint(client, 16, 16),
        PaintPlan::CreateIconBox {
            icon: 9,
            icon_at: Placement { x: 64, y: 64, width: 32, height: 32 },
            button: Placement { x: 40, y: 130, width: 80, height: 20 },
        }
    );
    state.set_icon_box(0);
    assert!(matches!(state.paint(client, 16, 16), PaintPlan::CreateIconBox { .. }));
    state.set_icon_box(123);
    assert_eq!(state.paint(client, 16, 16), PaintPlan::Nothing);
}

#[test]
fn drop_window_adds_icon_boxes_in_order() {
    let mut state = DropWindowState::new();
    assert!(state.record_file_icon(true, 4));
    assert_eq!(state.icon, Some(4));
    assert_eq!(
        DropWindowState::icon_box_placement(rect(0, 0, 160, 160), 16, 16),
        Placement { x: 48, y: 48, width: 64, height: 64 }
    );
    assert!(state.add_icon_box(100));
    assert!(state.add_icon_box(101));
    assert_eq!(state.icon_boxes, vec![100, 101]);
    assert!(!state.record_file_icon(false, 5));
    assert_eq!(state.icon, Some(4));
}

#[test]
fn icon_box_paints_last_icon_set() {
    let mut state = IconBoxState::new();
    assert_eq!(state.step(IconBoxEvent::SetIcon { icon: 7 }), IconBoxAction::Done);
    assert_eq!(state.step(IconBoxEvent::SetIcon { icon: 8 }), IconBoxAction::Done);
    assert_eq!(
        state.step(IconBoxEvent::Paint { client: rect(0, 0, 96, 96), hotspot_x: 16, hotspot_y: 16 }),
        IconBoxAction::Draw { icon: 8, placement: Placement { x: 24, y: 24, width: 48, height: 48 } }
    );
}

#[test]
fn icon_box_drag_follows_cursor() {
    let mut state = IconBoxState::new();
    let window_rect = rect(100, 200, 164, 264);
    assert_eq!(
        state.step(IconBoxEvent::ButtonDown { window_rect, cursor: Point { x: 110, y: 210 } }),
        IconBoxAction::Capture
    );
    assert_eq!(
        state.step(IconBoxEvent::MouseMove { cursor: Point { x: 150, y: 260 }, left_button: true }),
        IconBoxAction::MoveTo(Placement { x: 40, y: 50, width: 64, height: 64 })
    );
    assert_eq!(
        state.step(IconBoxEvent::MouseMove { cursor: Point { x: 151, y: 261 }, left_button: false }),
        IconBoxAction::Done
    );
    assert_eq!(state.last_cursor, Point { x: 151, y: 261 });
    assert_eq!(state.step(IconBoxEvent::ButtonUp), IconBoxAction::Release);
    assert_eq!(state.step(IconBoxEvent::Other), IconBoxAction::Default);
    assert_eq!(state.icon, None);
}

#[test]
fn icon_box_keeps_icon_while_dragging() {
    let mut state = IconBoxState::new();
    state.step(IconBoxEvent::SetIcon { icon: 3 });
    state.step(IconBoxEvent::ButtonDown { window_rect: rect(0, 0, 10, 10), cursor: Point { x: 1, y: 1 } });
    state.step(IconBoxEvent::MouseMove { cursor: Point { x: 5, y: 5 }, left_button: true });
    state.step(IconBoxEvent::ButtonUp);
    assert_eq!(state.icon, Some(3));
}

#[test]
fn main_window_paint_with_box_needs_no_button_room() {
    let mut state = MainWindowState::new();
    state.record_file_icon(true, 9);
    state.set_icon_box(55);
    let client = rect(0, 0, -2147483600, -2147483600);
    assert_eq!(state.paint(client, 0, 0), PaintPlan::Nothing);
}
