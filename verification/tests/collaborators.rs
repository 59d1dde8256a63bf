use tiling_core::layout::{Layout, TileLayout};
use tiling_core::stack::Stack;
use tiling_core::x::{Connection, ConnectionCall, WindowGeometry, WindowId};
use tiling_core::Viewport;

#[test]
fn empty_stack_reports_no_focused_entry() {
    let stack = Stack::new();
    assert!(stack.is_empty());
    assert_eq!(stack.len(), 0);
    assert_eq!(stack.focused(), None);
}

#[test]
fn first_pushed_window_is_focused() {
    let mut stack = Stack::new();
    stack.push(WindowId(10));
    stack.push(WindowId(20));
    assert!(!stack.is_empty());
    assert_eq!(stack.len(), 2);
    assert_eq!(stack.focused(), Some(WindowId(10)));
    assert_eq!(stack.window_at(1), WindowId(20));
    stack.focus(1);
    assert_eq!(stack.focused(), Some(WindowId(20)));
}

#[test]
fn default_geometry_covers_the_viewport() {
    let viewport = Viewport { x: 7, y: 8, width: 90, height: 100 };
    assert_eq!(
        WindowGeometry::default(&viewport),
        WindowGeometry { x: 7, y: 8, width: 90, height: 100 }
    );
}

#[test]
fn connection_records_calls_in_order() {
    let mut connection = Connection::new();
    assert!(connection.calls().is_empty());
    connection.map_window(&WindowId(1));
    connection.disable_window_tracking(&WindowId(2));
    connection.enable_window_tracking(&WindowId(2));
    assert_eq!(
        connection.calls().as_slice(),
        &[
            ConnectionCall::MapWindow(WindowId(1)),
            ConnectionCall::DisableWindowTracking(WindowId(2)),
            ConnectionCall::EnableWindowTracking(WindowId(2)),
        ]
    );
}

#[test]
fn odd_viewport_width_truncates_the_half() {
    let strategy = TileLayout::new(String::from("tile"), 0, 0);
    let viewport = Viewport { x: 0, y: 0, width: 1601, height: 900 };
    let mut connection = Connection::new();
    let mut stack = Stack::new();
    stack.push(WindowId(1));
    stack.push(WindowId(2));
    strategy.layout(&mut connection, &viewport, &stack, &None);
    assert_eq!(
        connection.calls().as_slice(),
        &[
            ConnectionCall::ConfigureWindow(
                WindowId(1),
                WindowGeometry { x: 0, y: 0, width: 960, height: 900 },
            ),
            ConnectionCall::ConfigureWindow(
                WindowId(2),
                WindowGeometry { x: 960, y: 0, width: 640, height: 900 },
            ),
        ]
    );
}
