use cube_viewer::camera::CameraSettings;
use cube_viewer::cube::Cube;
use cube_viewer::cursor::{update_cursor, CursorPos, Key};
use cube_viewer::viewer::CubeState;

fn test_state() -> CubeState {
    CubeState {
        camera_settings: CameraSettings::new(90, 10),
        cursor: CursorPos { x: 400, y: 300 },
        cube: Cube::new(),
        screen_width: 800,
        screen_height: 600,
    }
}

#[test]
fn update_cursor_no_wraparound() {
    let mut state = test_state();

    // Test right movement
    let initial_x = state.cursor.x;
    state.update_cursor(Key::Right);
    assert_eq!(
        state.cursor.x,
        (initial_x + state.screen_width - 10) % state.screen_width
    );

    // Test left movement
    let initial_x = state.cursor.x;
    state.update_cursor(Key::Left);
    assert_eq!(
        state.cursor.x,
        (initial_x + 10 + state.screen_width) % state.screen_width
    );

    // Test down movement
    let initial_y = state.cursor.y;
    state.update_cursor(Key::Down);
    assert_eq!(
        state.cursor.y,
        (initial_y + 10 + state.screen_height) % state.screen_height
    );

    // Test up movement
    let initial_y = state.cursor.y;
    state.update_cursor(Key::Up);
    assert_eq!(
        state.cursor.y,
        (initial_y + state.screen_height - 10) % state.screen_height
    );
}

#[test]
fn update_cursor_with_wraparound() {
    let mut state = test_state();

    // Test x wraparound (right edge)
    state.cursor.x = state.screen_width - 5;
    state.update_cursor(Key::Right);
    assert!(state.cursor.x < state.screen_width);
    assert!(state.cursor.x >= 0);

    // Test x wraparound (left edge)
    state.cursor.x = 5;
    state.update_cursor(Key::Left);
    assert!(state.cursor.x < state.screen_width);
    assert!(state.cursor.x >= 0);

    // Test y wraparound (bottom edge)
    state.cursor.y = state.screen_height - 5;
    state.update_cursor(Key::Down);
    assert!(state.cursor.y < state.screen_height);
    assert!(state.cursor.y >= 0);

    // Test y wraparound (top edge)
    state.cursor.y = 5;
    state.update_cursor(Key::Up);
    assert!(state.cursor.y < state.screen_height);
    assert!(state.cursor.y >= 0);
}

#[test]
fn update_cursor_does_not_move_cursor_on_invalid_key() {
    let mut state = test_state();

    let initial_x = state.cursor.x;
    let initial_y = state.cursor.y;

    // Test that cursor doesn't move with invalid key
    state.update_cursor(Key::Other);
    assert_eq!(state.cursor.x, initial_x);
    assert_eq!(state.cursor.y, initial_y);
}

#[test]
fn cursor_crosses_left_edge_and_reenters_on_the_right() {
    // A right press moves x by -10: from x = 5 the cursor leaves the
    // left edge and re-enters at 795 on an 800-wide screen.
    let r = update_cursor(CursorPos { x: 5, y: 300 }, Key::Right, 800, 600);
    assert_eq!(r, CursorPos { x: 795, y: 300 });
}

#[test]
fn cursor_crosses_right_edge_and_reenters_on_the_left() {
    // A left press moves x by +10: from x = 795 the cursor leaves the
    // right edge and re-enters at 5.
    let r = update_cursor(CursorPos { x: 795, y: 300 }, Key::Left, 800, 600);
    assert_eq!(r, CursorPos { x: 5, y: 300 });
}

#[test]
fn cursor_crosses_vertical_edges_and_reenters() {
    // An up press moves y by -10 and wraps to the bottom edge.
    let r = update_cursor(CursorPos { x: 400, y: 5 }, Key::Up, 800, 600);
    assert_eq!(r, CursorPos { x: 400, y: 595 });
    // A down press from near the bottom wraps back to the top.
    let r2 = update_cursor(CursorPos { x: 400, y: 595 }, Key::Down, 800, 600);
    assert_eq!(r2, CursorPos { x: 400, y: 5 });
}

#[test]
fn opposite_moves_return_cursor_to_start() {
    let mut state = test_state();
    let start = state.cursor;

    state.update_cursor(Key::Left);
    state.update_cursor(Key::Right);
    assert_eq!(state.cursor, start);

    state.update_cursor(Key::Up);
    state.update_cursor(Key::Down);
    assert_eq!(state.cursor, start);

    // The same cancellation holds across a wraparound.
    state.cursor = CursorPos { x: 5, y: 595 };
    state.update_cursor(Key::Right);
    state.update_cursor(Key::Left);
    state.update_cursor(Key::Down);
    state.update_cursor(Key::Up);
    assert_eq!(state.cursor, CursorPos { x: 5, y: 595 });
}

#[test]
fn moving_right_twice_from_near_edge_stays_in_range() {
    let mut state = test_state();
    state.cursor.x = state.screen_width - 5;
    state.update_cursor(Key::Right);
    state.update_cursor(Key::Right);
    assert!(state.cursor.x < state.screen_width);
}

#[test]
fn quit_and_other_keys_leave_cursor_unchanged() {
    let r = update_cursor(CursorPos { x: 400, y: 300 }, Key::Quit, 800, 600);
    assert_eq!(r, CursorPos { x: 400, y: 300 });
    let r = update_cursor(CursorPos { x: 400, y: 300 }, Key::Other, 800, 600);
    assert_eq!(r, CursorPos { x: 400, y: 300 });
}

#[test]
fn small_screen_cursor_stays_in_range() {
    // Even on a screen narrower than one cursor step, the wraparound
    // keeps every coordinate inside the viewport.
    let mut c = CursorPos { x: 0, y: 2 };
    for _ in 0..7 {
        c = update_cursor(c, Key::Right, 3, 4);
        assert!(c.x < 3 && c.y < 4);
        c = update_cursor(c, Key::Up, 3, 4);
        assert!(c.x < 3 && c.y < 4);
    }
}
