use tatic_client::Coord;
use tatic_client::InputState;
use tatic_client::KeyEvent;
use tatic_client::Message;

#[test]
fn test_input_state_initialization() {
    let input = InputState::new();
    assert_eq!(input.cursor.x, 0);
    assert_eq!(input.cursor.y, 0);
    assert!(!input.shift_pressed);
    assert!(!input.ctrl_pressed);
}

#[test]
fn cursor_moves_within_bounds() {
    let mut input = InputState::new();
    let m = input.handle_keyboard_event(KeyEvent::Character('d'));
    assert_eq!(m, Some(Message::KeyPressed('d')));
    assert_eq!(input.cursor, Coord::new(1, 0));
    let m = input.handle_keyboard_event(KeyEvent::Character('s'));
    assert_eq!(m, Some(Message::KeyPressed('s')));
    assert_eq!(input.cursor, Coord::new(1, 1));
    let m = input.handle_keyboard_event(KeyEvent::Character('a'));
    assert_eq!(m, Some(Message::KeyPressed('a')));
    assert_eq!(input.cursor, Coord::new(0, 1));
    let m = input.handle_keyboard_event(KeyEvent::Character('W'));
    assert_eq!(m, Some(Message::KeyPressed('w')));
    assert_eq!(input.cursor, Coord::new(0, 0));
}

#[test]
fn cursor_clamps_at_edges() {
    let mut input = InputState::new();
    input.handle_keyboard_event(KeyEvent::Character('w'));
    input.handle_keyboard_event(KeyEvent::Character('a'));
    assert_eq!(input.cursor, Coord::new(0, 0));
    for _ in 0..10 {
        input.handle_keyboard_event(KeyEvent::Character('d'));
        input.handle_keyboard_event(KeyEvent::Character('s'));
    }
    assert_eq!(input.cursor, Coord::new(7, 7));
}

#[test]
fn enter_chooses_cell_under_cursor() {
    let mut input = InputState::new();
    input.handle_keyboard_event(KeyEvent::Character('d'));
    input.handle_keyboard_event(KeyEvent::Character('s'));
    let m = input.handle_keyboard_event(KeyEvent::Enter);
    assert_eq!(m, Some(Message::CellClicked(Coord::new(1, 1))));
    assert_eq!(input.cursor, Coord::new(1, 1));
}

#[test]
fn escape_clears_selection() {
    let mut input = InputState::new();
    let m = input.handle_keyboard_event(KeyEvent::Escape);
    assert_eq!(m, Some(Message::ClearSelection));
}

#[test]
fn unmapped_key_emits_nothing() {
    let mut input = InputState::new();
    let m = input.handle_keyboard_event(KeyEvent::Character('q'));
    assert_eq!(m, None);
    assert_eq!(input.cursor, Coord::new(0, 0));
}
