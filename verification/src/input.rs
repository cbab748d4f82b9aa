//! Keyboard input: a cursor bounded to the board, moved by the WASD keys,
//! with confirm and cancel keys mapped to controller events. The host maps
//! its raw window events to [`KeyEvent`] values and hands them in here.

use vstd::prelude::*;

use crate::board::Coord;
use crate::session::Message;

verus! {

/// One key press, already stripped of windowing detail.
#[derive(Clone, Copy, PartialEq, Eq, Structural, Debug)]
pub enum KeyEvent {
    Character(char),
    Enter,
    Escape,
}

/// Local cursor bookkeeping for keyboard-driven play.
#[derive(Clone, PartialEq, Eq, Debug)]
pub struct InputState {
    pub cursor: Coord,
    pub shift_pressed: bool,
    pub ctrl_pressed: bool,
}

/// Where the cursor stands after one key press: the WASD keys move it one
/// cell, clamped to the board; every other key leaves it in place.
pub open spec fn cursor_after(cur: Coord, key: KeyEvent) -> Coord {
    match key {
        KeyEvent::Character(c) => {
            if (c == 'w' || c == 'W') && cur.y > 0 {
                Coord { x: cur.x, y: (cur.y - 1) as u8 }
            } else if (c == 's' || c == 'S') && cur.y < 7 {
                Coord { x: cur.x, y: (cur.y + 1) as u8 }
            } else if (c == 'a' || c == 'A') && cur.x > 0 {
                Coord { x: (cur.x - 1) as u8, y: cur.y }
            } else if (c == 'd' || c == 'D') && cur.x < 7 {
                Coord { x: (cur.x + 1) as u8, y: cur.y }
            } else {
                cur
            }
        },
        _ => cur,
    }
}

/// The event one key press emits: movement keys report themselves (in
/// lower case), confirm chooses the cell under the cursor, cancel clears
/// the selection, and any other key emits nothing.
pub open spec fn message_for_key(cur: Coord, key: KeyEvent) -> Option<Message> {
    match key {
        KeyEvent::Character(c) => {
            if c == 'w' || c == 'W' {
                Some(Message::KeyPressed('w'))
            } else if c == 's' || c == 'S' {
                Some(Message::KeyPressed('s'))
            } else if c == 'a' || c == 'A' {
                Some(Message::KeyPressed('a'))
            } else if c == 'd' || c == 'D' {
                Some(Message::KeyPressed('d'))
            } else {
                None
            }
        },
        KeyEvent::Enter => Some(Message::CellClicked(cur)),
        KeyEvent::Escape => Some(Message::ClearSelection),
    }
}

impl InputState {
    /// A fresh input state: cursor at the origin, no modifiers held.
    pub fn new() -> (s: InputState)
        ensures
            s.cursor == (Coord { x: 0, y: 0 }),
            !s.shift_pressed,
            !s.ctrl_pressed,
    {
        InputState { cursor: Coord::new(0, 0), shift_pressed: false, ctrl_pressed: false }
    }

    /// Processes one key press: moves the cursor within the board's bounds
    /// and reports the controller event the key stands for.
    pub fn handle_keyboard_event(&mut self, key: KeyEvent) -> (m: Option<Message>)
        requires
            old(self).cursor.in_bounds(),
        ensures
            final(self).cursor == cursor_after(old(self).cursor, key),
            final(self).cursor.in_bounds(),
            final(self).shift_pressed == old(self).shift_pressed,
            final(self).ctrl_pressed == old(self).ctrl_pressed,
            m == message_for_key(old(self).cursor, key),
    {
        match key {
            KeyEvent::Character(c) => {
                if c == 'w' || c == 'W' {
                    if self.cursor.y > 0 {
                        self.cursor.y = self.cursor.y - 1;
                    }
                    Some(Message::KeyPressed('w'))
                } else if c == 's' || c == 'S' {
                    if self.cursor.y < 7 {
                        self.cursor.y = self.cursor.y + 1;
                    }
                    Some(Message::KeyPressed('s'))
                } else if c == 'a' || c == 'A' {
                    if self.cursor.x > 0 {
                        self.cursor.x = self.cursor.x - 1;
                    }
                    Some(Message::KeyPressed('a'))
                } else if c == 'd' || c == 'D' {
                    if self.cursor.x < 7 {
                        self.cursor.x = self.cursor.x + 1;
                    }
                    Some(Message::KeyPressed('d'))
                } else {
                    None
                }
            },
            KeyEvent::Enter => Some(Message::CellClicked(self.cursor)),
            KeyEvent::Escape => Some(Message::ClearSelection),
        }
    }
}

} // verus!
