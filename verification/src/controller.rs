//! Translation of raw key presses into the game's semantic actions.
//!
//! The blocking event source itself lives outside the library; it hands in
//! one `Key` at a time, and `Controller::interpret` decides whether that key
//! names an action and which one.

use vstd::prelude::*;

verus! {

/// The four directions the player can move in.
#[derive(Clone, Copy, PartialEq, Eq, Structural, Debug)]
pub enum Direction {
    Left,
    Up,
    Right,
    Down,
}

/// A semantic action: move one cell, or end the session.
#[derive(Clone, Copy, PartialEq, Eq, Structural, Debug)]
pub enum GameEvent {
    Move(Direction),
    Quit,
}

/// One key press as reported by the raw event source, reduced to the parts
/// the translation reads: the four arrow keys, escape, a printable
/// character, or anything else.
#[derive(Clone, Copy, PartialEq, Eq, Structural, Debug)]
pub enum Key {
    Left,
    Up,
    Right,
    Down,
    Esc,
    Char(char),
    Other,
}

pub struct Controller {}

/// The key binding table: arrows move, `h`/`j`/`k`/`l` move vi-style
/// (`j` is down, `k` is up), and `Esc` or `q` quits.  Every other key is
/// ignored.
pub open spec fn interpretation(key: Key) -> Option<GameEvent> {
    match key {
        Key::Left => Some(GameEvent::Move(Direction::Left)),
        Key::Up => Some(GameEvent::Move(Direction::Up)),
        Key::Right => Some(GameEvent::Move(Direction::Right)),
        Key::Down => Some(GameEvent::Move(Direction::Down)),
        Key::Esc => Some(GameEvent::Quit),
        Key::Char(c) => {
            if c == 'q' {
                Some(GameEvent::Quit)
            } else if c == 'h' {
                Some(GameEvent::Move(Direction::Left))
            } else if c == 'k' {
                Some(GameEvent::Move(Direction::Up))
            } else if c == 'l' {
                Some(GameEvent::Move(Direction::Right))
            } else if c == 'j' {
                Some(GameEvent::Move(Direction::Down))
            } else {
                None
            }
        },
        Key::Other => None,
    }
}

impl Controller {
    /// Maps one key press to its action, or `None` for an unrecognized key.
    /// The caller loops, reading keys until one is recognized.
    pub fn interpret(key: Key) -> (r: Option<GameEvent>)
        ensures
            r == interpretation(key),
    {
        match key {
            Key::Left => Some(GameEvent::Move(Direction::Left)),
            Key::Up => Some(GameEvent::Move(Direction::Up)),
            Key::Right => Some(GameEvent::Move(Direction::Right)),
            Key::Down => Some(GameEvent::Move(Direction::Down)),
            Key::Esc => Some(GameEvent::Quit),
            Key::Char(c) => {
                if c == 'q' {
                    Some(GameEvent::Quit)
                } else if c == 'h' {
                    Some(GameEvent::Move(Direction::Left))
                } else if c == 'k' {
                    Some(GameEvent::Move(Direction::Up))
                } else if c == 'l' {
                    Some(GameEvent::Move(Direction::Right))
                } else if c == 'j' {
                    Some(GameEvent::Move(Direction::Down))
                } else {
                    None
                }
            },
            Key::Other => None,
        }
    }
}

} // verus!
