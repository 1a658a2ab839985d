//! What reaches the game from the keyboard, and what the game asks of its
//! caller in return.

use vstd::prelude::*;

verus! {

/// The key of a keyboard event.
#[derive(Clone, Copy, Debug, PartialEq, Eq, Structural)]
pub enum Key {
    /// A character key.
    Char(char),
    Down,
    Up,
    Right,
    Left,
    Esc,
    Enter,
    Tab,
    /// Any key the game has no use for.
    Other,
}

/// What happened to the key.
#[derive(Clone, Copy, Debug, PartialEq, Eq, Structural)]
pub enum KeyKind {
    Press,
    Repeat,
    Release,
}

/// One event of the terminal.
#[derive(Clone, Copy, Debug, PartialEq, Eq, Structural)]
pub enum InputEvent {
    /// A keyboard event.
    Key { code: Key, kind: KeyKind },
    /// Anything else: the mouse, a resize, a paste.
    Other,
}

/// A command of the player.
#[derive(Clone, Copy, Debug, PartialEq, Eq, Structural)]
pub enum Command {
    MoveUp,
    MoveDown,
    MoveLeft,
    MoveRight,
    TogglePause,
    Restart,
    ToggleAutoplay,
    Quit,
}

/// What the caller has to do after the game has handled an event.
#[derive(Clone, Copy, Debug, PartialEq, Eq, Structural)]
pub enum Outcome {
    /// Nothing: go on with the tick.
    Continue,
    /// The player asked a dead game to start over. The caller stores
    /// `highscore`, reads what is stored back and hands it to
    /// `App::restart`.
    Persist { highscore: u64 },
}

/// The command a key stands for, if any.
pub open spec fn command_of(key: Key) -> Option<Command> {
    match key {
        Key::Char(c) => if c == 'q' {
            Some(Command::Quit)
        } else {
            None
        },
        Key::Down => Some(Command::MoveDown),
        Key::Up => Some(Command::MoveUp),
        Key::Right => Some(Command::MoveRight),
        Key::Left => Some(Command::MoveLeft),
        Key::Esc => Some(Command::TogglePause),
        Key::Enter => Some(Command::Restart),
        Key::Tab => Some(Command::ToggleAutoplay),
        Key::Other => None,
    }
}

/// The command an event stands for, if any: only the press of a key counts.
pub open spec fn command_in(event: InputEvent) -> Option<Command> {
    match event {
        InputEvent::Key { code, kind } => if kind == KeyKind::Press {
            command_of(code)
        } else {
            None
        },
        InputEvent::Other => None,
    }
}

/// The command a key stands for, if any.
pub fn key_command(key: Key) -> (command: Option<Command>)
    ensures
        command == command_of(key),
{
    match key {
        Key::Char(c) => {
            if c == 'q' {
                Some(Command::Quit)
            } else {
                None
            }
        },
        Key::Down => Some(Command::MoveDown),
        Key::Up => Some(Command::MoveUp),
        Key::Right => Some(Command::MoveRight),
        Key::Left => Some(Command::MoveLeft),
        Key::Esc => Some(Command::TogglePause),
        Key::Enter => Some(Command::Restart),
        Key::Tab => Some(Command::ToggleAutoplay),
        Key::Other => None,
    }
}

/// The command an event stands for, if any.
pub fn event_command(event: InputEvent) -> (command: Option<Command>)
    ensures
        command == command_in(event),
{
    match event {
        InputEvent::Key { code, kind } => {
            match kind {
                KeyKind::Press => key_command(code),
                _ => None,
            }
        },
        InputEvent::Other => None,
    }
}

} // verus!
