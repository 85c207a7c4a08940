//! What the keys do.
//!
//! The window hands over what was pressed; the controls keep the switches and
//! say what is to be done about it.

use vstd::prelude::*;
use crate::models::direction::Direction;

verus! {

/// A key press the simulation tells apart.
#[derive(Debug, Clone, Copy, PartialEq, Eq, Structural)]
pub enum Key {
    /// The up arrow.
    Up,
    /// The down arrow.
    Down,
    /// The left arrow.
    Left,
    /// The right arrow.
    Right,
    /// The key for a vehicle from a direction drawn at random.
    Random,
    /// The key that pauses and resumes.
    Pause,
    /// The key that switches the debug mark.
    Debug,
    /// The key that speeds the simulation up.
    Faster,
    /// The key that slows the simulation down.
    Slower,
    /// Any other key.
    Other,
}

/// What is to be done about a key press.
#[derive(Debug, Clone, Copy, PartialEq, Eq, Structural)]
pub enum Command {
    /// Nothing.
    Nothing,
    /// Ask for a vehicle that travels in the given direction.
    Spawn(Direction),
    /// Ask for a vehicle that travels in a direction drawn at random.
    SpawnRandom,
    /// Say that the simulation is paused.
    AnnouncePaused,
    /// Say that the simulation runs again.
    AnnounceResumed,
    /// Say that the debug mark is on.
    AnnounceDebugOn,
    /// Say that the debug mark is off.
    AnnounceDebugOff,
    /// Speed the simulation up.
    SpeedUp,
    /// Slow the simulation down.
    SlowDown,
    /// Say that leaving takes a second request.
    AskAgain,
    /// Leave.
    Exit,
}

/// The switches that the keys set.
#[derive(Debug, Clone, Copy, PartialEq, Eq, Structural)]
pub struct Controls {
    /// While set, ticks are skipped.
    pub is_paused: bool,
    /// While set, the debug mark is painted.
    pub debug_mode: bool,
    /// Set by a first request to leave; the next one leaves.
    pub confirm_exit: bool,
}

impl Controls {
    /// The direction a vehicle travels in that an arrow key asks for: it
    /// comes from the side the arrow points away from.
    pub open spec fn arrow_direction(key: Key) -> Option<Direction> {
        match key {
            Key::Up => Some(Direction::South),
            Key::Down => Some(Direction::North),
            Key::Left => Some(Direction::East),
            Key::Right => Some(Direction::West),
            _ => None,
        }
    }

    /// The switches after a request to leave: a first request arms the exit.
    pub open spec fn after_exit_request(self) -> Controls {
        Controls { confirm_exit: true, ..self }
    }

    /// What a request to leave leads to: the second in a row leaves, the
    /// first asks for it.
    pub open spec fn exit_command(self) -> Command {
        if self.confirm_exit {
            Command::Exit
        } else {
            Command::AskAgain
        }
    }

    /// The switches after `key`: the pause and debug keys flip their switch,
    /// and every key disarms the exit.
    pub open spec fn after_key(self, key: Key) -> Controls {
        Controls {
            is_paused: if key == Key::Pause {
                !self.is_paused
            } else {
                self.is_paused
            },
            debug_mode: if key == Key::Debug {
                !self.debug_mode
            } else {
                self.debug_mode
            },
            confirm_exit: false,
        }
    }

    /// What `key` leads to.
    pub open spec fn key_command(self, key: Key) -> Command {
        match key {
            Key::Up | Key::Down | Key::Left | Key::Right => Command::Spawn(
                Self::arrow_direction(key)->0,
            ),
            Key::Random => Command::SpawnRandom,
            Key::Pause => if self.is_paused {
                Command::AnnounceResumed
            } else {
                Command::AnnouncePaused
            },
            Key::Debug => if self.debug_mode {
                Command::AnnounceDebugOff
            } else {
                Command::AnnounceDebugOn
            },
            Key::Faster => Command::SpeedUp,
            Key::Slower => Command::SlowDown,
            Key::Other => Command::Nothing,
        }
    }

    /// Controls with every switch off.
    pub fn new() -> (controls: Controls)
        ensures
            controls == (Controls { is_paused: false, debug_mode: false, confirm_exit: false }),
    {
        Controls { is_paused: false, debug_mode: false, confirm_exit: false }
    }

    /// Takes a request to leave: closing the window, or the escape key. The
    /// second request in a row leaves; a first one arms the exit and asks for
    /// the second.
    pub fn exit_requested(&mut self) -> (command: Command)
        ensures
            command == old(self).exit_command(),
            *final(self) == old(self).after_exit_request(),
    {
        if self.confirm_exit {
            Command::Exit
        } else {
            self.confirm_exit = true;
            Command::AskAgain
        }
    }

    /// Takes a key press other than a request to leave.
    pub fn key_pressed(&mut self, key: Key) -> (command: Command)
        ensures
            command == old(self).key_command(key),
            *final(self) == old(self).after_key(key),
    {
        let command = match key {
            Key::Up => Command::Spawn(Direction::South),
            Key::Down => Command::Spawn(Direction::North),
            Key::Left => Command::Spawn(Direction::East),
            Key::Right => Command::Spawn(Direction::West),
            Key::Random => Command::SpawnRandom,
            Key::Pause => {
                self.is_paused = !self.is_paused;
                if self.is_paused {
                    Command::AnnouncePaused
                } else {
                    Command::AnnounceResumed
                }
            },
            Key::Debug => {
                self.debug_mode = !self.debug_mode;
                if self.debug_mode {
                    Command::AnnounceDebugOn
                } else {
                    Command::AnnounceDebugOff
                }
            },
            Key::Faster => Command::SpeedUp,
            Key::Slower => Command::SlowDown,
            Key::Other => Command::Nothing,
        };
        self.confirm_exit = false;
        command
    }
}

} // verus!
