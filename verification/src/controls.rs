//! The keys the user presses and what each one does.
use vstd::prelude::*;

use crate::config::ConfigChange;

verus! {

/// A key press, as far as the metronome tells keys apart.
#[derive(Debug, Clone, Copy, PartialEq, Eq, Structural)]
pub enum Key {
    Char(char),
    Up,
    Down,
    Left,
    Right,
    Other,
}

/// What a key press asks for.
#[derive(Debug, Clone, Copy, PartialEq, Eq, Structural)]
pub enum Command {
    Quit,
    Change(ConfigChange),
}

/// The command of a key: `q` quits, `-`/`+` lower and raise the volume, the
/// space bar starts and stops, `a` toggles the accent, `s` changes the
/// subdivisions (letters in either case), the down and up arrows lower and
/// raise the tempo, the left and right arrows remove and add a beat; any
/// other key does nothing.
pub open spec fn spec_command_for_key(key: Key) -> Option<Command> {
    match key {
        Key::Char(c) => if c == 'q' || c == 'Q' {
            Some(Command::Quit)
        } else if c == '-' {
            Some(Command::Change(ConfigChange::DecVolume))
        } else if c == '+' {
            Some(Command::Change(ConfigChange::IncVolume))
        } else if c == ' ' {
            Some(Command::Change(ConfigChange::TogglePlaying))
        } else if c == 'a' || c == 'A' {
            Some(Command::Change(ConfigChange::ToggleAccent))
        } else if c == 's' || c == 'S' {
            Some(Command::Change(ConfigChange::ChangeSubdivisions))
        } else {
            None
        },
        Key::Down => Some(Command::Change(ConfigChange::DecBpm)),
        Key::Up => Some(Command::Change(ConfigChange::IncBpm)),
        Key::Left => Some(Command::Change(ConfigChange::DecBeats)),
        Key::Right => Some(Command::Change(ConfigChange::IncBeats)),
        Key::Other => None,
    }
}

/// The command of a key press, if it has one.
pub fn command_for_key(key: Key) -> (r: Option<Command>)
    ensures
        r == spec_command_for_key(key),
{
    match key {
        Key::Char(c) => {
            if c == 'q' || c == 'Q' {
                Some(Command::Quit)
            } else if c == '-' {
                Some(Command::Change(ConfigChange::DecVolume))
            } else if c == '+' {
                Some(Command::Change(ConfigChange::IncVolume))
            } else if c == ' ' {
                Some(Command::Change(ConfigChange::TogglePlaying))
            } else if c == 'a' || c == 'A' {
                Some(Command::Change(ConfigChange::ToggleAccent))
            } else if c == 's' || c == 'S' {
                Some(Command::Change(ConfigChange::ChangeSubdivisions))
            } else {
                None
            }
        },
        Key::Down => Some(Command::Change(ConfigChange::DecBpm)),
        Key::Up => Some(Command::Change(ConfigChange::IncBpm)),
        Key::Left => Some(Command::Change(ConfigChange::DecBeats)),
        Key::Right => Some(Command::Change(ConfigChange::IncBeats)),
        Key::Other => None,
    }
}


/// The lower-case form of an ASCII letter; any other character unchanged.
pub open spec fn ascii_lower(c: char) -> char {
    if 'A' <= c <= 'Z' {
        (c as int + 32) as char
    } else {
        c
    }
}

/// The case of a letter does not matter: every key press does what the
/// same key in lower case does.
pub proof fn lemma_case_does_not_matter(c: char)
    ensures
        spec_command_for_key(Key::Char(c)) == spec_command_for_key(Key::Char(ascii_lower(c))),
{
    if 'A' <= c <= 'Z' {
        let l = ascii_lower(c);
        assert(l as int == c as int + 32);
        assert(l == 'q' <==> c == 'Q');
        assert(l == 'a' <==> c == 'A');
        assert(l == 's' <==> c == 'S');
        assert('a' <= l <= 'z');
    }
}

/// The shortcut keys: `q` quits, `-` and `+` lower and raise the volume,
/// the space bar starts and stops, `a` toggles the accent and `s` changes
/// the subdivisions; the arrows change the tempo (down, up) and the beats
/// (left, right); every other character does nothing.
pub proof fn lemma_shortcuts(c: char)
    ensures
        spec_command_for_key(Key::Char(ascii_lower(c))) == (if ascii_lower(c) == 'q' {
            Some(Command::Quit)
        } else if ascii_lower(c) == '-' {
            Some(Command::Change(ConfigChange::DecVolume))
        } else if ascii_lower(c) == '+' {
            Some(Command::Change(ConfigChange::IncVolume))
        } else if ascii_lower(c) == ' ' {
            Some(Command::Change(ConfigChange::TogglePlaying))
        } else if ascii_lower(c) == 'a' {
            Some(Command::Change(ConfigChange::ToggleAccent))
        } else if ascii_lower(c) == 's' {
            Some(Command::Change(ConfigChange::ChangeSubdivisions))
        } else {
            None::<Command>
        }),
        spec_command_for_key(Key::Down) == Some(Command::Change(ConfigChange::DecBpm)),
        spec_command_for_key(Key::Up) == Some(Command::Change(ConfigChange::IncBpm)),
        spec_command_for_key(Key::Left) == Some(Command::Change(ConfigChange::DecBeats)),
        spec_command_for_key(Key::Right) == Some(Command::Change(ConfigChange::IncBeats)),
        spec_command_for_key(Key::Other) is None,
{
    let l = ascii_lower(c);
    if 'A' <= c <= 'Z' {
        assert(l as int == c as int + 32);
        assert('a' <= l <= 'z');
    }
}

} // verus!
