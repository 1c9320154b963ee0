use vstd::prelude::*;

verus! {

/// A request from a front end to the playback engine.
#[derive(Clone, Copy, Debug, PartialEq, Eq, Structural)]
pub enum Command {
    Play,
    Pause,
    Rewind,
    Quit,
    /// Move to the record with this 0-based index.
    Seek(usize),
}

/// The command that a menu index stands for.
pub open spec fn command_at(value: usize) -> Command {
    if value == 0 {
        Command::Play
    } else if value == 1 {
        Command::Pause
    } else if value == 2 {
        Command::Rewind
    } else if value == 3 {
        Command::Seek(0)
    } else {
        Command::Quit
    }
}

/// The name of a command.
pub open spec fn command_name(c: Command) -> Seq<char> {
    match c {
        Command::Play => "Play"@,
        Command::Pause => "Pause"@,
        Command::Rewind => "Rewind"@,
        Command::Quit => "Quit"@,
        Command::Seek(_) => "Seek"@,
    }
}

impl Command {
    /// The names of the commands, in menu order.
    pub fn as_vec() -> (r: Vec<&'static str>)
        ensures
            r@.len() == 5,
            r@[0]@ == "Play"@,
            r@[1]@ == "Pause"@,
            r@[2]@ == "Rewind"@,
            r@[3]@ == "Quit"@,
            r@[4]@ == "Seek"@,
    {
        vec!["Play", "Pause", "Rewind", "Quit", "Seek"]
    }

    /// The name of this command.
    pub fn to_string(&self) -> (r: String)
        ensures
            r@ == command_name(*self),
    {
        match self {
            Command::Play => String::from_str("Play"),
            Command::Pause => String::from_str("Pause"),
            Command::Rewind => String::from_str("Rewind"),
            Command::Quit => String::from_str("Quit"),
            Command::Seek(_) => String::from_str("Seek"),
        }
    }
}

impl From<usize> for Command {
    fn from(value: usize) -> (r: Command) {
        if value == 0 {
            Command::Play
        } else if value == 1 {
            Command::Pause
        } else if value == 2 {
            Command::Rewind
        } else if value == 3 {
            Command::Seek(0)
        } else {
            Command::Quit
        }
    }
}

impl vstd::std_specs::convert::FromSpecImpl<usize> for Command {
    open spec fn obeys_from_spec() -> bool {
        true
    }

    open spec fn from_spec(value: usize) -> Command {
        command_at(value)
    }
}

} // verus!
