//! The command line as the commands see it: which command was chosen, with
//! what options.

use vstd::prelude::*;
use crate::priority::Priority;

verus! {

/// How many tasks `show` lists when it is not told.
pub const DEFAULT_SHOW_COUNT: usize = 5;

/// A parsed command line.
#[derive(Debug)]
pub struct App {
    /// The command that was named, if one was.
    pub command: Option<Command>,
}

/// One of the three commands, with its options.
#[derive(Debug)]
pub enum Command {
    /// Show the most pressing tasks, `count` at most.
    Show { count: usize },
    /// Add a task. A field that is not given is asked of the user.
    Add { title: Option<String>, priority: Option<Priority> },
    /// Remove a task that the user picks from the list.
    Remove,
}

impl Default for Command {
    /// With no command named, the list is shown.
    fn default() -> (command: Command)
        ensures
            command == (Command::Show { count: DEFAULT_SHOW_COUNT }),
    {
        Command::Show { count: DEFAULT_SHOW_COUNT }
    }
}

impl App {
    /// The command to run: the one that was named, or else the default.
    pub fn command_or_default(self) -> (command: Command)
        ensures
            command == match self.command {
                Some(named) => named,
                None => Command::Show { count: DEFAULT_SHOW_COUNT },
            },
    {
        match self.command {
            Some(named) => named,
            None => Command::default(),
        }
    }
}

} // verus!
