//! Where the backing file lives, and what it takes to have it there: the
//! file `todo.yml` in the directory `doen` in the directory `.config` of the
//! user's home. The caller looks at each of the three places in turn and is
//! told here what to do about what it found.

use vstd::prelude::*;

verus! {

/// One of the three places on the way from the home directory to the
/// backing file.
#[derive(Debug, Clone, Copy, PartialEq, Eq, Structural)]
pub enum Place {
    /// The directory `.config` in the home directory.
    Config,
    /// The directory `doen` in it.
    Folder,
    /// The file `todo.yml` in that.
    File,
}

/// What the caller found at a place.
#[derive(Debug, Clone, Copy, PartialEq, Eq, Structural)]
pub enum Found {
    Nothing,
    File,
    Directory,
}

/// What to do at a place.
#[derive(Debug, Clone, Copy, PartialEq, Eq, Structural)]
pub enum Step {
    /// What is there stays as it is.
    Keep,
    /// A directory is to be made there.
    CreateDirectory,
    /// An empty file is to be made there.
    CreateFile,
    /// What is there stands in the way, and nothing can be done about it.
    Refuse,
}

impl Place {
    /// The name of the place within the place before it.
    pub open spec fn segment_text(self) -> Seq<char> {
        match self {
            Place::Config => ".config"@,
            Place::Folder => "doen"@,
            Place::File => "todo.yml"@,
        }
    }

    /// What to do at this place: a missing directory or file is made, and a
    /// directory where the file belongs is refused. Anything else stays.
    pub open spec fn step_spec(self, found: Found) -> Step {
        match (self, found) {
            (Place::File, Found::Directory) => Step::Refuse,
            (Place::File, Found::Nothing) => Step::CreateFile,
            (Place::File, Found::File) => Step::Keep,
            (_, Found::Nothing) => Step::CreateDirectory,
            (_, _) => Step::Keep,
        }
    }

    /// What to say when the step at this place cannot be done.
    pub open spec fn failure_text(self) -> Seq<char> {
        match self {
            Place::Config => "Failed to create $HOME/.config"@,
            Place::Folder => "Failed to create $HOME/.config/doen"@,
            Place::File => "Failed to create todo file"@,
        }
    }

    /// The three places, from the home directory inwards.
    pub fn all() -> (all: Vec<Place>)
        ensures
            all@ == seq![Place::Config, Place::Folder, Place::File],
    {
        vec![Place::Config, Place::Folder, Place::File]
    }

    /// The name of the place within the place before it, as text.
    pub fn segment(&self) -> (text: String)
        ensures
            text@ == self.segment_text(),
    {
        match self {
            Place::Config => String::from_str(".config"),
            Place::Folder => String::from_str("doen"),
            Place::File => String::from_str("todo.yml"),
        }
    }

    /// What to do at this place, given what was found there.
    pub fn step(&self, found: Found) -> (step: Step)
        ensures
            step == self.step_spec(found),
    {
        match (self, found) {
            (Place::File, Found::Directory) => Step::Refuse,
            (Place::File, Found::Nothing) => Step::CreateFile,
            (Place::File, Found::File) => Step::Keep,
            (_, Found::Nothing) => Step::CreateDirectory,
            (_, _) => Step::Keep,
        }
    }

    /// What to say when the step at this place cannot be done, as text.
    pub fn failure(&self) -> (text: String)
        ensures
            text@ == self.failure_text(),
    {
        match self {
            Place::Config => String::from_str("Failed to create $HOME/.config"),
            Place::Folder => String::from_str("Failed to create $HOME/.config/doen"),
            Place::File => String::from_str("Failed to create todo file"),
        }
    }
}

/// What is said when the user has no home directory.
pub open spec fn no_home_text() -> Seq<char> {
    "Failed to find home directory"@
}

/// What is said when the user has no home directory, as text.
pub fn no_home() -> (text: String)
    ensures
        text@ == no_home_text(),
{
    String::from_str("Failed to find home directory")
}

/// What is said when a directory stands where the backing file belongs.
pub open spec fn refusal_text() -> Seq<char> {
    "$HOME/.config/doen/todo.yml cannot be a directory"@
}

/// What is said when a directory stands where the backing file belongs, as
/// text.
pub fn refusal() -> (text: String)
    ensures
        text@ == refusal_text(),
{
    String::from_str("$HOME/.config/doen/todo.yml cannot be a directory")
}

} // verus!
