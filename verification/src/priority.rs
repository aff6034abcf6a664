//! The three priority levels: their rank, order, names and colours.

use vstd::prelude::*;
use crate::color::Color;
use crate::text::same_text;
use std::cmp::Ordering;
use vstd::std_specs::cmp::PartialOrdSpec;

verus! {

/// Why a number or a text was not accepted as a priority.
#[derive(Debug, Clone, Copy, PartialEq, Eq, Structural)]
pub enum PriorityError {
    /// The input names none of the three priorities.
    InvalidVariant,
}

impl PriorityError {
    /// The message shown for this error.
    pub open spec fn message(self) -> Seq<char> {
        "Invalid variant of Priority"@
    }

    /// The message shown for this error, as text.
    pub fn to_string(&self) -> (text: String)
        ensures
            text@ == self.message(),
    {
        String::from_str("Invalid variant of Priority")
    }
}

/// How pressing a task is. `Important` comes first, `Minor` last.
#[derive(Debug, Clone, Copy, PartialEq, Eq, Structural, Ord, Hash)]
pub enum Priority {
    Important,
    Trivial,
    Minor,
}

impl PartialOrd for Priority {
    fn partial_cmp(&self, other: &Self) -> (order: Option<Ordering>) {
        let left = self.rank();
        let right = other.rank();
        if left < right {
            Some(Ordering::Less)
        } else if left == right {
            Some(Ordering::Equal)
        } else {
            Some(Ordering::Greater)
        }
    }
}

impl vstd::std_specs::cmp::PartialOrdSpecImpl for Priority {
    open spec fn obeys_partial_cmp_spec() -> bool {
        true
    }

    open spec fn partial_cmp_spec(&self, other: &Self) -> Option<Ordering> {
        if self.rank_spec() < other.rank_spec() {
            Some(Ordering::Less)
        } else if self.rank_spec() == other.rank_spec() {
            Some(Ordering::Equal)
        } else {
            Some(Ordering::Greater)
        }
    }
}

impl Default for Priority {
    /// A task is `Trivial` unless it says otherwise.
    fn default() -> (priority: Priority)
        ensures
            priority == Priority::Trivial,
    {
        Priority::Trivial
    }
}

impl TryFrom<usize> for Priority {
    type Error = PriorityError;

    /// The priority whose rank is `value`; any other number is refused.
    fn try_from(value: usize) -> (result: Result<Priority, PriorityError>) {
        if value == 1 {
            Ok(Priority::Important)
        } else if value == 2 {
            Ok(Priority::Trivial)
        } else if value == 3 {
            Ok(Priority::Minor)
        } else {
            Err(PriorityError::InvalidVariant)
        }
    }
}

impl vstd::std_specs::convert::TryFromSpecImpl<usize> for Priority {
    open spec fn obeys_try_from_spec() -> bool {
        true
    }

    open spec fn try_from_spec(value: usize) -> Result<Priority, PriorityError> {
        match Priority::of_rank(value as int) {
            Some(priority) => Ok(priority),
            None => Err(PriorityError::InvalidVariant),
        }
    }
}

impl std::str::FromStr for Priority {
    type Err = PriorityError;

    /// Reads a canonical name; any other text is refused.
    fn from_str(text: &str) -> (result: Result<Priority, PriorityError>)
        ensures
            result == match Priority::of_name(text@) {
                Some(priority) => Ok::<Priority, PriorityError>(priority),
                None => Err(PriorityError::InvalidVariant),
            },
    {
        Priority::parse(text)
    }
}

impl Priority {
    /// The rank of a priority: 1 for the most pressing, 3 for the least.
    pub open spec fn rank_spec(self) -> int {
        match self {
            Priority::Important => 1,
            Priority::Trivial => 2,
            Priority::Minor => 3,
        }
    }

    /// The priority with a given rank, if the rank is 1, 2 or 3.
    pub open spec fn of_rank(rank: int) -> Option<Priority> {
        if rank == 1 {
            Some(Priority::Important)
        } else if rank == 2 {
            Some(Priority::Trivial)
        } else if rank == 3 {
            Some(Priority::Minor)
        } else {
            None
        }
    }

    /// The canonical name of a priority.
    pub open spec fn name(self) -> Seq<char> {
        match self {
            Priority::Important => "Important"@,
            Priority::Trivial => "Trivial"@,
            Priority::Minor => "Minor"@,
        }
    }

    /// The priority with a given canonical name, if there is one. Names are
    /// matched exactly, letter case included.
    pub open spec fn of_name(text: Seq<char>) -> Option<Priority> {
        if text == "Important"@ {
            Some(Priority::Important)
        } else if text == "Trivial"@ {
            Some(Priority::Trivial)
        } else if text == "Minor"@ {
            Some(Priority::Minor)
        } else {
            None
        }
    }

    /// The colour in which a priority is shown.
    pub open spec fn color_spec(self) -> Color {
        match self {
            Priority::Important => Color::Red,
            Priority::Trivial => Color::Blue,
            Priority::Minor => Color::Green,
        }
    }

    /// The rank as a machine integer.
    pub fn rank(&self) -> (rank: u8)
        ensures
            rank == self.rank_spec(),
    {
        match self {
            Priority::Important => 1,
            Priority::Trivial => 2,
            Priority::Minor => 3,
        }
    }

    /// The colour in which a priority is shown.
    pub fn color(&self) -> (color: Color)
        ensures
            color == self.color_spec(),
    {
        match self {
            Priority::Important => Color::Red,
            Priority::Trivial => Color::Blue,
            Priority::Minor => Color::Green,
        }
    }

    /// All priorities, most pressing first.
    pub fn all() -> (all: Vec<Priority>)
        ensures
            all@ == seq![Priority::Important, Priority::Trivial, Priority::Minor],
    {
        vec![Priority::Important, Priority::Trivial, Priority::Minor]
    }

    /// Reads a canonical name. Anything else, a name in other letter case
    /// included, is refused.
    pub fn parse(text: &str) -> (result: Result<Priority, PriorityError>)
        ensures
            result == match Priority::of_name(text@) {
                Some(priority) => Ok::<Priority, PriorityError>(priority),
                None => Err(PriorityError::InvalidVariant),
            },
    {
        if same_text(text, "Important") {
            Ok(Priority::Important)
        } else if same_text(text, "Trivial") {
            Ok(Priority::Trivial)
        } else if same_text(text, "Minor") {
            Ok(Priority::Minor)
        } else {
            Err(PriorityError::InvalidVariant)
        }
    }

    /// The canonical name, as text.
    pub fn to_string(&self) -> (text: String)
        ensures
            text@ == self.name(),
    {
        match self {
            Priority::Important => String::from_str("Important"),
            Priority::Trivial => String::from_str("Trivial"),
            Priority::Minor => String::from_str("Minor"),
        }
    }
}

/// The order of the priorities is total and is that of their ranks: of two
/// priorities one comes before the other, or they are the same, and never
/// two of these at once. `Important` comes before `Trivial`, and `Trivial`
/// before `Minor`.
pub proof fn lemma_order_is_total(left: Priority, right: Priority)
    ensures
        left.partial_cmp_spec(&right) is Some,
        left.partial_cmp_spec(&right) == Some(Ordering::Less) <==> left.rank_spec()
            < right.rank_spec(),
        left.partial_cmp_spec(&right) == Some(Ordering::Equal) <==> left == right,
        left.partial_cmp_spec(&right) == Some(Ordering::Greater) <==> left.rank_spec()
            > right.rank_spec(),
        left.partial_cmp_spec(&right) == Some(Ordering::Less) <==> right.partial_cmp_spec(&left)
            == Some(Ordering::Greater),
        Priority::Important.partial_cmp_spec(&Priority::Trivial) == Some(Ordering::Less),
        Priority::Trivial.partial_cmp_spec(&Priority::Minor) == Some(Ordering::Less),
        Priority::Important.partial_cmp_spec(&Priority::Minor) == Some(Ordering::Less),
{
}

/// Names and priorities match one to one: the name of a priority is read
/// back as that priority, and a text that is read as a priority is its name.
pub proof fn lemma_names_match(priority: Priority, text: Seq<char>)
    ensures
        Priority::of_name(priority.name()) == Some(priority),
        Priority::of_name(text) == Some(priority) <==> text == priority.name(),
{
    reveal_strlit("Important");
    reveal_strlit("Trivial");
    reveal_strlit("Minor");
    assert("Important"@.len() == 9 && "Trivial"@.len() == 7 && "Minor"@.len() == 5);
}

/// Ranks and priorities match one to one: the rank of a priority gives that
/// priority back, and a number that gives a priority is its rank.
pub proof fn lemma_ranks_match(priority: Priority, rank: int)
    ensures
        Priority::of_rank(priority.rank_spec()) == Some(priority),
        Priority::of_rank(rank) == Some(priority) <==> rank == priority.rank_spec(),
        1 <= priority.rank_spec() <= 3,
{
}

} // verus!
