//! The three commands: show the list, add a task, remove a task. Each works
//! on a store that its caller loaded, and leaves the saving to the caller.

use vstd::prelude::*;
use crate::order::{lemma_display_order_of_three, sort_for_display, sorted_for_display};
use crate::priority::Priority;
use crate::render::{grouped, render_grouped, top, Line, LineView};
use crate::text::{
    blank,
    is_blank,
    number,
    number_text,
    parse_number,
    trim,
    trimmed,
    write_number,
};
use crate::todo::{
    encode_records,
    read_document,
    Task,
    Todo,
    TodoPersistance,
    TodoPersistanceError,
};
use crate::yaml::yaml_text;

verus! {

/// What `show` is asked for.
pub struct ShowContext {
    /// How many tasks to show at most.
    pub count: usize,
}

/// What `show` gives for a document: the grouped view of its first `count`
/// tasks in display order, or the message of the error that reading it gave.
pub open spec fn shown(document: Option<Seq<char>>, count: usize) -> Result<
    Seq<LineView>,
    Seq<char>,
> {
    match read_document(document) {
        Err(error) => Err(error.message()),
        Ok(tasks) => Ok(grouped(top(sorted_for_display(tasks), count as int))),
    }
}

/// Lists the most pressing tasks of the store, grouped by priority.
pub fn show(context: ShowContext, storage: &TodoPersistance) -> (result: Result<Vec<Line>, String>)
    ensures
        match result {
            Ok(lines) => shown(storage@, context.count) == Ok::<Seq<LineView>, Seq<char>>(
                lines.deep_view(),
            ),
            Err(message) => shown(storage@, context.count) == Err::<Seq<LineView>, Seq<char>>(
                message@,
            ),
        },
{
    match storage.read_todos() {
        Err(error) => Err(error.to_string()),
        Ok(todos) => {
            let sorted = sort_for_display(todos);
            Ok(render_grouped(&sorted, context.count))
        },
    }
}

/// What `add` is asked for. A field that was not given on the command line is
/// asked of the user before the task is added.
pub struct AddContext {
    pub title: Option<String>,
    pub priority: Option<Priority>,
}

/// A field of a new task that is still to be asked.
#[derive(Debug, Clone, Copy, PartialEq, Eq, Structural)]
pub enum Question {
    Title,
    Priority,
}

impl Question {
    /// The words that ask the question.
    pub open spec fn prompt_text(self) -> Seq<char> {
        match self {
            Question::Title => "Title of the todo: "@,
            Question::Priority => "Priority of the todo (default Trivial): "@,
        }
    }

    /// The words that ask the question, as text.
    pub fn prompt(&self) -> (text: String)
        ensures
            text@ == self.prompt_text(),
    {
        match self {
            Question::Title => String::from_str("Title of the todo: "),
            Question::Priority => String::from_str("Priority of the todo (default Trivial): "),
        }
    }
}

/// The line that offers a priority for choice: its rank, then its name.
pub open spec fn menu_line(priority: Priority) -> Seq<char> {
    number_text(priority.rank_spec() as nat) + ". "@ + priority.name()
}

/// The lines shown above the priority question: one for each priority, the
/// most pressing first.
pub fn priority_menu() -> (lines: Vec<String>)
    ensures
        lines.deep_view() == seq![
            menu_line(Priority::Important),
            menu_line(Priority::Trivial),
            menu_line(Priority::Minor),
        ],
{
    let priorities = Priority::all();
    let mut lines: Vec<String> = Vec::new();
    let mut at: usize = 0;
    while at < priorities.len()
        invariant
            at <= priorities.len(),
            lines.len() == at,
            forall|i: int| 0 <= i < at ==> (#[trigger] lines[i])@ == menu_line(priorities[i]),
        decreases priorities.len() - at,
    {
        let mut line = write_number(priorities[at].rank() as usize);
        line.append(". ");
        let name = priorities[at].to_string();
        line.append(name.as_str());
        lines.push(line);
        at += 1;
    }
    assert(lines.deep_view() =~= seq![
        menu_line(Priority::Important),
        menu_line(Priority::Trivial),
        menu_line(Priority::Minor),
    ]);
    lines
}

/// The priority that an answer to the priority question names. A blank answer
/// takes the default, `Trivial`. Any other must be, white space aside, the
/// rank of a priority. An answer that names no priority gives none, and the
/// question is asked again.
pub open spec fn answered_priority(answer: Seq<char>) -> Option<Priority> {
    if blank(answer) {
        Some(Priority::Trivial)
    } else {
        match number(trimmed(answer)) {
            Some(rank) => Priority::of_rank(rank as int),
            None => None,
        }
    }
}

/// Reads an answer to the priority question.
pub fn read_priority(answer: &str) -> (priority: Option<Priority>)
    ensures
        priority == answered_priority(answer@),
{
    if is_blank(answer) {
        Some(Priority::Trivial)
    } else {
        match parse_number(trim(answer)) {
            None => None,
            Some(rank) => match Priority::try_from(rank) {
                Ok(priority) => Some(priority),
                Err(_) => None,
            },
        }
    }
}

impl AddContext {
    /// The title that was given, as a sequence of characters.
    pub open spec fn title_view(&self) -> Option<Seq<char>> {
        match self.title {
            Some(title) => Some(title@),
            None => None,
        }
    }

    /// The task that the context describes, once both fields are there.
    pub open spec fn task(&self) -> Option<Task> {
        match (self.title, self.priority) {
            (Some(title), Some(priority)) => Some(Task { title: title@, priority }),
            _ => None,
        }
    }

    /// The question to ask next: the title first, then the priority; none
    /// once both are there.
    pub open spec fn pending(&self) -> Option<Question> {
        if self.title is None {
            Some(Question::Title)
        } else if self.priority is None {
            Some(Question::Priority)
        } else {
            None
        }
    }

    /// The question to ask next, if one is left.
    pub fn question(&self) -> (question: Option<Question>)
        ensures
            question == self.pending(),
    {
        if self.title.is_none() {
            Some(Question::Title)
        } else if self.priority.is_none() {
            Some(Question::Priority)
        } else {
            None
        }
    }

    /// Takes the user's answer to the pending question. Any answer is a
    /// title, without the white space around it. An answer to the priority
    /// question that names no priority leaves the question pending. With no
    /// question pending the answer is dropped.
    pub fn answer(self, answer: &str) -> (next: AddContext)
        ensures
            match self.pending() {
                Some(Question::Title) => next.title_view() == Some(trimmed(answer@))
                    && next.priority == self.priority,
                Some(Question::Priority) => next.title_view() == self.title_view()
                    && next.priority == answered_priority(answer@),
                None => next.title_view() == self.title_view() && next.priority
                    == self.priority,
            },
    {
        match self.question() {
            Some(Question::Title) => AddContext {
                title: Some(String::from_str(trim(answer))),
                priority: self.priority,
            },
            Some(Question::Priority) => AddContext {
                title: self.title,
                priority: read_priority(answer),
            },
            None => self,
        }
    }
}

/// The message of `add` for a context that lacks a field.
pub open spec fn incomplete_message() -> Seq<char> {
    "Missing title or priority"@
}

/// The message of `remove` for a position at which no task stands.
pub open spec fn out_of_range_message() -> Seq<char> {
    "No todo at that position"@
}

/// What replacing the list leaves in the store: the new document, or the
/// message of the error where the list cannot be written.
pub open spec fn replaced(tasks: Seq<Task>) -> Result<Seq<char>, Seq<char>> {
    match yaml_text(encode_records(tasks)) {
        Some(text) => Ok(text),
        None => Err(TodoPersistanceError::Serialisation.message()),
    }
}

/// What `add` makes of a document: the document with the new task after all
/// the others, or the message of what went wrong. Reading comes first, so its
/// error wins over a missing field.
pub open spec fn added(document: Option<Seq<char>>, task: Option<Task>) -> Result<
    Seq<char>,
    Seq<char>,
> {
    match read_document(document) {
        Err(error) => Err(error.message()),
        Ok(tasks) => match task {
            None => Err(incomplete_message()),
            Some(task) => replaced(tasks.push(task)),
        },
    }
}

/// Adds the task that the context describes at the end of the list. On any
/// error the store is left as it was.
pub fn add(context: AddContext, storage: &mut TodoPersistance) -> (result: Result<(), String>)
    ensures
        match added(old(storage)@, context.task()) {
            Ok(document) => result is Ok && final(storage)@ == Some(document),
            Err(message) => final(storage)@ == old(storage)@ && match result {
                Ok(_) => false,
                Err(text) => text@ == message,
            },
        },
{
    let mut todos = match storage.read_todos() {
        Ok(todos) => todos,
        Err(error) => {
            return Err(error.to_string());
        },
    };
    let ghost tasks = todos.deep_view();
    let AddContext { title, priority } = context;
    match (title, priority) {
        (Some(title), Some(priority)) => {
            todos.push(Todo { title, priority });
            assert(todos.deep_view() =~= tasks.push(Task { title: title@, priority }));
            match storage.override_todos(todos) {
                Ok(_) => Ok(()),
                Err(error) => Err(error.to_string()),
            }
        },
        _ => Err(String::from_str("Missing title or priority")),
    }
}

/// The tasks in the order in which `remove` counts them, or the message of
/// the error that reading gave.
pub open spec fn listed(document: Option<Seq<char>>) -> Result<Seq<Task>, Seq<char>> {
    match read_document(document) {
        Err(error) => Err(error.message()),
        Ok(tasks) => Ok(sorted_for_display(tasks)),
    }
}

/// Lists all tasks in display order, the order in which `remove` counts
/// them from 1.
pub fn listing(storage: &TodoPersistance) -> (result: Result<Vec<Todo>, String>)
    ensures
        match result {
            Ok(todos) => listed(storage@) == Ok::<Seq<Task>, Seq<char>>(todos.deep_view()),
            Err(message) => listed(storage@) == Err::<Seq<Task>, Seq<char>>(message@),
        },
{
    match storage.read_todos() {
        Err(error) => Err(error.to_string()),
        Ok(todos) => Ok(sort_for_display(todos)),
    }
}

/// The line that offers a task for removal: its position counted from 1,
/// its title, and the name of its priority in brackets.
pub open spec fn choice_line(position: nat, task: Task) -> Seq<char> {
    number_text(position) + ". "@ + task.title + " ("@ + task.priority.name() + ")"@
}

/// The lines that offer the tasks of a list for removal, in the order of the
/// list.
pub fn choice_lines(todos: &Vec<Todo>) -> (lines: Vec<String>)
    ensures
        lines.len() == todos.len(),
        forall|i: int|
            0 <= i < todos.len() ==> (#[trigger] lines[i])@ == choice_line(
                (i + 1) as nat,
                todos[i]@,
            ),
{
    let mut lines: Vec<String> = Vec::new();
    let mut at: usize = 0;
    while at < todos.len()
        invariant
            at <= todos.len(),
            lines.len() == at,
            forall|i: int|
                0 <= i < at ==> (#[trigger] lines[i])@ == choice_line((i + 1) as nat, todos[i]@),
        decreases todos.len() - at,
    {
        let mut line = write_number(at + 1);
        line.append(". ");
        line.append(todos[at].title.as_str());
        line.append(" (");
        let name = todos[at].priority.to_string();
        line.append(name.as_str());
        line.append(")");
        lines.push(line);
        at += 1;
    }
    lines
}

/// The words that ask which task to remove.
pub open spec fn position_prompt_text() -> Seq<char> {
    "Select an index to remove: "@
}

/// The words that ask which task to remove, as text.
pub fn position_prompt() -> (text: String)
    ensures
        text@ == position_prompt_text(),
{
    String::from_str("Select an index to remove: ")
}

/// What `remove` makes of a document: the document of the list in display
/// order without the task at `position`, counted from 1, or the message of
/// what went wrong. A position before the first task or after the last is
/// refused.
pub open spec fn removed(document: Option<Seq<char>>, position: usize) -> Result<
    Seq<char>,
    Seq<char>,
> {
    match listed(document) {
        Err(message) => Err(message),
        Ok(sorted) => if 1 <= position <= sorted.len() {
            replaced(sorted.remove(position - 1))
        } else {
            Err(out_of_range_message())
        },
    }
}

/// Removes the task that stands at `position` in display order, counted from
/// 1. On any error the store is left as it was.
pub fn remove(position: usize, storage: &mut TodoPersistance) -> (result: Result<(), String>)
    ensures
        match removed(old(storage)@, position) {
            Ok(document) => result is Ok && final(storage)@ == Some(document),
            Err(message) => final(storage)@ == old(storage)@ && match result {
                Ok(_) => false,
                Err(text) => text@ == message,
            },
        },
{
    let mut todos = match listing(storage) {
        Ok(todos) => todos,
        Err(message) => {
            return Err(message);
        },
    };
    if position < 1 || position > todos.len() {
        return Err(String::from_str("No todo at that position"));
    }
    let ghost sorted = todos.deep_view();
    todos.remove(position - 1);
    assert(todos.deep_view() =~= sorted.remove(position - 1));
    match storage.override_todos(todos) {
        Ok(_) => Ok(()),
        Err(error) => Err(error.to_string()),
    }
}

/// Reads the user's choice of a position: a number, white space aside.
pub fn read_position(answer: &str) -> (position: Option<usize>)
    ensures
        position == number(trimmed(answer@)),
{
    parse_number(trim(answer))
}

/// Adding a task to an empty store writes the list of that one task.
pub proof fn lemma_add_to_empty_store(task: Task)
    ensures
        added(Some(Seq::<char>::empty()), Some(task)) == replaced(seq![task]),
{
    assert(Seq::<Task>::empty().push(task) =~= seq![task]);
}

/// Adding a task writes the list that was read with the task after it, and
/// so keeps every task that was there, in its place.
pub proof fn lemma_add_appends(document: Option<Seq<char>>, tasks: Seq<Task>, task: Task)
    requires
        read_document(document) == Ok::<Seq<Task>, TodoPersistanceError>(tasks),
    ensures
        added(document, Some(task)) == replaced(tasks + seq![task]),
{
    assert(tasks.push(task) =~= tasks + seq![task]);
}

/// Removing the first position from a list of three tasks with three
/// different priorities takes out the important one and writes the trivial
/// one and then the minor one, in whatever order the three were added.
pub proof fn lemma_remove_first_of_three(document: Option<Seq<char>>, tasks: Seq<Task>)
    requires
        read_document(document) == Ok::<Seq<Task>, TodoPersistanceError>(tasks),
        tasks.len() == 3,
        tasks[0].priority != tasks[1].priority,
        tasks[0].priority != tasks[2].priority,
        tasks[1].priority != tasks[2].priority,
    ensures
        exists|important: int, trivial: int, minor: int|
            {
                &&& 0 <= important < 3 && 0 <= trivial < 3 && 0 <= minor < 3
                &&& tasks[important].priority == Priority::Important
                &&& tasks[trivial].priority == Priority::Trivial
                &&& tasks[minor].priority == Priority::Minor
                &&& #[trigger] removed(document, 1) == replaced(
                    seq![tasks[trivial], tasks[minor]],
                )
            },
{
    lemma_display_order_of_three(tasks);
    let sorted = sorted_for_display(tasks);
    let important = choose|i: int| 0 <= i < 3 && tasks[i].priority == Priority::Important;
    let trivial = choose|i: int| 0 <= i < 3 && tasks[i].priority == Priority::Trivial;
    let minor = choose|i: int| 0 <= i < 3 && tasks[i].priority == Priority::Minor;
    assert(tasks[0].priority == Priority::Important || tasks[1].priority == Priority::Important
        || tasks[2].priority == Priority::Important);
    assert(tasks[0].priority == Priority::Trivial || tasks[1].priority == Priority::Trivial
        || tasks[2].priority == Priority::Trivial);
    assert(tasks[0].priority == Priority::Minor || tasks[1].priority == Priority::Minor
        || tasks[2].priority == Priority::Minor);
    assert(sorted.remove(0) =~= seq![tasks[trivial], tasks[minor]]);
    assert(removed(document, 1) == replaced(seq![tasks[trivial], tasks[minor]]));
}

} // verus!
