//! Tasks, and the store that keeps the whole list as one YAML document.

use vstd::prelude::*;
use crate::priority::Priority;
use crate::text::{blank, is_blank, same_text};
use crate::yaml::{parse_records, write_records, yaml_records, yaml_text};

verus! {

/// One entry of the list.
#[derive(Debug, PartialEq, Eq)]
pub struct Todo {
    pub title: String,
    pub priority: Priority,
}

impl Clone for Todo {
    fn clone(&self) -> (copy: Todo)
        ensures
            copy == *self,
    {
        Todo { title: self.title.clone(), priority: self.priority }
    }
}

/// What a `Todo` stands for: its title as a sequence of characters, and its
/// priority.
pub struct Task {
    pub title: Seq<char>,
    pub priority: Priority,
}

impl View for Todo {
    type V = Task;

    open spec fn view(&self) -> Task {
        Task { title: self.title@, priority: self.priority }
    }
}

impl DeepView for Todo {
    type V = Task;

    open spec fn deep_view(&self) -> Task {
        self@
    }
}

/// Why the store could not read or replace the list.
#[derive(Debug, Clone, Copy, PartialEq, Eq, Structural)]
pub enum TodoPersistanceError {
    /// The document is not a list of tasks, or the list could not be written
    /// as a document.
    Serialisation,
    /// The backing file could not be written.
    FileWrite,
    /// The backing file could not be read.
    FileRead,
}

impl TodoPersistanceError {
    /// The message shown for each error.
    pub open spec fn message(self) -> Seq<char> {
        match self {
            TodoPersistanceError::Serialisation => "Failed to serialize todos"@,
            TodoPersistanceError::FileWrite => "Failed to write todos"@,
            TodoPersistanceError::FileRead => "Failed to read todos"@,
        }
    }

    /// The message shown for this error, as text.
    pub fn to_string(&self) -> (text: String)
        ensures
            text@ == self.message(),
    {
        match self {
            TodoPersistanceError::Serialisation => String::from_str("Failed to serialize todos"),
            TodoPersistanceError::FileWrite => String::from_str("Failed to write todos"),
            TodoPersistanceError::FileRead => String::from_str("Failed to read todos"),
        }
    }
}

/// The value that a record gives to a key: that of the first field with this
/// key, if there is one.
pub open spec fn field(record: Seq<(Seq<char>, Seq<char>)>, key: Seq<char>) -> Option<Seq<char>>
    decreases record.len(),
{
    if record.len() == 0 {
        None
    } else if record[0].0 == key {
        Some(record[0].1)
    } else {
        field(record.drop_first(), key)
    }
}

/// The task that a record describes. It must have a `title`. Its `priority`,
/// where it has one, must be a canonical priority name; where it has none the
/// task is `Trivial`. Other keys are passed over.
pub open spec fn decode_record(record: Seq<(Seq<char>, Seq<char>)>) -> Option<Task> {
    match field(record, "title"@) {
        None => None,
        Some(title) => match field(record, "priority"@) {
            None => Some(Task { title, priority: Priority::Trivial }),
            Some(name) => match Priority::of_name(name) {
                None => None,
                Some(priority) => Some(Task { title, priority }),
            },
        },
    }
}

/// The tasks that a list of records describes, in the same order. One record
/// that describes no task spoils the whole list.
pub open spec fn decode_records(records: Seq<Seq<(Seq<char>, Seq<char>)>>) -> Result<
    Seq<Task>,
    TodoPersistanceError,
> {
    if forall|i: int| 0 <= i < records.len() ==> decode_record(#[trigger] records[i]) is Some {
        Ok(Seq::new(records.len(), |i: int| decode_record(records[i])->0))
    } else {
        Err(TodoPersistanceError::Serialisation)
    }
}

/// The record written for a task: its title, then the name of its priority.
pub open spec fn encode_record(task: Task) -> Seq<(Seq<char>, Seq<char>)> {
    seq![("title"@, task.title), ("priority"@, task.priority.name())]
}

/// The records written for a list of tasks, in the same order.
pub open spec fn encode_records(tasks: Seq<Task>) -> Seq<Seq<(Seq<char>, Seq<char>)>> {
    Seq::new(tasks.len(), |i: int| encode_record(tasks[i]))
}

/// What reading a document gives. A blank document is the empty list. Any
/// other is handed to the YAML reader, and the records that come back are
/// decoded. No document at all means that the file could not be read.
pub open spec fn read_document(document: Option<Seq<char>>) -> Result<
    Seq<Task>,
    TodoPersistanceError,
> {
    match document {
        None => Err(TodoPersistanceError::FileRead),
        Some(text) => if blank(text) {
            Ok(Seq::empty())
        } else {
            match yaml_records(text) {
                None => Err(TodoPersistanceError::Serialisation),
                Some(records) => decode_records(records),
            }
        },
    }
}

/// Looks a key up in a record.
fn find_field<'a>(record: &'a Vec<(String, String)>, key: &str) -> (found: Option<&'a String>)
    ensures
        match found {
            Some(value) => field(record.deep_view(), key@) == Some(value@),
            None => field(record.deep_view(), key@) is None,
        },
{
    let mut at: usize = 0;
    assert(record.deep_view().subrange(0, record.len() as int) =~= record.deep_view());
    while at < record.len()
        invariant
            at <= record.len(),
            field(record.deep_view(), key@) == field(
                record.deep_view().subrange(at as int, record.len() as int),
                key@,
            ),
        decreases record.len() - at,
    {
        let ghost rest = record.deep_view().subrange(at as int, record.len() as int);
        assert(rest[0] == record.deep_view()[at as int]);
        assert(rest.drop_first() =~= record.deep_view().subrange(
            at as int + 1,
            record.len() as int,
        ));
        if same_text(record[at].0.as_str(), key) {
            return Some(&record[at].1);
        }
        at += 1;
    }
    None
}

/// Decodes one record.
pub fn decode_one(record: &Vec<(String, String)>) -> (result: Option<Todo>)
    ensures
        match result {
            Some(todo) => decode_record(record.deep_view()) == Some(todo@),
            None => decode_record(record.deep_view()) is None,
        },
{
    match find_field(record, "title") {
        None => None,
        Some(title) => match find_field(record, "priority") {
            None => Some(Todo { title: title.clone(), priority: Priority::default() }),
            Some(name) => match Priority::parse(name.as_str()) {
                Err(_) => None,
                Ok(priority) => Some(Todo { title: title.clone(), priority }),
            },
        },
    }
}

/// Decodes a list of records into the tasks they describe.
pub fn decode(records: &Vec<Vec<(String, String)>>) -> (result: Result<
    Vec<Todo>,
    TodoPersistanceError,
>)
    ensures
        match result {
            Ok(todos) => decode_records(records.deep_view()) == Ok::<
                Seq<Task>,
                TodoPersistanceError,
            >(todos.deep_view()),
            Err(error) => decode_records(records.deep_view()) == Err::<
                Seq<Task>,
                TodoPersistanceError,
            >(error),
        },
{
    let mut todos: Vec<Todo> = Vec::new();
    let mut at: usize = 0;
    while at < records.len()
        invariant
            at <= records.len(),
            todos.len() == at,
            forall|i: int|
                0 <= i < at ==> decode_record(#[trigger] records.deep_view()[i]) == Some(
                    todos[i]@,
                ),
        decreases records.len() - at,
    {
        assert(records.deep_view()[at as int] == records[at as int].deep_view());
        match decode_one(&records[at]) {
            None => {
                return Err(TodoPersistanceError::Serialisation);
            },
            Some(todo) => {
                todos.push(todo);
            },
        }
        at += 1;
    }
    assert(todos.deep_view() =~= Seq::new(
        records.deep_view().len(),
        |i: int| decode_record(records.deep_view()[i])->0,
    ));
    Ok(todos)
}

/// Writes the list of tasks as records.
pub fn encode(todos: &Vec<Todo>) -> (records: Vec<Vec<(String, String)>>)
    ensures
        records.deep_view() == encode_records(todos.deep_view()),
{
    let mut records: Vec<Vec<(String, String)>> = Vec::new();
    let mut at: usize = 0;
    while at < todos.len()
        invariant
            at <= todos.len(),
            records.len() == at,
            forall|i: int|
                0 <= i < at ==> #[trigger] records[i].deep_view() == encode_record(todos[i]@),
        decreases todos.len() - at,
    {
        let mut record: Vec<(String, String)> = Vec::new();
        record.push((String::from_str("title"), todos[at].title.clone()));
        record.push((String::from_str("priority"), todos[at].priority.to_string()));
        assert(record.deep_view() =~= encode_record(todos[at as int]@));
        records.push(record);
        at += 1;
    }
    assert(records.deep_view() =~= encode_records(todos.deep_view()));
    records
}

/// The store of the task list. It holds the backing document as it was last
/// read or written; whoever owns the file loads the store from it and saves
/// the document back.
pub struct TodoPersistance {
    document: Option<String>,
}

impl View for TodoPersistance {
    type V = Option<Seq<char>>;

    closed spec fn view(&self) -> Option<Seq<char>> {
        match self.document {
            Some(text) => Some(text@),
            None => None,
        }
    }
}

impl TodoPersistance {
    /// The store over a file that was just created: its document is empty.
    pub fn new() -> (store: TodoPersistance)
        ensures
            store@ == Some(Seq::<char>::empty()),
    {
        TodoPersistance { document: Some(String::new()) }
    }

    /// The store over a document that was read from the backing file.
    pub fn open(document: String) -> (store: TodoPersistance)
        ensures
            store@ == Some(document@),
    {
        TodoPersistance { document: Some(document) }
    }

    /// The store over a backing file that could not be read.
    pub fn unreadable() -> (store: TodoPersistance)
        ensures
            store@ is None,
    {
        TodoPersistance { document: None }
    }

    /// The document as it stands, to be saved to the backing file.
    pub fn document(&self) -> (document: Option<&String>)
        ensures
            match document {
                Some(text) => self@ == Some(text@),
                None => self@ is None,
            },
    {
        self.document.as_ref()
    }

    /// Replaces the whole document by the given list. Where the list cannot be
    /// written as YAML the document stays as it was.
    pub fn override_todos(&mut self, todos: Vec<Todo>) -> (result: Result<
        (),
        TodoPersistanceError,
    >)
        ensures
            match yaml_text(encode_records(todos.deep_view())) {
                Some(text) => result is Ok && final(self)@ == Some(text),
                None => result == Err::<(), TodoPersistanceError>(
                    TodoPersistanceError::Serialisation,
                ) && final(self)@ == old(self)@,
            },
    {
        let records = encode(&todos);
        match write_records(&records) {
            Ok(text) => {
                self.document = Some(text);
                Ok(())
            },
            Err(_) => Err(TodoPersistanceError::Serialisation),
        }
    }

    /// Reads the whole list from the document.
    pub fn read_todos(&self) -> (result: Result<Vec<Todo>, TodoPersistanceError>)
        ensures
            match result {
                Ok(todos) => read_document(self@) == Ok::<Seq<Task>, TodoPersistanceError>(
                    todos.deep_view(),
                ),
                Err(error) => read_document(self@) == Err::<Seq<Task>, TodoPersistanceError>(
                    error,
                ),
            },
    {
        match &self.document {
            None => Err(TodoPersistanceError::FileRead),
            Some(text) => {
                if is_blank(text.as_str()) {
                    let todos: Vec<Todo> = Vec::new();
                    assert(todos.deep_view() =~= Seq::<Task>::empty());
                    Ok(todos)
                } else {
                    match parse_records(text.as_str()) {
                        Err(_) => Err(TodoPersistanceError::Serialisation),
                        Ok(records) => decode(&records),
                    }
                }
            },
        }
    }
}

/// Two lists of records say the same when they are equally long and each
/// record gives every key the value that its counterpart gives it. The order
/// of the fields within a record does not count.
pub open spec fn same_fields(
    left: Seq<Seq<(Seq<char>, Seq<char>)>>,
    right: Seq<Seq<(Seq<char>, Seq<char>)>>,
) -> bool {
    &&& left.len() == right.len()
    &&& forall|i: int, key: Seq<char>|
        0 <= i < left.len() ==> #[trigger] field(left[i], key) == field(right[i], key)
}

/// A task that is written as a record and decoded again is the same task.
pub proof fn lemma_record_round_trip(task: Task)
    ensures
        decode_record(encode_record(task)) == Some(task),
{
    reveal_strlit("title");
    reveal_strlit("priority");
    assert("title"@.len() == 5 && "priority"@.len() == 8);
    crate::priority::lemma_names_match(task.priority, task.priority.name());
    let record = encode_record(task);
    assert(record.drop_first()[0] == record[1]);
    assert(field(record, "title"@) == Some(task.title));
    assert(field(record.drop_first(), "priority"@) == Some(task.priority.name()));
    assert(field(record, "priority"@) == Some(task.priority.name()));
}

/// A list of tasks that is written as records and decoded again is the same
/// list, in the same order.
pub proof fn lemma_records_round_trip(tasks: Seq<Task>)
    ensures
        decode_records(encode_records(tasks)) == Ok::<Seq<Task>, TodoPersistanceError>(tasks),
{
    let records = encode_records(tasks);
    assert forall|i: int| 0 <= i < records.len() implies decode_record(#[trigger] records[i])
        == Some(tasks[i]) by {
        lemma_record_round_trip(tasks[i]);
    }
    assert(Seq::new(records.len(), |i: int| decode_record(records[i])->0) =~= tasks);
}

/// Records that say the same describe the same tasks.
pub proof fn lemma_same_fields_same_tasks(
    left: Seq<Seq<(Seq<char>, Seq<char>)>>,
    right: Seq<Seq<(Seq<char>, Seq<char>)>>,
)
    requires
        same_fields(left, right),
    ensures
        decode_records(left) == decode_records(right),
{
    assert forall|i: int| 0 <= i < left.len() implies decode_record(#[trigger] left[i])
        == decode_record(right[i]) by {
        assert(field(left[i], "title"@) == field(right[i], "title"@));
        assert(field(left[i], "priority"@) == field(right[i], "priority"@));
    }
    if forall|i: int| 0 <= i < left.len() ==> decode_record(#[trigger] left[i]) is Some {
        assert forall|i: int| 0 <= i < right.len() implies decode_record(
            #[trigger] right[i],
        ) is Some by {
            assert(decode_record(left[i]) is Some);
        }
        assert(Seq::new(left.len(), |i: int| decode_record(left[i])->0) =~= Seq::new(
            right.len(),
            |i: int| decode_record(right[i])->0,
        ));
    } else {
        let bad = choose|i: int| 0 <= i < left.len() && !(decode_record(
            #[trigger] left[i],
        ) is Some);
        assert(!(decode_record(right[bad]) is Some));
    }
}

/// A record with a title and without a priority describes a trivial task.
pub proof fn lemma_default_priority(record: Seq<(Seq<char>, Seq<char>)>)
    requires
        field(record, "title"@) is Some,
        field(record, "priority"@) is None,
    ensures
        decode_record(record) == Some(
            Task { title: field(record, "title"@)->0, priority: Priority::Trivial },
        ),
{
}

/// A blank document reads as the empty list; so does the empty document of
/// a store that was just made.
pub proof fn lemma_blank_document_is_empty_list(text: Seq<char>)
    requires
        blank(text),
    ensures
        read_document(Some(text)) == Ok::<Seq<Task>, TodoPersistanceError>(Seq::empty()),
        read_document(Some(Seq::<char>::empty())) == Ok::<Seq<Task>, TodoPersistanceError>(
            Seq::empty(),
        ),
{
}

/// Reading what was written gives the list that was written, wherever the
/// YAML text that the writer made is not blank and is read back as records
/// that say the same as those written. The writer and the reader of YAML are
/// not part of what is proved here; this states what the store adds to them.
pub proof fn lemma_round_trip(
    tasks: Seq<Task>,
    text: Seq<char>,
    read: Seq<Seq<(Seq<char>, Seq<char>)>>,
)
    ensures
        yaml_text(encode_records(tasks)) == Some(text) && !blank(text) && yaml_records(text)
            == Some(read) && same_fields(read, encode_records(tasks)) ==> read_document(
            Some(text),
        ) == Ok::<Seq<Task>, TodoPersistanceError>(tasks),
{
    if same_fields(read, encode_records(tasks)) {
        lemma_same_fields_same_tasks(read, encode_records(tasks));
        lemma_records_round_trip(tasks);
    }
}

} // verus!
