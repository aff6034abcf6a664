use doen::priority::Priority;
use doen::todo::{decode, decode_one, encode, Todo, TodoPersistance, TodoPersistanceError};

fn todo(title: &str, priority: Priority) -> Todo {
    Todo { title: title.to_string(), priority }
}

fn record(fields: &[(&str, &str)]) -> Vec<(String, String)> {
    fields.iter().map(|(key, value)| (key.to_string(), value.to_string())).collect()
}

#[test]
fn a_new_store_holds_an_empty_document() {
    let store = TodoPersistance::new();
    assert_eq!(store.document(), Some(&String::new()));
}

#[test]
fn an_empty_document_is_an_empty_list() {
    let store = TodoPersistance::new();
    assert_eq!(store.read_todos(), Ok(vec![]));
}

#[test]
fn a_blank_document_is_an_empty_list() {
    for text in ["", " ", "\n", " \t\r\n\n"] {
        let store = TodoPersistance::open(text.to_string());
        assert_eq!(store.read_todos(), Ok(vec![]));
    }
}

#[test]
fn an_empty_sequence_is_an_empty_list() {
    for text in ["[]", "[]\n", "--- []\n"] {
        let store = TodoPersistance::open(text.to_string());
        assert_eq!(store.read_todos(), Ok(vec![]));
    }
}

#[test]
fn an_unreadable_file_is_a_read_error() {
    let store = TodoPersistance::unreadable();
    assert_eq!(store.document(), None);
    assert_eq!(store.read_todos(), Err(TodoPersistanceError::FileRead));
}

#[test]
fn a_document_is_read() {
    let text = "- title: Pay rent\n  priority: Important\n- title: Buy milk\n  priority: Trivial\n- title: Sort socks\n  priority: Minor\n";
    let store = TodoPersistance::open(text.to_string());
    assert_eq!(
        store.read_todos(),
        Ok(vec![
            todo("Pay rent", Priority::Important),
            todo("Buy milk", Priority::Trivial),
            todo("Sort socks", Priority::Minor),
        ])
    );
}

#[test]
fn fields_may_come_in_any_order() {
    let text = "- priority: Minor\n  title: Sort socks\n";
    let store = TodoPersistance::open(text.to_string());
    assert_eq!(store.read_todos(), Ok(vec![todo("Sort socks", Priority::Minor)]));
}

#[test]
fn a_record_without_priority_is_trivial() {
    let text = "- title: Buy milk\n- title: Pay rent\n  priority: Important\n";
    let store = TodoPersistance::open(text.to_string());
    assert_eq!(
        store.read_todos(),
        Ok(vec![todo("Buy milk", Priority::Trivial), todo("Pay rent", Priority::Important)])
    );
}

#[test]
fn malformed_documents_are_serialisation_errors() {
    for text in [
        "title: Buy milk\n",
        "just text",
        "- title: Buy milk\n  priority: Urgent\n",
        "- title: Buy milk\n  priority: important\n",
        "- title: Buy milk\n  priority: 1\n",
        "- priority: Minor\n",
        "- Buy milk\n",
        "- title: [unclosed\n",
        "- title: Buy milk\n priority: Minor\n   x\n",
        "42",
    ] {
        let store = TodoPersistance::open(text.to_string());
        assert_eq!(store.read_todos(), Err(TodoPersistanceError::Serialisation));
    }
}

#[test]
fn one_bad_record_spoils_the_list() {
    let text = "- title: Pay rent\n  priority: Important\n- priority: Minor\n";
    let store = TodoPersistance::open(text.to_string());
    assert_eq!(store.read_todos(), Err(TodoPersistanceError::Serialisation));
}

#[test]
fn the_list_is_written_as_a_yaml_sequence() {
    let mut store = TodoPersistance::new();
    let todos = vec![todo("Pay rent", Priority::Important), todo("Buy milk", Priority::Trivial)];
    assert_eq!(store.override_todos(todos), Ok(()));
    assert_eq!(
        store.document(),
        Some(&"- title: Pay rent\n  priority: Important\n- title: Buy milk\n  priority: Trivial\n".to_string())
    );
}

#[test]
fn the_empty_list_is_written_as_an_empty_sequence() {
    let mut store = TodoPersistance::open("- title: old\n".to_string());
    assert_eq!(store.override_todos(vec![]), Ok(()));
    assert_eq!(store.document(), Some(&"[]\n".to_string()));
    assert_eq!(store.read_todos(), Ok(vec![]));
}

#[test]
fn writing_replaces_the_whole_document() {
    let mut store = TodoPersistance::open("- title: old\n  priority: Minor\n".to_string());
    assert_eq!(store.override_todos(vec![todo("new", Priority::Trivial)]), Ok(()));
    assert_eq!(store.read_todos(), Ok(vec![todo("new", Priority::Trivial)]));
}

#[test]
fn writing_makes_an_unreadable_store_readable() {
    let mut store = TodoPersistance::unreadable();
    assert_eq!(store.override_todos(vec![todo("new", Priority::Minor)]), Ok(()));
    assert_eq!(store.read_todos(), Ok(vec![todo("new", Priority::Minor)]));
}

#[test]
fn what_is_written_is_read_back() {
    let todos = vec![
        todo("Pay rent", Priority::Important),
        todo("Buy milk", Priority::Trivial),
        todo("Sort socks", Priority::Minor),
        todo("Buy milk", Priority::Trivial),
        todo("Call \"home\"", Priority::Minor),
        todo("", Priority::Important),
    ];
    let mut store = TodoPersistance::new();
    assert_eq!(store.override_todos(todos.clone()), Ok(()));
    assert_eq!(store.read_todos(), Ok(todos));
}

#[test]
fn titles_that_look_like_yaml_are_read_back() {
    for title in [
        "123", "1.5", "true", "null", "~", "- dash", "key: value", "# comment", "[list]",
        "{map}", "'quoted'", "\"double\"", " leading", "trailing ", "two\nlines", "tab\there",
        "Important", "title", "priority", "é日本🙂", "a: b: c", "*alias", "&anchor", "!tag",
        "| block", "> fold", "%percent", "@at", "`tick`", "?", "-", ":", "0x1f", "1e3", "yes",
        "no", "on", "off", ".inf", ".nan",
    ] {
        let todos = vec![todo(title, Priority::Minor), todo(title, Priority::Important)];
        let mut store = TodoPersistance::new();
        assert_eq!(store.override_todos(todos.clone()), Ok(()));
        assert_eq!(store.read_todos(), Ok(todos));
    }
}

#[test]
fn reading_then_writing_keeps_the_list() {
    let text = "- title: Pay rent\n  priority: Important\n- title: Buy milk\n";
    let mut store = TodoPersistance::open(text.to_string());
    let todos = store.read_todos().unwrap();
    assert_eq!(store.override_todos(todos.clone()), Ok(()));
    assert_eq!(store.read_todos(), Ok(todos));
    assert_eq!(
        store.document(),
        Some(&"- title: Pay rent\n  priority: Important\n- title: Buy milk\n  priority: Trivial\n".to_string())
    );
}

#[test]
fn store_error_messages() {
    assert_eq!(TodoPersistanceError::Serialisation.to_string(), "Failed to serialize todos");
    assert_eq!(TodoPersistanceError::FileWrite.to_string(), "Failed to write todos");
    assert_eq!(TodoPersistanceError::FileRead.to_string(), "Failed to read todos");
}

#[test]
fn records_are_decoded() {
    assert_eq!(
        decode_one(&record(&[("title", "Buy milk"), ("priority", "Minor")])),
        Some(todo("Buy milk", Priority::Minor))
    );
    assert_eq!(
        decode_one(&record(&[("priority", "Important"), ("title", "Pay rent")])),
        Some(todo("Pay rent", Priority::Important))
    );
    assert_eq!(
        decode_one(&record(&[("title", "Buy milk")])),
        Some(todo("Buy milk", Priority::Trivial))
    );
    assert_eq!(
        decode_one(&record(&[("done", "no"), ("title", "Buy milk")])),
        Some(todo("Buy milk", Priority::Trivial))
    );
    assert_eq!(decode_one(&record(&[("title", "")])), Some(todo("", Priority::Trivial)));
}

#[test]
fn records_that_describe_no_task_are_refused() {
    assert_eq!(decode_one(&record(&[])), None);
    assert_eq!(decode_one(&record(&[("priority", "Minor")])), None);
    assert_eq!(decode_one(&record(&[("Title", "Buy milk")])), None);
    assert_eq!(decode_one(&record(&[("title", "Buy milk"), ("priority", "Urgent")])), None);
    assert_eq!(decode_one(&record(&[("title", "Buy milk"), ("priority", "minor")])), None);
    assert_eq!(decode_one(&record(&[("title", "Buy milk"), ("priority", "3")])), None);
    assert_eq!(decode_one(&record(&[("title", "Buy milk"), ("priority", "")])), None);
}

#[test]
fn the_first_field_of_a_key_counts() {
    assert_eq!(
        decode_one(&record(&[("title", "first"), ("title", "second"), ("priority", "Minor"), ("priority", "Urgent")])),
        Some(todo("first", Priority::Minor))
    );
}

#[test]
fn lists_of_records_are_decoded() {
    assert_eq!(decode(&vec![]), Ok(vec![]));
    assert_eq!(
        decode(&vec![
            record(&[("title", "a"), ("priority", "Minor")]),
            record(&[("title", "b")]),
        ]),
        Ok(vec![todo("a", Priority::Minor), todo("b", Priority::Trivial)])
    );
    assert_eq!(
        decode(&vec![record(&[("title", "a")]), record(&[("priority", "Minor")])]),
        Err(TodoPersistanceError::Serialisation)
    );
}

#[test]
fn tasks_are_encoded_title_first() {
    assert_eq!(encode(&vec![]), Vec::<Vec<(String, String)>>::new());
    assert_eq!(
        encode(&vec![todo("a", Priority::Minor), todo("b", Priority::Important)]),
        vec![
            record(&[("title", "a"), ("priority", "Minor")]),
            record(&[("title", "b"), ("priority", "Important")]),
        ]
    );
}

#[test]
fn decoding_undoes_encoding() {
    let todos = vec![
        todo("a", Priority::Minor),
        todo("", Priority::Important),
        todo("a", Priority::Trivial),
    ];
    assert_eq!(decode(&encode(&todos)), Ok(todos));
}

#[test]
fn a_clone_is_equal() {
    let first = todo("Buy milk", Priority::Trivial);
    assert_eq!(first.clone(), first);
}
