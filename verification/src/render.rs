//! The lines of the grouped view: tasks under a header for each run of one
//! priority.

use vstd::prelude::*;
use crate::color::{colored, colored_text};
use crate::priority::Priority;
use crate::todo::{Task, Todo};

verus! {

/// One line of the grouped view.
#[derive(Debug, PartialEq, Eq)]
pub enum Line {
    /// The header over a run of tasks of one priority. Every header but the
    /// first is set off from what stands above it by an empty line.
    Header { priority: Priority, first: bool },
    /// One task.
    Entry { title: String },
}

impl Clone for Line {
    fn clone(&self) -> (copy: Line)
        ensures
            copy == *self,
    {
        match self {
            Line::Header { priority, first } => Line::Header {
                priority: *priority,
                first: *first,
            },
            Line::Entry { title } => Line::Entry { title: title.clone() },
        }
    }
}

/// What a `Line` stands for.
pub enum LineView {
    Header { priority: Priority, first: bool },
    Entry { title: Seq<char> },
}

impl View for Line {
    type V = LineView;

    open spec fn view(&self) -> LineView {
        match *self {
            Line::Header { priority, first } => LineView::Header { priority, first },
            Line::Entry { title } => LineView::Entry { title: title@ },
        }
    }
}

impl DeepView for Line {
    type V = LineView;

    open spec fn deep_view(&self) -> LineView {
        self@
    }
}

/// The text of a line: a header is the name of its priority, after a line
/// break unless it is the first; a task is its title after a dash.
pub open spec fn line_text(line: LineView) -> Seq<char> {
    match line {
        LineView::Header { priority, first } => if first {
            priority.name()
        } else {
            "\n"@ + priority.name()
        },
        LineView::Entry { title } => "- "@ + title,
    }
}

/// What is printed for a line: a header in the colour of its priority, a
/// task as it is.
pub open spec fn line_display(line: LineView) -> Seq<char> {
    match line {
        LineView::Header { priority, first } => colored_text(
            (30 + priority.color_spec().index()) as u8,
            line_text(line),
        ),
        LineView::Entry { title } => line_text(line),
    }
}

impl Line {
    /// What is printed for the line.
    pub fn display(&self) -> (text: String)
        ensures
            text@ == line_display(self@),
    {
        let text = self.text();
        match self {
            Line::Header { priority, first } => colored(priority.color().fg_code(), text.as_str()),
            Line::Entry { title } => text,
        }
    }

    /// The text of the line, without colour.
    pub fn text(&self) -> (text: String)
        ensures
            text@ == line_text(self@),
    {
        match self {
            Line::Header { priority, first } => {
                if *first {
                    priority.to_string()
                } else {
                    let name = priority.to_string();
                    String::from_str("\n").concat(name.as_str())
                }
            },
            Line::Entry { title } => String::from_str("- ").concat(title.as_str()),
        }
    }
}

/// The grouped view of a list, read from its start: each task is a line, and
/// a header stands above a task wherever its priority differs from that of
/// the task before it, and above the first.
pub open spec fn grouped(tasks: Seq<Task>) -> Seq<LineView>
    decreases tasks.len(),
{
    if tasks.len() == 0 {
        Seq::empty()
    } else {
        let above = grouped(tasks.drop_last());
        let task = tasks.last();
        let entry = LineView::Entry { title: task.title };
        if tasks.len() == 1 {
            above.push(LineView::Header { priority: task.priority, first: true }).push(entry)
        } else if tasks[tasks.len() - 2].priority != task.priority {
            above.push(LineView::Header { priority: task.priority, first: false }).push(entry)
        } else {
            above.push(entry)
        }
    }
}

/// The first `limit` tasks of a list, or all of them where it has fewer.
pub open spec fn top(tasks: Seq<Task>, limit: int) -> Seq<Task> {
    if limit < tasks.len() {
        tasks.take(limit)
    } else {
        tasks
    }
}

/// Lays out the first `limit` tasks of a list that is already in display
/// order. The cut is made before the grouping, so a header appears only for a
/// priority that has a task among those shown.
pub fn render_grouped(todos: &Vec<Todo>, limit: usize) -> (lines: Vec<Line>)
    ensures
        lines.deep_view() == grouped(top(todos.deep_view(), limit as int)),
{
    let count = if limit < todos.len() {
        limit
    } else {
        todos.len()
    };
    let ghost tasks = todos.deep_view();
    let mut lines: Vec<Line> = Vec::new();
    let mut at: usize = 0;
    assert(lines.deep_view() =~= grouped(tasks.take(0)));
    while at < count
        invariant
            at <= count <= todos.len(),
            tasks == todos.deep_view(),
            lines.deep_view() == grouped(tasks.take(at as int)),
        decreases count - at,
    {
        let ghost above = lines.deep_view();
        let ghost shown = tasks.take(at as int + 1);
        assert(shown.drop_last() =~= tasks.take(at as int));
        assert(shown.last() == todos[at as int]@);
        let priority = todos[at].priority;
        if at == 0 {
            lines.push(Line::Header { priority, first: true });
        } else if todos[at - 1].priority != priority {
            assert(shown[shown.len() - 2] == todos[at as int - 1]@);
            lines.push(Line::Header { priority, first: false });
        } else {
            assert(shown[shown.len() - 2] == todos[at as int - 1]@);
        }
        lines.push(Line::Entry { title: todos[at].title.clone() });
        assert(lines.deep_view() =~= grouped(shown));
        at += 1;
    }
    assert(tasks.take(count as int) =~= top(tasks, limit as int));
    lines
}

} // verus!
