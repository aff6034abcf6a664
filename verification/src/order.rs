//! The order in which tasks are shown: by priority, and within one priority
//! in the order in which they were added.

use vstd::prelude::*;
use crate::priority::Priority;
use crate::todo::{Task, Todo};

verus! {

/// The tasks of one priority, in the order in which they stand in the list.
pub open spec fn with_priority(tasks: Seq<Task>, priority: Priority) -> Seq<Task> {
    tasks.filter(|task: Task| task.priority == priority)
}

/// The list in display order: the important tasks first, then the trivial
/// ones, then the minor ones, each group in the order of the list.
pub open spec fn sorted_for_display(tasks: Seq<Task>) -> Seq<Task> {
    with_priority(tasks, Priority::Important) + with_priority(tasks, Priority::Trivial)
        + with_priority(tasks, Priority::Minor)
}

/// Taking one more task into account adds it to the group of its priority and
/// leaves the other groups alone.
proof fn lemma_with_priority_step(tasks: Seq<Task>, count: int, priority: Priority)
    requires
        0 <= count < tasks.len(),
    ensures
        with_priority(tasks.take(count + 1), priority) == if tasks[count].priority == priority {
            with_priority(tasks.take(count), priority).push(tasks[count])
        } else {
            with_priority(tasks.take(count), priority)
        },
{
    reveal(Seq::filter);
    assert(tasks.take(count + 1).drop_last() =~= tasks.take(count));
}

/// Appends to `sorted` the tasks of one priority, in their order.
fn append_with_priority(sorted: &mut Vec<Todo>, todos: &Vec<Todo>, priority: Priority)
    ensures
        final(sorted).deep_view() == old(sorted).deep_view() + with_priority(
            todos.deep_view(),
            priority,
        ),
{
    let mut at: usize = 0;
    proof {
        reveal(Seq::filter);
        assert(todos.deep_view().take(0) =~= Seq::<Task>::empty());
        assert(sorted.deep_view() =~= old(sorted).deep_view() + with_priority(
            todos.deep_view().take(0),
            priority,
        ));
    }
    while at < todos.len()
        invariant
            at <= todos.len(),
            sorted.deep_view() == old(sorted).deep_view() + with_priority(
                todos.deep_view().take(at as int),
                priority,
            ),
        decreases todos.len() - at,
    {
        let ghost before = sorted.deep_view();
        proof {
            lemma_with_priority_step(todos.deep_view(), at as int, priority);
        }
        if todos[at].priority == priority {
            sorted.push(todos[at].clone());
            assert(sorted.deep_view() =~= before.push(todos.deep_view()[at as int]));
            assert(sorted.deep_view() =~= old(sorted).deep_view() + with_priority(
                todos.deep_view().take(at as int + 1),
                priority,
            ));
        }
        at += 1;
    }
    assert(todos.deep_view().take(todos.len() as int) =~= todos.deep_view());
}

/// Sorts the tasks for display: by priority, the most pressing first. The
/// sort is stable, so tasks of one priority keep the order in which they were
/// added.
pub fn sort_for_display(todos: Vec<Todo>) -> (sorted: Vec<Todo>)
    ensures
        sorted.deep_view() == sorted_for_display(todos.deep_view()),
{
    let mut sorted: Vec<Todo> = Vec::new();
    assert(sorted.deep_view() =~= Seq::<Task>::empty());
    append_with_priority(&mut sorted, &todos, Priority::Important);
    append_with_priority(&mut sorted, &todos, Priority::Trivial);
    append_with_priority(&mut sorted, &todos, Priority::Minor);
    assert(sorted.deep_view() =~= sorted_for_display(todos.deep_view()));
    sorted
}

/// Every task of the group of a priority has that priority and is a task of
/// the list.
proof fn lemma_group_members(tasks: Seq<Task>, priority: Priority, i: int)
    requires
        0 <= i < with_priority(tasks, priority).len(),
    ensures
        with_priority(tasks, priority)[i].priority == priority,
        tasks.contains(with_priority(tasks, priority)[i]),
    decreases tasks.len(),
{
    reveal(Seq::filter);
    if tasks.len() > 0 {
        let above = with_priority(tasks.drop_last(), priority);
        if i < above.len() {
            lemma_group_members(tasks.drop_last(), priority, i);
            let task = above[i];
            let at = choose|at: int| 0 <= at < tasks.drop_last().len() && tasks.drop_last()[at] == task;
            assert(tasks[at] == task);
        } else {
            assert(tasks[tasks.len() - 1] == tasks.last());
        }
    }
}

/// In display order no task stands before a more pressing one.
pub proof fn lemma_sorted_ranks_ascend(tasks: Seq<Task>, i: int, j: int)
    requires
        0 <= i <= j < sorted_for_display(tasks).len(),
    ensures
        sorted_for_display(tasks)[i].priority.rank_spec() <= sorted_for_display(
            tasks,
        )[j].priority.rank_spec(),
{
    let important = with_priority(tasks, Priority::Important);
    let trivial = with_priority(tasks, Priority::Trivial);
    let minor = with_priority(tasks, Priority::Minor);
    let sorted = sorted_for_display(tasks);
    assert forall|k: int| 0 <= k < sorted.len() implies #[trigger] sorted[k].priority == (if k
        < important.len() {
        Priority::Important
    } else if k < important.len() + trivial.len() {
        Priority::Trivial
    } else {
        Priority::Minor
    }) by {
        if k < important.len() {
            lemma_group_members(tasks, Priority::Important, k);
        } else if k < important.len() + trivial.len() {
            lemma_group_members(tasks, Priority::Trivial, k - important.len());
        } else {
            lemma_group_members(tasks, Priority::Minor, k - important.len() - trivial.len());
        }
    }
    assert(sorted[i].priority.rank_spec() <= sorted[j].priority.rank_spec());
}

/// Display order only rearranges: it holds every task of the list as often
/// as the list does, and no other.
pub proof fn lemma_sorted_is_permutation(tasks: Seq<Task>)
    ensures
        sorted_for_display(tasks).to_multiset() == tasks.to_multiset(),
        sorted_for_display(tasks).len() == tasks.len(),
    decreases tasks.len(),
{
    broadcast use vstd::seq_lib::group_to_multiset_ensures;
    broadcast use vstd::seq_lib::lemma_multiset_commutative;

    reveal(Seq::filter);
    let important = with_priority(tasks, Priority::Important);
    let trivial = with_priority(tasks, Priority::Trivial);
    let minor = with_priority(tasks, Priority::Minor);
    if tasks.len() == 0 {
        assert(sorted_for_display(tasks) =~= tasks);
    } else {
        let above = tasks.drop_last();
        let last = tasks.last();
        lemma_sorted_is_permutation(above);
        assert(tasks =~= above.push(last));
        let former = with_priority(above, Priority::Important).to_multiset().add(
            with_priority(above, Priority::Trivial).to_multiset(),
        ).add(with_priority(above, Priority::Minor).to_multiset());
        assert(former =~= above.to_multiset());
        let latter = important.to_multiset().add(trivial.to_multiset()).add(minor.to_multiset());
        assert(latter =~= former.insert(last));
        assert(sorted_for_display(tasks).to_multiset() =~= latter);
        assert(sorted_for_display(tasks).to_multiset() =~= tasks.to_multiset());
    }
    assert(sorted_for_display(tasks).to_multiset().len() == tasks.to_multiset().len());
}

/// The group of one priority within the group of a priority is that group
/// itself where the two priorities are the same, and empty where they differ.
proof fn lemma_group_of_group(tasks: Seq<Task>, outer: Priority, inner: Priority)
    ensures
        with_priority(with_priority(tasks, outer), inner) == if outer == inner {
            with_priority(tasks, outer)
        } else {
            Seq::<Task>::empty()
        },
    decreases tasks.len(),
{
    reveal(Seq::filter);
    if tasks.len() > 0 {
        lemma_group_of_group(tasks.drop_last(), outer, inner);
        if tasks.last().priority == outer {
            let above = with_priority(tasks.drop_last(), outer);
            assert(with_priority(tasks, outer).drop_last() =~= above);
        }
    }
}

/// The sort is stable: the tasks of each priority stand in display order as
/// they stood in the list.
pub proof fn lemma_sort_is_stable(tasks: Seq<Task>, priority: Priority)
    ensures
        with_priority(sorted_for_display(tasks), priority) == with_priority(tasks, priority),
{
    let important = with_priority(tasks, Priority::Important);
    let trivial = with_priority(tasks, Priority::Trivial);
    let minor = with_priority(tasks, Priority::Minor);
    let chosen = |task: Task| task.priority == priority;
    Seq::filter_distributes_over_add(important + trivial, minor, chosen);
    Seq::filter_distributes_over_add(important, trivial, chosen);
    lemma_group_of_group(tasks, Priority::Important, priority);
    lemma_group_of_group(tasks, Priority::Trivial, priority);
    lemma_group_of_group(tasks, Priority::Minor, priority);
    assert(with_priority(sorted_for_display(tasks), priority) =~= with_priority(tasks, priority));
}

/// A list that is in display order stays as it is when sorted again.
pub proof fn lemma_sort_is_idempotent(tasks: Seq<Task>)
    ensures
        sorted_for_display(sorted_for_display(tasks)) == sorted_for_display(tasks),
{
    lemma_sort_is_stable(tasks, Priority::Important);
    lemma_sort_is_stable(tasks, Priority::Trivial);
    lemma_sort_is_stable(tasks, Priority::Minor);
}

/// Every task of the list stands somewhere in display order.
proof fn lemma_sorted_holds(tasks: Seq<Task>, i: int) -> (at: int)
    requires
        0 <= i < tasks.len(),
    ensures
        0 <= at < sorted_for_display(tasks).len(),
        sorted_for_display(tasks)[at] == tasks[i],
{
    broadcast use vstd::seq_lib::group_to_multiset_ensures;

    lemma_sorted_is_permutation(tasks);
    assert(tasks.contains(tasks[i]));
    assert(sorted_for_display(tasks).to_multiset().count(tasks[i]) > 0);
    assert(sorted_for_display(tasks).contains(tasks[i]));
    choose|at: int|
        0 <= at < sorted_for_display(tasks).len() && sorted_for_display(tasks)[at] == tasks[i]
}

/// The first task in display order is a task of the list, and none of the
/// list is more pressing. Taking it out leaves every other task, each as often
/// as the list holds it.
pub proof fn lemma_first_is_most_pressing(tasks: Seq<Task>, i: int)
    requires
        0 <= i < tasks.len(),
    ensures
        sorted_for_display(tasks).len() == tasks.len(),
        tasks.contains(sorted_for_display(tasks)[0]),
        sorted_for_display(tasks)[0].priority.rank_spec() <= tasks[i].priority.rank_spec(),
        sorted_for_display(tasks).remove(0).to_multiset() == tasks.to_multiset().remove(
            sorted_for_display(tasks)[0],
        ),
{
    broadcast use vstd::seq_lib::group_to_multiset_ensures;

    let sorted = sorted_for_display(tasks);
    lemma_sorted_is_permutation(tasks);
    let at = lemma_sorted_holds(tasks, i);
    lemma_sorted_ranks_ascend(tasks, 0, at);
    assert(sorted.contains(sorted[0]));
    assert(tasks.to_multiset().count(sorted[0]) > 0);
}

/// Of three tasks with three different priorities, in whatever order they
/// were added, the first in display order is the important one. Taking out
/// the task at the first position leaves the trivial one and then the minor
/// one.
pub proof fn lemma_display_order_of_three(tasks: Seq<Task>)
    requires
        tasks.len() == 3,
        tasks[0].priority != tasks[1].priority,
        tasks[0].priority != tasks[2].priority,
        tasks[1].priority != tasks[2].priority,
    ensures
        sorted_for_display(tasks).len() == 3,
        sorted_for_display(tasks)[0].priority == Priority::Important,
        sorted_for_display(tasks).remove(0).len() == 2,
        forall|i: int|
            0 <= i < 3 ==> #[trigger] tasks[i] == (match tasks[i].priority {
                Priority::Important => sorted_for_display(tasks)[0],
                Priority::Trivial => sorted_for_display(tasks).remove(0)[0],
                Priority::Minor => sorted_for_display(tasks).remove(0)[1],
            }),
{
    let sorted = sorted_for_display(tasks);
    lemma_sorted_is_permutation(tasks);
    let first = lemma_sorted_holds(tasks, 0);
    let second = lemma_sorted_holds(tasks, 1);
    let third = lemma_sorted_holds(tasks, 2);
    lemma_sorted_ranks_ascend(tasks, 0, 1);
    lemma_sorted_ranks_ascend(tasks, 1, 2);
    lemma_sorted_ranks_ascend(tasks, 0, 2);
    assert(sorted[0].priority == Priority::Important);
    assert(sorted[1].priority == Priority::Trivial);
    assert(sorted[2].priority == Priority::Minor);
    assert(sorted.remove(0)[0] == sorted[1]);
    assert(sorted.remove(0)[1] == sorted[2]);
}

} // verus!
