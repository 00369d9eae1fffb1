//! The checklist: a named list of tasks with their done-flags, the schedule
//! on which the flags are cleared, and the instant of the next clearing.

use crate::schedule::Schedule;
use vstd::prelude::*;

verus! {

/// What a task is: its label and whether it is done.
pub struct TaskView {
    pub label: Seq<char>,
    pub done: bool,
}

/// One task of a checklist.
#[derive(Clone, Debug, PartialEq, Eq)]
pub struct Task {
    pub label: String,
    pub done: bool,
}

impl View for Task {
    type V = TaskView;

    open spec fn view(&self) -> TaskView {
        TaskView { label: self.label@, done: self.done }
    }
}

/// The tasks of a vector, each by its view.
pub open spec fn task_views(tasks: Seq<Task>) -> Seq<TaskView> {
    tasks.map_values(|t: Task| t@)
}

/// The texts of a vector of strings.
pub open spec fn texts(strings: Seq<String>) -> Seq<Seq<char>> {
    strings.map_values(|s: String| s@)
}

/// Whether one of the tasks carries the label.
pub open spec fn has_label(tasks: Seq<TaskView>, label: Seq<char>) -> bool {
    exists|i: int| 0 <= i < tasks.len() && #[trigger] tasks[i].label == label
}

/// No label occurs twice.
pub open spec fn distinct_labels(tasks: Seq<TaskView>) -> bool {
    forall|i: int, j: int|
        0 <= i < j < tasks.len() ==> #[trigger] tasks[i].label != #[trigger] tasks[j].label
}

/// The tasks with every flag cleared.
pub open spec fn cleared(tasks: Seq<TaskView>) -> Seq<TaskView> {
    tasks.map_values(|t: TaskView| TaskView { label: t.label, done: false })
}

/// The tasks with the flag of `label` set to `done`; unchanged where no task
/// carries the label.
pub open spec fn with_flag(tasks: Seq<TaskView>, label: Seq<char>, done: bool) -> Seq<TaskView> {
    tasks.map_values(
        |t: TaskView|
            if t.label == label {
                TaskView { label: t.label, done }
            } else {
                t
            },
    )
}

/// The tasks of a new checklist: one for each label of the list, in the
/// list's order, a label that comes again left out, and nothing done.
pub open spec fn fresh_tasks(todo: Seq<Seq<char>>) -> Seq<TaskView>
    decreases todo.len(),
{
    if todo.len() == 0 {
        Seq::empty()
    } else {
        let before = fresh_tasks(todo.drop_last());
        if has_label(before, todo.last()) {
            before
        } else {
            before.push(TaskView { label: todo.last(), done: false })
        }
    }
}

/// What a checklist is.
pub struct ChecklistView {
    pub name: Seq<char>,
    pub tasks: Seq<TaskView>,
    /// The schedule's expression; `None` for a checklist that is never
    /// cleared.
    pub schedule: Option<Seq<char>>,
    /// The instant of the next clearing; `None` while it is not worked out.
    pub next_reset: Option<i64>,
}

impl ChecklistView {
    /// Labels are unique, and only a checklist with a schedule awaits a
    /// clearing.
    pub open spec fn wf(self) -> bool {
        &&& distinct_labels(self.tasks)
        &&& self.schedule is None ==> self.next_reset is None
    }

    /// The done-flag of each label.
    pub open spec fn flags(self) -> Map<Seq<char>, bool> {
        Map::new(
            |label: Seq<char>| has_label(self.tasks, label),
            |label: Seq<char>|
                self.tasks[choose|i: int|
                    0 <= i < self.tasks.len() && #[trigger] self.tasks[i].label == label].done,
        )
    }

    /// Nothing is done.
    pub open spec fn nothing_done(self) -> bool {
        forall|i: int| 0 <= i < self.tasks.len() ==> !(#[trigger] self.tasks[i]).done
    }
}

/// In a valid checklist the done-flag of a label is the flag of the one task
/// that carries it.
pub proof fn lemma_flag_of_task(list: ChecklistView, index: int)
    requires
        list.wf(),
        0 <= index < list.tasks.len(),
    ensures
        list.flags().dom().contains(list.tasks[index].label),
        list.flags()[list.tasks[index].label] == list.tasks[index].done,
{
    let label = list.tasks[index].label;
    let chosen = choose|i: int| 0 <= i < list.tasks.len() && #[trigger] list.tasks[i].label == label;
    assert(chosen == index);
}

/// Setting the flag of a label that a valid checklist holds changes the
/// done-flag of that label and of no other.
pub proof fn lemma_with_flag_sets_one(list: ChecklistView, label: Seq<char>, done: bool)
    requires
        list.wf(),
    ensures
        (ChecklistView { tasks: with_flag(list.tasks, label, done), ..list }).wf(),
        has_label(list.tasks, label) ==> (ChecklistView {
            tasks: with_flag(list.tasks, label, done),
            ..list
        }).flags() == list.flags().insert(label, done),
        !has_label(list.tasks, label) ==> with_flag(list.tasks, label, done) == list.tasks,
{
    let after = ChecklistView { tasks: with_flag(list.tasks, label, done), ..list };
    assert forall|i: int| 0 <= i < list.tasks.len() implies #[trigger] after.tasks[i].label
        == list.tasks[i].label by {}
    assert(after.wf());
    if has_label(list.tasks, label) {
        assert forall|l: Seq<char>| after.flags().dom().contains(l) <==> list.flags().insert(
            label,
            done,
        ).dom().contains(l) by {
            if has_label(after.tasks, l) {
                let i = choose|i: int| 0 <= i < after.tasks.len() && #[trigger] after.tasks[i].label == l;
                assert(list.tasks[i].label == l);
            }
            if has_label(list.tasks, l) {
                let i = choose|i: int| 0 <= i < list.tasks.len() && #[trigger] list.tasks[i].label == l;
                assert(after.tasks[i].label == l);
            }
        }
        assert forall|l: Seq<char>| after.flags().dom().contains(l) implies after.flags()[l]
            == list.flags().insert(label, done)[l] by {
            let i = choose|i: int| 0 <= i < after.tasks.len() && #[trigger] after.tasks[i].label == l;
            lemma_flag_of_task(after, i);
            lemma_flag_of_task(list, i);
        }
        assert(after.flags() =~= list.flags().insert(label, done));
    } else {
        assert forall|i: int| 0 <= i < list.tasks.len() implies #[trigger] with_flag(
            list.tasks,
            label,
            done,
        )[i] == list.tasks[i] by {
            assert(list.tasks[i].label != label);
        }
        assert(with_flag(list.tasks, label, done) =~= list.tasks);
    }
}

/// The view of an optional schedule.
pub open spec fn schedule_view(schedule: Option<Schedule>) -> Option<Seq<char>> {
    match schedule {
        Some(s) => Some(s@),
        None => None,
    }
}

/// A checklist.
#[derive(Debug)]
pub struct Checklist {
    name: String,
    tasks: Vec<Task>,
    schedule: Option<Schedule>,
    next_reset: Option<i64>,
}

impl View for Checklist {
    type V = ChecklistView;

    closed spec fn view(&self) -> ChecklistView {
        ChecklistView {
            name: self.name@,
            tasks: task_views(self.tasks@),
            schedule: schedule_view(self.schedule),
            next_reset: self.next_reset,
        }
    }
}

/// The index of the first task that carries the label.
fn position(tasks: &Vec<Task>, label: &String) -> (found: Option<usize>)
    ensures
        found is Some <==> has_label(task_views(tasks@), label@),
        found matches Some(i) ==> i < tasks.len() && tasks[i as int].label@ == label@,
{
    let mut i: usize = 0;
    while i < tasks.len()
        invariant
            i <= tasks.len(),
            forall|k: int| 0 <= k < i ==> (#[trigger] task_views(tasks@)[k]).label != label@,
        decreases tasks.len() - i,
    {
        if tasks[i].label == *label {
            assert(task_views(tasks@)[i as int].label == label@);
            return Some(i);
        }
        i += 1;
    }
    None
}

/// Clears the flag of every task.
fn clear_flags(tasks: &mut Vec<Task>)
    ensures
        task_views(final(tasks)@) == cleared(task_views(old(tasks)@)),
    no_unwind
{
    let mut i: usize = 0;
    while i < tasks.len()
        invariant
            i <= tasks.len(),
            tasks.len() == old(tasks).len(),
            forall|k: int| 0 <= k < tasks.len() ==> (#[trigger] tasks[k]).label == old(tasks)[k].label,
            forall|k: int| 0 <= k < i ==> !(#[trigger] tasks[k]).done,
            forall|k: int| i <= k < tasks.len() ==> (#[trigger] tasks[k]).done == old(tasks)[k].done,
        decreases tasks.len() - i,
    {
        tasks[i].done = false;
        i += 1;
    }
    proof {
        assert(task_views(tasks@) =~= cleared(task_views(old(tasks)@)));
    }
}

/// Sets the flag of the task at `index`.
fn set_flag(tasks: &mut Vec<Task>, index: usize, done: bool)
    requires
        index < old(tasks).len(),
        distinct_labels(task_views(old(tasks)@)),
    ensures
        task_views(final(tasks)@) == with_flag(
            task_views(old(tasks)@),
            old(tasks)[index as int].label@,
            done,
        ),
        distinct_labels(task_views(final(tasks)@)),
    no_unwind
{
    tasks[index].done = done;
    proof {
        let before = task_views(old(tasks)@);
        let after = task_views(tasks@);
        assert forall|k: int| 0 <= k < before.len() implies #[trigger] after[k] == with_flag(
            before,
            before[index as int].label,
            done,
        )[k] by {
            if k != index {
                assert(before[k].label != before[index as int].label);
            }
        }
        assert(after =~= with_flag(before, before[index as int].label, done));
        assert forall|i: int, j: int| 0 <= i < j < after.len() implies #[trigger] after[i].label
            != #[trigger] after[j].label by {
            assert(after[i].label == before[i].label);
            assert(after[j].label == before[j].label);
        }
    }
}

/// A copy of the tasks.
pub(crate) fn copy_tasks(tasks: &Vec<Task>) -> (copy: Vec<Task>)
    ensures
        task_views(copy@) == task_views(tasks@),
{
    let mut copy: Vec<Task> = Vec::new();
    let mut i: usize = 0;
    while i < tasks.len()
        invariant
            i <= tasks.len(),
            copy.len() == i,
            forall|k: int| 0 <= k < i ==> (#[trigger] copy[k])@ == tasks[k]@,
        decreases tasks.len() - i,
    {
        copy.push(Task { label: tasks[i].label.clone(), done: tasks[i].done });
        i += 1;
    }
    proof {
        assert(task_views(copy@) =~= task_views(tasks@));
    }
    copy
}

impl Checklist {
    /// Every checklist is valid, at all times.
    #[verifier::type_invariant]
    pub open spec fn valid(self) -> bool {
        self@.wf()
    }

    /// A new checklist: the labels of `todo` as its tasks, nothing done, and
    /// no clearing worked out yet.
    pub fn new(name: String, todo: &Vec<String>, schedule: Option<Schedule>) -> (list: Checklist)
        ensures
            list@ == (ChecklistView {
                name: name@,
                tasks: fresh_tasks(texts(todo@)),
                schedule: schedule_view(schedule),
                next_reset: None,
            }),
            list@.wf(),
    {
        let mut tasks: Vec<Task> = Vec::new();
        let mut i: usize = 0;
        proof {
            assert(texts(todo@).take(0) =~= Seq::empty());
            assert(task_views(tasks@) =~= Seq::empty());
        }
        while i < todo.len()
            invariant
                i <= todo.len(),
                task_views(tasks@) == fresh_tasks(texts(todo@).take(i as int)),
                distinct_labels(task_views(tasks@)),
            decreases todo.len() - i,
        {
            let ghost before = task_views(tasks@);
            let ghost upto = texts(todo@).take(i as int + 1);
            proof {
                assert(upto.drop_last() =~= texts(todo@).take(i as int));
                assert(upto.last() == todo[i as int]@);
            }
            if position(&tasks, &todo[i]).is_none() {
                tasks.push(Task { label: todo[i].clone(), done: false });
                proof {
                    assert(task_views(tasks@) =~= before.push(
                        TaskView { label: todo[i as int]@, done: false },
                    ));
                }
            }
            i += 1;
        }
        proof {
            assert(texts(todo@).take(todo.len() as int) =~= texts(todo@));
        }
        Checklist { name, tasks, schedule, next_reset: None }
    }

    /// Clears every flag and forgets the instant of the next clearing.
    pub fn reset(&mut self)
        ensures
            final(self)@ == (ChecklistView {
                tasks: cleared(old(self)@.tasks),
                next_reset: None,
                ..old(self)@
            }),
            final(self)@.wf(),
            final(self)@.nothing_done(),
    {
        proof {
            use_type_invariant(&*self);
        }
        clear_flags(&mut self.tasks);
        self.next_reset = None;
    }

    /// Sets the flag of the task that carries `label`, and says whether there
    /// is one; without one nothing changes.
    pub fn set_done(&mut self, label: &str, done: bool) -> (found: bool)
        ensures
            found == has_label(old(self)@.tasks, label@),
            final(self)@ == (ChecklistView {
                tasks: with_flag(old(self)@.tasks, label@, done),
                ..old(self)@
            }),
            final(self)@.wf(),
            found ==> final(self)@.flags() == old(self)@.flags().insert(label@, done),
            !found ==> final(self)@ == old(self)@,
    {
        proof {
            use_type_invariant(&*self);
            lemma_with_flag_sets_one(self@, label@, done);
        }
        let wanted = String::from_str(label);
        match position(&self.tasks, &wanted) {
            Some(index) => {
                set_flag(&mut self.tasks, index, done);
                true
            },
            None => false,
        }
    }

    /// Puts the parts of a checklist together.
    pub(crate) fn from_parts(
        name: String,
        tasks: Vec<Task>,
        schedule: Option<Schedule>,
        next_reset: Option<i64>,
    ) -> (list: Checklist)
        requires
            distinct_labels(task_views(tasks@)),
            schedule is None ==> next_reset is None,
        ensures
            list@ == (ChecklistView {
                name: name@,
                tasks: task_views(tasks@),
                schedule: schedule_view(schedule),
                next_reset,
            }),
            list@.wf(),
    {
        Checklist { name, tasks, schedule, next_reset }
    }

    /// Sets the instant of the next clearing.
    pub(crate) fn await_reset(&mut self, at: Option<i64>)
        requires
            old(self)@.schedule is Some,
        ensures
            final(self)@ == (ChecklistView { next_reset: at, ..old(self)@ }),
            final(self)@.wf(),
    {
        proof {
            use_type_invariant(&*self);
        }
        self.next_reset = at;
    }

    /// The checklist's name.
    pub fn name(&self) -> (name: &str)
        ensures
            name@ == self@.name,
    {
        self.name.as_str()
    }

    /// The schedule on which the checklist is cleared, if it has one.
    pub fn schedule(&self) -> (schedule: Option<&Schedule>)
        ensures
            schedule matches Some(s) ==> self@.schedule == Some(s@),
            schedule is None ==> self@.schedule is None,
    {
        self.schedule.as_ref()
    }

    /// A copy of the tasks, in their order.
    pub fn tasks(&self) -> (tasks: Vec<Task>)
        ensures
            task_views(tasks@) == self@.tasks,
            distinct_labels(task_views(tasks@)),
    {
        proof {
            use_type_invariant(self);
        }
        copy_tasks(&self.tasks)
    }

    /// Whether the task that carries `label` is done; `None` without such a
    /// task.
    pub fn is_done(&self, label: &str) -> (done: Option<bool>)
        ensures
            done is Some <==> has_label(self@.tasks, label@),
            done matches Some(flag) ==> self@.flags()[label@] == flag,
    {
        proof {
            use_type_invariant(self);
        }
        let wanted = String::from_str(label);
        match position(&self.tasks, &wanted) {
            Some(index) => {
                proof {
                    lemma_flag_of_task(self@, index as int);
                    assert(self@.tasks[index as int].label == label@);
                }
                Some(self.tasks[index].done)
            },
            None => None,
        }
    }

    /// The instant of the next clearing, if it is worked out.
    pub fn next_reset(&self) -> (at: Option<i64>)
        ensures
            at == self@.next_reset,
    {
        self.next_reset
    }
}

} // verus!
