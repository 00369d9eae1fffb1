//! The stored record of a checklist, and how checklists come to be at
//! startup: from their record where there is one, from the configuration
//! where there is none.
//!
//! A record holds the name, the instant of the next clearing and the tasks.
//! It does not hold the schedule, which always comes from the configuration.
//! Reading and writing records is the caller's part; what is read is checked
//! here before it becomes a checklist.

use crate::checklist::{
    copy_tasks, distinct_labels, fresh_tasks, has_label, schedule_view, task_views, Checklist,
    ChecklistView, Task, TaskView,
};
use crate::config::{ConfigChecklist, ConfigView};
use crate::schedule::Schedule;
use vstd::prelude::*;

verus! {

/// What a record is.
pub struct StoredView {
    pub name: Seq<char>,
    pub next_reset: Option<i64>,
    pub tasks: Seq<TaskView>,
}

/// The record of one checklist.
#[derive(Clone, Debug, PartialEq, Eq)]
pub struct StoredChecklist {
    pub name: String,
    pub next_reset: Option<i64>,
    pub tasks: Vec<Task>,
}

impl View for StoredChecklist {
    type V = StoredView;

    open spec fn view(&self) -> StoredView {
        StoredView { name: self.name@, next_reset: self.next_reset, tasks: task_views(self.tasks@) }
    }
}

/// Why a checklist could not be had at startup.
#[derive(Debug, PartialEq, Eq)]
pub enum LoadError {
    /// The configured pattern gives an expression that `cron` does not
    /// accept.
    InvalidSchedule { expression: String },
    /// The record names a task twice.
    DuplicateTask { label: String },
}

/// What a `LoadError` is.
pub enum LoadErrorView {
    InvalidSchedule { expression: Seq<char> },
    DuplicateTask { label: Seq<char> },
}

impl View for LoadError {
    type V = LoadErrorView;

    open spec fn view(&self) -> LoadErrorView {
        match self {
            LoadError::InvalidSchedule { expression } => LoadErrorView::InvalidSchedule {
                expression: expression@,
            },
            LoadError::DuplicateTask { label } => LoadErrorView::DuplicateTask { label: label@ },
        }
    }
}

/// The place of the first task whose label an earlier task carries.
pub open spec fn is_first_repeat(tasks: Seq<TaskView>, at: int) -> bool {
    &&& 0 <= at < tasks.len()
    &&& distinct_labels(tasks.take(at))
    &&& has_label(tasks.take(at), tasks[at].label)
}

/// The place of the first repeat, where there is one.
pub open spec fn first_repeat_at(tasks: Seq<TaskView>) -> int {
    choose|at: int| is_first_repeat(tasks, at)
}

/// There is one first repeat at most.
pub proof fn lemma_first_repeat_is_unique(tasks: Seq<TaskView>, at: int)
    requires
        is_first_repeat(tasks, at),
    ensures
        first_repeat_at(tasks) == at,
        !distinct_labels(tasks),
{
    let other = first_repeat_at(tasks);
    let (low, high) = if at < other {
        (at, other)
    } else {
        (other, at)
    };
    let i = choose|i: int|
        0 <= i < tasks.take(low).len() && #[trigger] tasks.take(low)[i].label == tasks[low].label;
    assert(tasks[i].label == tasks[low].label);
    if low < high {
        assert(tasks.take(high)[i].label == tasks.take(high)[low].label);
    }
}

/// What was found of one configured checklist at startup.
#[derive(Debug)]
pub struct Source {
    /// The checklist's entry in the configuration.
    pub config: ConfigChecklist,
    /// The checklist's record, where one was stored.
    pub stored: Option<StoredChecklist>,
}

/// The view of an optional record.
pub open spec fn stored_view(stored: Option<StoredChecklist>) -> Option<StoredView> {
    match stored {
        Some(record) => Some(record@),
        None => None,
    }
}

/// The checklist that a configuration entry and its record, if there is one,
/// give at startup. A pattern that `cron` does not accept fails first; then a
/// record gives the checklist under the configured schedule, unless it names
/// a task twice; without a record the checklist is new.
pub open spec fn loaded(config: ConfigView, stored: Option<StoredView>) -> Result<
    ChecklistView,
    LoadErrorView,
> {
    if !config.schedule_accepted() {
        Err(LoadErrorView::InvalidSchedule { expression: config.expression().unwrap() })
    } else {
        match stored {
            Some(record) => if distinct_labels(record.tasks) {
                Ok(record.restored(config.expression()))
            } else {
                Err(
                    LoadErrorView::DuplicateTask {
                        label: record.tasks[first_repeat_at(record.tasks)].label,
                    },
                )
            },
            None => Ok(ChecklistView::fresh(config.name, config.todo, config.expression())),
        }
    }
}

/// Whether an outcome of loading is the one that was to come.
pub open spec fn is_outcome(
    r: Result<Checklist, LoadError>,
    expected: Result<ChecklistView, LoadErrorView>,
) -> bool {
    match r {
        Ok(list) => expected == Ok::<ChecklistView, LoadErrorView>(list@) && list@.wf(),
        Err(e) => expected == Err::<ChecklistView, LoadErrorView>(e@),
    }
}

/// A checklist that could not be had at startup: its place among the
/// sources, and why.
#[derive(Debug, PartialEq, Eq)]
pub struct LoadFailure {
    pub index: usize,
    pub error: LoadError,
}

impl ChecklistView {
    /// The record of the checklist.
    pub open spec fn record(self) -> StoredView {
        StoredView { name: self.name, next_reset: self.next_reset, tasks: self.tasks }
    }

    /// A new checklist.
    pub open spec fn fresh(
        name: Seq<char>,
        todo: Seq<Seq<char>>,
        schedule: Option<Seq<char>>,
    ) -> ChecklistView {
        ChecklistView { name, tasks: fresh_tasks(todo), schedule, next_reset: None }
    }
}

impl StoredView {
    /// The checklist that the record gives under the schedule. A stored
    /// instant counts only with a schedule.
    pub open spec fn restored(self, schedule: Option<Seq<char>>) -> ChecklistView {
        ChecklistView {
            name: self.name,
            tasks: self.tasks,
            schedule,
            next_reset: if schedule is Some {
                self.next_reset
            } else {
                None
            },
        }
    }
}

/// Looks for the first task whose label an earlier task carries.
fn first_repeat(tasks: &Vec<Task>) -> (found: Option<usize>)
    ensures
        found is None <==> distinct_labels(task_views(tasks@)),
        found matches Some(at) ==> is_first_repeat(task_views(tasks@), at as int),
{
    let ghost views = task_views(tasks@);
    let mut j: usize = 0;
    while j < tasks.len()
        invariant
            j <= tasks.len(),
            views == task_views(tasks@),
            distinct_labels(views.take(j as int)),
        decreases tasks.len() - j,
    {
        let mut i: usize = 0;
        while i < j
            invariant
                i <= j < tasks.len(),
                views == task_views(tasks@),
                distinct_labels(views.take(j as int)),
                forall|k: int| 0 <= k < i ==> (#[trigger] views[k]).label != views[j as int].label,
            decreases j - i,
        {
            if tasks[i].label == tasks[j].label {
                proof {
                    assert(views.take(j as int)[i as int].label == views[j as int].label);
                    assert(views[i as int].label == views[j as int].label);
                }
                return Some(j);
            }
            i += 1;
        }
        proof {
            assert forall|a: int, b: int| 0 <= a < b < j + 1 implies #[trigger] views.take(
                j + 1,
            )[a].label != #[trigger] views.take(j + 1)[b].label by {
                if b < j {
                    assert(views.take(j as int)[a].label != views.take(j as int)[b].label);
                }
            }
        }
        j += 1;
    }
    proof {
        assert(views.take(tasks.len() as int) =~= views);
    }
    None
}

impl Checklist {
    /// The record of the checklist.
    pub fn record(&self) -> (stored: StoredChecklist)
        ensures
            stored@ == self@.record(),
            distinct_labels(stored@.tasks),
    {
        StoredChecklist {
            name: String::from_str(self.name()),
            next_reset: self.next_reset(),
            tasks: self.tasks(),
        }
    }

    /// The checklist that a record gives under a schedule. Fails exactly
    /// where the record names a task twice, with the label of the first task
    /// that repeats an earlier one.
    pub fn from_record(stored: &StoredChecklist, schedule: Option<Schedule>) -> (r: Result<
        Checklist,
        LoadError,
    >)
        ensures
            r is Ok <==> distinct_labels(stored@.tasks),
            r matches Ok(list) ==> list@ == stored@.restored(schedule_view(schedule)) && list@.wf(),
            r matches Err(e) ==> e@ == (LoadErrorView::DuplicateTask {
                label: stored@.tasks[first_repeat_at(stored@.tasks)].label,
            }),
    {
        match first_repeat(&stored.tasks) {
            Some(at) => {
                proof {
                    lemma_first_repeat_is_unique(stored@.tasks, at as int);
                    assert(stored@.tasks[at as int].label == stored.tasks[at as int].label@);
                }
                Err(LoadError::DuplicateTask { label: stored.tasks[at].label.clone() })
            },
            None => {
                let next_reset = if schedule.is_some() {
                    stored.next_reset
                } else {
                    None
                };
                Ok(
                    Checklist::from_parts(
                        stored.name.clone(),
                        copy_tasks(&stored.tasks),
                        schedule,
                        next_reset,
                    ),
                )
            },
        }
    }
}

impl Checklist {
    /// The checklist of one source: from its record where it has one, new
    /// from the configuration where it has none.
    pub fn load(source: &Source) -> (r: Result<Checklist, LoadError>)
        ensures
            is_outcome(r, loaded(source.config@, stored_view(source.stored))),
    {
        let schedule = match source.config.schedule() {
            Ok(schedule) => schedule,
            Err(refused) => {
                return Err(LoadError::InvalidSchedule { expression: refused.expression });
            },
        };
        match &source.stored {
            Some(record) => Checklist::from_record(record, schedule),
            None => Ok(
                Checklist::new(
                    String::from_str(source.config.name()),
                    source.config.todo(),
                    schedule,
                ),
            ),
        }
    }
}

/// The checklists of all sources, in their order. The first source that
/// fails ends the loading, and nothing is loaded.
pub fn load_all(sources: &Vec<Source>) -> (r: Result<Vec<Checklist>, LoadFailure>)
    ensures
        r matches Ok(lists) ==> lists.len() == sources.len() && forall|i: int|
            0 <= i < sources.len() ==> is_outcome(
                Ok(#[trigger] lists[i]),
                loaded(sources[i].config@, stored_view(sources[i].stored)),
            ),
        r matches Err(failure) ==> failure.index < sources.len() && is_outcome(
            Err(failure.error),
            loaded(
                sources[failure.index as int].config@,
                stored_view(sources[failure.index as int].stored),
            ),
        ) && forall|i: int|
            0 <= i < failure.index ==> (#[trigger] loaded(
                sources[i].config@,
                stored_view(sources[i].stored),
            )) is Ok,
{
    let mut lists: Vec<Checklist> = Vec::new();
    let mut index: usize = 0;
    while index < sources.len()
        invariant
            index <= sources.len(),
            lists.len() == index,
            forall|i: int|
                0 <= i < index ==> is_outcome(
                    Ok(#[trigger] lists[i]),
                    loaded(sources[i].config@, stored_view(sources[i].stored)),
                ),
            forall|i: int|
                0 <= i < index ==> (#[trigger] loaded(
                    sources[i].config@,
                    stored_view(sources[i].stored),
                )) is Ok,
        decreases sources.len() - index,
    {
        match Checklist::load(&sources[index]) {
            Ok(list) => {
                lists.push(list);
            },
            Err(error) => {
                return Err(LoadFailure { index, error });
            },
        }
        index += 1;
    }
    Ok(lists)
}

/// The record of a checklist gives the checklist back under the checklist's
/// schedule: the same name, the same tasks with the same flags, the same
/// instant of the next clearing.
pub proof fn lemma_record_round_trip(list: ChecklistView)
    requires
        list.wf(),
    ensures
        distinct_labels(list.record().tasks),
        list.record().restored(list.schedule) == list,
        list.record().restored(list.schedule).tasks == list.tasks,
        list.record().restored(list.schedule).next_reset == list.next_reset,
{
}

} // verus!
