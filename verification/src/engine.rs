//! The lifecycle engine: what one tick of the clock does to a checklist.
//!
//! A tick first works out the instant of the next clearing, where a checklist
//! has a schedule and no such instant yet, and then clears the checklist if
//! that instant has come. The caller owns the clock and the timer: it hands
//! the current instant in, once every `TICK_SECONDS`.

use crate::checklist::{cleared, distinct_labels, Checklist, ChecklistView, TaskView};
use crate::schedule::next_firing;
use crate::store::StoredChecklist;
use vstd::prelude::*;

verus! {

/// The seconds between two ticks.
pub const TICK_SECONDS: u64 = 10;

/// Where a checklist stands at an instant.
#[derive(Clone, Copy, Debug, PartialEq, Eq, Structural)]
pub enum Phase {
    /// It has no schedule: the engine leaves it alone.
    NoSchedule,
    /// It has a schedule and its next clearing is not worked out.
    Unarmed,
    /// Its next clearing lies ahead.
    Awaiting,
    /// Its next clearing has come.
    Overdue,
}

impl ChecklistView {
    /// Where the checklist stands at `now`.
    pub open spec fn phase(self, now: i64) -> Phase {
        match self.next_reset {
            Some(at) => if now >= at {
                Phase::Overdue
            } else {
                Phase::Awaiting
            },
            None => if self.schedule is Some {
                Phase::Unarmed
            } else {
                Phase::NoSchedule
            },
        }
    }

    /// The instant of the next clearing is known and has come.
    pub open spec fn is_due(self, now: i64) -> bool {
        self.next_reset matches Some(at) && now >= at
    }

    /// The checklist has a schedule and does not know its next clearing.
    pub open spec fn needs_next_reset(self) -> bool {
        self.next_reset is None && self.schedule is Some
    }

    /// The checklist once `upcoming` is taken for the next clearing, where
    /// one is needed.
    pub open spec fn armed(self, upcoming: Option<i64>) -> ChecklistView {
        if self.needs_next_reset() {
            ChecklistView { next_reset: upcoming, ..self }
        } else {
            self
        }
    }

    /// The checklist with every flag cleared and no next clearing.
    pub open spec fn reset(self) -> ChecklistView {
        ChecklistView { tasks: cleared(self.tasks), next_reset: None, ..self }
    }

    /// One tick at `now`, with `upcoming` for what the schedule answers when
    /// asked for its next firing after `now`.
    pub open spec fn step(self, now: i64, upcoming: Option<i64>) -> ChecklistView {
        let armed = self.armed(upcoming);
        if armed.is_due(now) {
            armed.reset()
        } else {
            armed
        }
    }

    /// What the schedule answers at `now`; nothing without a schedule.
    pub open spec fn upcoming(self, now: i64) -> Option<i64> {
        match self.schedule {
            Some(expr) => next_firing(expr, now),
            None => None,
        }
    }

    /// One tick at `now`.
    pub open spec fn tick(self, now: i64) -> ChecklistView {
        self.step(now, self.upcoming(now))
    }

    /// One tick at each of the instants, in their order.
    pub open spec fn ticks(self, instants: Seq<i64>) -> ChecklistView
        decreases instants.len(),
    {
        if instants.len() == 0 {
            self
        } else {
            self.ticks(instants.drop_last()).tick(instants.last())
        }
    }
}

impl Checklist {
    /// Where the checklist stands at `now`.
    pub fn phase(&self, now: i64) -> (phase: Phase)
        ensures
            phase == self@.phase(now),
    {
        match self.next_reset() {
            Some(at) => if now >= at {
                Phase::Overdue
            } else {
                Phase::Awaiting
            },
            None => if self.schedule().is_some() {
                Phase::Unarmed
            } else {
                Phase::NoSchedule
            },
        }
    }

    /// One tick at `now`, given what the schedule answers for `now`. The
    /// answer is looked at only where the checklist needs a next clearing.
    pub fn advance(&mut self, now: i64, upcoming: Option<i64>)
        ensures
            final(self)@ == old(self)@.step(now, upcoming),
            final(self)@.wf(),
    {
        proof {
            use_type_invariant(&*self);
        }
        if self.next_reset().is_none() && self.schedule().is_some() {
            self.await_reset(upcoming);
        }
        let due = match self.next_reset() {
            Some(at) => now >= at,
            None => false,
        };
        if due {
            self.reset();
        }
    }

    /// One tick at `now`: asks the schedule where the checklist needs a next
    /// clearing, and clears the checklist where its clearing has come.
    pub fn tick(&mut self, now: i64)
        ensures
            final(self)@ == old(self)@.tick(now),
            final(self)@.wf(),
            old(self)@.is_due(now) ==> final(self)@.nothing_done(),
            old(self)@.is_due(now) ==> final(self)@.next_reset is None,
            old(self)@.next_reset matches Some(at) && now < at ==> final(self)@ == old(self)@,
            old(self)@.schedule is None ==> final(self)@ == old(self)@,
    {
        let upcoming = if self.next_reset().is_none() {
            match self.schedule() {
                Some(schedule) => schedule.next_after(now),
                None => None,
            }
        } else {
            None
        };
        proof {
            use_type_invariant(&*self);
            lemma_tick_of_valid(self@, now);
        }
        self.advance(now, upcoming);
    }
}

/// One pass of the engine: one tick at `now` for every checklist, in their
/// order. The records that come back are those of the checklists after the
/// tick, one for each, changed or not: all of them are to be written.
pub fn tick_all(lists: &mut Vec<Checklist>, now: i64) -> (records: Vec<StoredChecklist>)
    ensures
        final(lists).len() == old(lists).len(),
        records.len() == old(lists).len(),
        forall|i: int|
            0 <= i < old(lists).len() ==> (#[trigger] final(lists)[i])@ == old(lists)[i]@.tick(now),
        forall|i: int|
            0 <= i < old(lists).len() ==> (#[trigger] records[i])@ == old(lists)[i]@.tick(
                now,
            ).record(),
{
    let mut records: Vec<StoredChecklist> = Vec::new();
    let mut index: usize = 0;
    while index < lists.len()
        invariant
            index <= lists.len(),
            lists.len() == old(lists).len(),
            records.len() == index,
            forall|i: int| 0 <= i < index ==> (#[trigger] lists[i])@ == old(lists)[i]@.tick(now),
            forall|i: int| index <= i < lists.len() ==> #[trigger] lists[i] == old(lists)[i],
            forall|i: int|
                0 <= i < index ==> (#[trigger] records[i])@ == old(lists)[i]@.tick(now).record(),
        decreases lists.len() - index,
    {
        lists[index].tick(now);
        records.push(lists[index].record());
        index += 1;
    }
    records
}

/// What a tick does to a valid checklist, case by case: one that is due is
/// cleared; one that awaits a later clearing stays as it is; one without a
/// schedule stays as it is; one that needs a next clearing takes the
/// schedule's answer and is not cleared in the same tick.
pub proof fn lemma_tick_of_valid(list: ChecklistView, now: i64)
    requires
        list.wf(),
    ensures
        list.tick(now).wf(),
        list.is_due(now) ==> list.tick(now) == list.reset(),
        list.next_reset matches Some(at) && now < at ==> list.tick(now) == list,
        list.schedule is None ==> list.tick(now) == list,
        list.needs_next_reset() ==> list.tick(now) == (ChecklistView {
            next_reset: list.upcoming(now),
            ..list
        }),
        forall|other: Option<i64>| !list.needs_next_reset() ==> list.step(now, other) == list.tick(now),
{
    lemma_cleared_keeps_labels(list.tasks);
}

/// Clearing keeps the labels and their order, and leaves nothing done.
pub proof fn lemma_cleared_keeps_labels(tasks: Seq<TaskView>)
    ensures
        cleared(tasks).len() == tasks.len(),
        forall|i: int| 0 <= i < tasks.len() ==> (#[trigger] cleared(tasks)[i]).label == tasks[i].label,
        forall|i: int| 0 <= i < tasks.len() ==> !(#[trigger] cleared(tasks)[i]).done,
        distinct_labels(tasks) ==> distinct_labels(cleared(tasks)),
{
}

/// How a tick moves a valid checklist from phase to phase, seen at the
/// instant of the tick: without a schedule it stays without one; awaiting, it
/// goes on awaiting; overdue, it is cleared and left unarmed; unarmed, it
/// awaits where the schedule answers and stays unarmed where it does not.
pub proof fn lemma_phase_after_tick(list: ChecklistView, now: i64)
    requires
        list.wf(),
    ensures
        list.phase(now) == Phase::NoSchedule ==> list.tick(now).phase(now) == Phase::NoSchedule,
        list.phase(now) == Phase::Awaiting ==> list.tick(now).phase(now) == Phase::Awaiting,
        list.phase(now) == Phase::Overdue ==> list.tick(now).phase(now) == Phase::Unarmed,
        list.phase(now) == Phase::Unarmed && list.upcoming(now) is Some ==> list.tick(now).phase(
            now,
        ) == Phase::Awaiting,
        list.phase(now) == Phase::Unarmed && list.upcoming(now) is None ==> list.tick(now).phase(
            now,
        ) == Phase::Unarmed,
{
    lemma_tick_of_valid(list, now);
}

/// A checklist with a schedule whose clearing has come is cleared by one
/// tick: nothing is done any more, and its next clearing is open again.
pub proof fn lemma_due_checklist_is_cleared(list: ChecklistView, now: i64)
    requires
        list.wf(),
        list.schedule is Some,
        list.is_due(now),
    ensures
        list.tick(now).nothing_done(),
        list.tick(now).next_reset is None,
        list.tick(now).tasks == cleared(list.tasks),
{
    lemma_tick_of_valid(list, now);
}

/// A checklist with a schedule whose clearing lies ahead is left as it is by
/// one tick: every flag and the instant of the clearing stay.
pub proof fn lemma_early_tick_changes_nothing(list: ChecklistView, now: i64)
    requires
        list.wf(),
        list.schedule is Some,
        list.next_reset matches Some(at) && now < at,
    ensures
        list.tick(now) == list,
{
}

/// The tick that follows a clearing takes the schedule's answer for the next
/// clearing, and that instant, where there is one, lies after the instant of
/// the clearing. The flags stay cleared.
pub proof fn lemma_next_reset_follows_clearing(list: ChecklistView, cleared_at: i64, next_tick: i64)
    requires
        list.wf(),
        list.schedule is Some,
        list.is_due(cleared_at),
        cleared_at <= next_tick,
    ensures
        list.tick(cleared_at).next_reset is None,
        list.tick(cleared_at).tick(next_tick).next_reset == list.upcoming(next_tick),
        list.tick(cleared_at).tick(next_tick).next_reset matches Some(at) ==> at > cleared_at,
        list.tick(cleared_at).tick(next_tick).tasks == cleared(list.tasks),
{
    lemma_tick_of_valid(list, cleared_at);
    lemma_tick_of_valid(list.tick(cleared_at), next_tick);
}

/// A checklist without a schedule is never touched by the engine: after any
/// number of ticks, at whatever instants, it is what it was, and it awaits no
/// clearing.
pub proof fn lemma_unscheduled_never_changes(list: ChecklistView, instants: Seq<i64>)
    requires
        list.wf(),
        list.schedule is None,
    ensures
        list.ticks(instants) == list,
        list.ticks(instants).next_reset is None,
    decreases instants.len(),
{
    if instants.len() > 0 {
        lemma_unscheduled_never_changes(list, instants.drop_last());
    }
}

/// Ticks keep a checklist valid.
pub proof fn lemma_ticks_keep_valid(list: ChecklistView, instants: Seq<i64>)
    requires
        list.wf(),
    ensures
        list.ticks(instants).wf(),
    decreases instants.len(),
{
    if instants.len() > 0 {
        lemma_ticks_keep_valid(list, instants.drop_last());
        lemma_tick_of_valid(list.ticks(instants.drop_last()), instants.last());
    }
}

} // verus!
