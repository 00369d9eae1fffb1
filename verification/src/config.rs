//! What the configuration says of one checklist.

use crate::checklist::texts;
use crate::schedule::{cron_accepts, pattern_expression, InvalidScheduleExpression, Schedule};
use vstd::prelude::*;

verus! {

/// What a configured checklist is.
pub struct ConfigView {
    pub name: Seq<char>,
    pub reset_schedule: Option<Seq<char>>,
    pub todo: Seq<Seq<char>>,
}

impl ConfigView {
    /// The expression of the configured schedule, if one is configured.
    pub open spec fn expression(self) -> Option<Seq<char>> {
        match self.reset_schedule {
            Some(pattern) => Some(pattern_expression(pattern)),
            None => None,
        }
    }

    /// The configured schedule, if there is one, is an expression that `cron`
    /// accepts.
    pub open spec fn schedule_accepted(self) -> bool {
        self.reset_schedule matches Some(pattern) ==> cron_accepts(pattern_expression(pattern))
    }
}

/// One checklist of the configuration.
#[derive(Debug)]
pub struct ConfigChecklist {
    /// The name of the checklist.
    name: String,
    /// The pattern on which the checklist is cleared, where the user wants
    /// that: the five fields from minutes to day of week.
    reset_schedule: Option<String>,
    /// The labels of the tasks.
    todo: Vec<String>,
}

impl View for ConfigChecklist {
    type V = ConfigView;

    closed spec fn view(&self) -> ConfigView {
        ConfigView {
            name: self.name@,
            reset_schedule: match self.reset_schedule {
                Some(pattern) => Some(pattern@),
                None => None,
            },
            todo: texts(self.todo@),
        }
    }
}

impl ConfigChecklist {
    /// A configured checklist.
    pub fn new(name: String, reset_schedule: Option<String>, todo: Vec<String>) -> (config:
        ConfigChecklist)
        ensures
            config@ == (ConfigView {
                name: name@,
                reset_schedule: match reset_schedule {
                    Some(pattern) => Some(pattern@),
                    None => None,
                },
                todo: texts(todo@),
            }),
    {
        ConfigChecklist { name, reset_schedule, todo }
    }

    /// The configured name.
    pub fn name(&self) -> (name: &str)
        ensures
            name@ == self@.name,
    {
        self.name.as_str()
    }

    /// The configured labels.
    pub fn todo(&self) -> (todo: &Vec<String>)
        ensures
            texts(todo@) == self@.todo,
    {
        &self.todo
    }

    /// The configured pattern, if there is one.
    pub fn reset_schedule(&self) -> (pattern: Option<&str>)
        ensures
            pattern matches Some(text) ==> self@.reset_schedule == Some(text@),
            pattern is None ==> self@.reset_schedule is None,
    {
        match &self.reset_schedule {
            Some(pattern) => Some(pattern.as_str()),
            None => None,
        }
    }

    /// Reads the configured pattern as a schedule. Fails exactly where a
    /// pattern is configured that `cron` does not accept.
    pub fn schedule(&self) -> (r: Result<Option<Schedule>, InvalidScheduleExpression>)
        ensures
            r is Ok <==> self@.schedule_accepted(),
            r matches Ok(schedule) ==> crate::checklist::schedule_view(schedule)
                == self@.expression(),
            r matches Err(e) ==> self@.expression() == Some(e.expression@),
    {
        match &self.reset_schedule {
            Some(pattern) => match Schedule::from_pattern(pattern.as_str()) {
                Ok(schedule) => Ok(Some(schedule)),
                Err(e) => Err(e),
            },
            None => Ok(None),
        }
    }
}

} // verus!
