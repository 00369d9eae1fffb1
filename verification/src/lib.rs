//! Recurring checklists: named lists of tasks that can be ticked off and that
//! fall back to "nothing done" whenever their schedule fires.
//!
//! The crate holds the lifecycle of a checklist and nothing around it. A
//! caller owns the clock, the files and the screen; it hands instants and
//! stored records in as plain values and takes checklists and records back.
//! Instants are whole seconds since the Unix epoch, in UTC.
//!
//! - `schedule`: cron expressions and their next firing.
//! - `checklist`: the checklist and its tasks.
//! - `config`: a checklist as the configuration names it.
//! - `store`: the stored record, and loading at startup.
//! - `engine`: what a tick of the clock does.
//! - `countdown`: the time left until the next clearing, as text.

pub mod checklist;
pub mod config;
pub mod countdown;
pub mod engine;
pub mod schedule;
pub mod store;
