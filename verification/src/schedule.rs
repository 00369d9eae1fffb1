//! Schedules: when a checklist falls back to "nothing done".
//!
//! A schedule is a cron expression of seven fields (seconds, minutes, hours,
//! day of month, month, day of week, year). The `cron` crate reads the
//! expression and finds its firings; everything here that depends on what
//! `cron` answers is stated over two uninterpreted functions, `cron_accepts`
//! and `cron_upcoming`, which stand for those answers.

use vstd::prelude::*;

verus! {

/// The first instant the resolver can be asked about: 0000-01-01T00:00:00Z.
pub const EARLIEST_START: i64 = -62_167_219_200;

/// The last instant the resolver can be asked about: 9999-12-31T23:59:59Z.
pub const LATEST_START: i64 = 253_402_300_799;

/// Whether `cron` takes `expr` for a schedule expression.
pub uninterp spec fn cron_accepts(expr: Seq<char>) -> bool;

/// The instant that `cron` gives first when asked for the firings of `expr`
/// that follow the instant `after`, if it gives one.
pub uninterp spec fn cron_upcoming(expr: Seq<char>, after: i64) -> Option<i64>;

/// Parses the text as a `cron::Schedule` (its `FromStr`) and reports whether
/// that gave a schedule. Trusted: the answer is `cron_accepts` of the text.
#[verifier::external_body]
fn cron_parses(expr: &str) -> (ok: bool)
    ensures
        ok == cron_accepts(expr@),
{
    expr.parse::<cron::Schedule>().is_ok()
}

/// Calls `cron::Schedule::after` on the schedule that `expr` parses to, at
/// the UTC instant `after`, and takes the first item of the iterator.
/// Trusted: the answer depends on the expression and the instant alone and is
/// `cron_upcoming` of them; it is `None` where the expression does not parse
/// or the iterator is empty. The bounds keep `cron` from adding a second to
/// an instant at the end of what `chrono` can hold.
#[verifier::external_body]
fn cron_first_after(expr: &str, after: i64) -> (first: Option<i64>)
    requires
        EARLIEST_START <= after <= LATEST_START,
    ensures
        first == cron_upcoming(expr@, after),
{
    let schedule = expr.parse::<cron::Schedule>().ok()?;
    let start = chrono::DateTime::from_timestamp(after, 0)?;
    schedule.after(&start).next().map(|at| at.timestamp())
}

/// The expression that a configured pattern stands for. A pattern holds the
/// five fields from minutes to day of week; every second and every year are
/// put round it.
pub open spec fn pattern_expression(pattern: Seq<char>) -> Seq<char> {
    seq!['*', ' '] + pattern + seq![' ', '*', ' ']
}

/// What counts of an answer to the question what follows `now`: the answer
/// itself where it lies strictly after `now`, nothing else.
pub open spec fn following(answer: Option<i64>, now: i64) -> Option<i64> {
    match answer {
        Some(at) => if at > now {
            Some(at)
        } else {
            None
        },
        None => None,
    }
}

/// The next firing of `expr` after `now`: what `cron` answers, kept only
/// where it lies strictly after `now`. Outside the instants that the resolver
/// can be asked about there is none.
pub open spec fn next_firing(expr: Seq<char>, now: i64) -> Option<i64> {
    if EARLIEST_START <= now <= LATEST_START {
        following(cron_upcoming(expr, now), now)
    } else {
        None
    }
}

/// Keeps an answer to the question what follows `now` only where it lies
/// strictly after `now`.
pub fn keep_following(answer: Option<i64>, now: i64) -> (kept: Option<i64>)
    ensures
        kept == following(answer, now),
        kept matches Some(at) ==> at > now,
{
    match answer {
        Some(at) => if at > now {
            Some(at)
        } else {
            None
        },
        None => None,
    }
}

/// A text that `cron` refused as a schedule expression.
#[derive(Debug)]
pub struct InvalidScheduleExpression {
    pub expression: String,
}

/// A schedule expression that `cron` accepts.
#[derive(Debug)]
pub struct Schedule {
    expr: String,
}

impl View for Schedule {
    type V = Seq<char>;

    closed spec fn view(&self) -> Seq<char> {
        self.expr@
    }
}

impl Schedule {
    #[verifier::type_invariant]
    spec fn accepted(self) -> bool {
        cron_accepts(self.expr@)
    }

    /// Reads a full cron expression.
    pub fn parse(expr: &str) -> (r: Result<Schedule, InvalidScheduleExpression>)
        ensures
            r is Ok <==> cron_accepts(expr@),
            r matches Ok(s) ==> s@ == expr@,
            r matches Err(e) ==> e.expression@ == expr@,
    {
        if cron_parses(expr) {
            Ok(Schedule { expr: String::from_str(expr) })
        } else {
            Err(InvalidScheduleExpression { expression: String::from_str(expr) })
        }
    }

    /// Reads a configured pattern: the five fields from minutes to day of
    /// week.
    pub fn from_pattern(pattern: &str) -> (r: Result<Schedule, InvalidScheduleExpression>)
        ensures
            r is Ok <==> cron_accepts(pattern_expression(pattern@)),
            r matches Ok(s) ==> s@ == pattern_expression(pattern@),
            r matches Err(e) ==> e.expression@ == pattern_expression(pattern@),
    {
        let expr = String::from_str("* ").concat(pattern).concat(" * ");
        proof {
            reveal_strlit("* ");
            reveal_strlit(" * ");
            assert(expr@ =~= pattern_expression(pattern@));
        }
        Schedule::parse(expr.as_str())
    }

    /// The expression as text. Every schedule holds one that `cron` accepts.
    pub fn expression(&self) -> (text: &str)
        ensures
            text@ == self@,
            cron_accepts(text@),
    {
        proof {
            use_type_invariant(self);
        }
        self.expr.as_str()
    }

    /// The next instant after `now` at which the schedule fires, if there is
    /// one.
    pub fn next_after(&self, now: i64) -> (next: Option<i64>)
        ensures
            next == next_firing(self@, now),
            next matches Some(at) ==> at > now,
    {
        if now < EARLIEST_START || now > LATEST_START {
            return None;
        }
        keep_following(cron_first_after(self.expr.as_str(), now), now)
    }
}

impl Clone for Schedule {
    fn clone(&self) -> (copy: Schedule)
        ensures
            copy@ == self@,
    {
        proof {
            use_type_invariant(self);
        }
        Schedule { expr: self.expr.clone() }
    }
}

} // verus!
