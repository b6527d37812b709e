//! The decisions of the in-process task scheduler: cron expressions are
//! accepted by their field count, task types must be registered, and control
//! requests are `Start`, `Stop` or `Restart`. Running tasks is not wired yet:
//! every accepted request ends in `NotWired`.

use vstd::prelude::*;
use vstd::string::*;
use crate::text::{char_is_ws, chars_of, is_ws, owned, str_eq};

verus! {

/// Scheduler errors (mapped to HTTP 4xx/5xx by the caller).
pub enum SchedulerError {
    Unregistered(String),
    BadCron(String),
    UnknownControl(String),
    /// The scheduler does not run tasks yet.
    NotWired,
}

/// The number of whitespace-separated fields of `s` (`split_whitespace`).
pub open spec fn field_count(s: Seq<char>) -> nat
    decreases s.len(),
{
    if s.len() == 0 {
        0
    } else if !is_ws(s.last()) && (s.len() == 1 || is_ws(s[s.len() - 2])) {
        field_count(s.drop_last()) + 1
    } else {
        field_count(s.drop_last())
    }
}

/// Checks a cron expression: it has five or six fields (seconds optional).
pub fn parse_cron(expr: &str) -> (r: Result<(), String>)
    ensures
        r is Ok <==> (field_count(expr@) == 5 || field_count(expr@) == 6),
        r matches Err(m) ==> m@ == "cron must have 5 or 6 fields"@,
{
    let v = chars_of(expr);
    let mut n: usize = 0;
    let mut i: usize = 0;
    assert(expr@.subrange(0, 0) =~= Seq::<char>::empty());
    while i < v.len()
        invariant
            i <= v.len(),
            v@ == expr@,
            n == field_count(expr@.subrange(0, i as int)),
            n <= i,
        decreases v.len() - i,
    {
        let ghost pre = expr@.subrange(0, i as int);
        let ghost nxt = expr@.subrange(0, i + 1);
        assert(nxt.drop_last() =~= pre);
        assert(nxt.last() == v@[i as int]);
        if i > 0 {
            assert(nxt[nxt.len() - 2] == v@[i - 1]);
        }
        if !char_is_ws(v[i]) && (i == 0 || char_is_ws(v[i - 1])) {
            n += 1;
        }
        i += 1;
    }
    assert(expr@.subrange(0, v.len() as int) =~= expr@);
    if n == 5 || n == 6 {
        Ok(())
    } else {
        Err(owned("cron must have 5 or 6 fields"))
    }
}

/// What starting a task yields: `Unregistered` for an unknown type, `BadCron`
/// for a malformed expression, else `NotWired`.
pub fn start_outcome(registered: bool, task_type: &str, cron: &str) -> (r: Result<(), SchedulerError>)
    ensures
        !registered ==> (r matches Err(SchedulerError::Unregistered(t)) && t@ == task_type@),
        registered && !(field_count(cron@) == 5 || field_count(cron@) == 6) ==> (r matches Err(
            SchedulerError::BadCron(c),
        ) && c@ == cron@),
        registered && (field_count(cron@) == 5 || field_count(cron@) == 6) ==> (r matches Err(
            SchedulerError::NotWired,
        )),
{
    if !registered {
        return Err(SchedulerError::Unregistered(owned(task_type)));
    }
    match parse_cron(cron) {
        Ok(()) => Err(SchedulerError::NotWired),
        Err(_) => Err(SchedulerError::BadCron(owned(cron))),
    }
}

/// What a control request yields. `Start` and `Restart` start the task under
/// the empty type name (`empty_type_registered` says whether that name is
/// registered); `Stop`, and so `Restart`, end in `NotWired`; any other
/// control type is `UnknownControl`.
pub fn control_outcome(control_type: &str, empty_type_registered: bool, cron: &str) -> (r: Result<
    (),
    SchedulerError,
>)
    ensures
        control_type@ == "Start"@ ==> (!empty_type_registered ==> (r matches Err(
            SchedulerError::Unregistered(t),
        ) && t@.len() == 0)),
        control_type@ == "Start"@ && empty_type_registered ==> (r matches Err(e) && (e is BadCron
            || e is NotWired)),
        control_type@ == "Stop"@ || control_type@ == "Restart"@ ==> (r matches Err(
            SchedulerError::NotWired,
        )),
        control_type@ != "Start"@ && control_type@ != "Stop"@ && control_type@ != "Restart"@ ==> (
        r matches Err(SchedulerError::UnknownControl(c)) && c@ == control_type@),
{
    proof {
        reveal_strlit("Start");
        reveal_strlit("Stop");
        reveal_strlit("Restart");
        assert("Start"@.len() == 5 && "Stop"@.len() == 4 && "Restart"@.len() == 7);
    }
    if str_eq(control_type, "Start") {
        let empty = String::new();
        start_outcome(empty_type_registered, empty.as_str(), cron)
    } else if str_eq(control_type, "Stop") || str_eq(control_type, "Restart") {
        Err(SchedulerError::NotWired)
    } else {
        Err(SchedulerError::UnknownControl(owned(control_type)))
    }
}

/// The scheduler's registry of task types (the executors themselves are
/// bound by the caller).
pub struct Scheduler {
    task_types: Vec<String>,
}

impl View for Scheduler {
    type V = Set<Seq<char>>;

    closed spec fn view(&self) -> Set<Seq<char>> {
        self.task_types@.map_values(|n: String| n@).to_set()
    }
}

impl Scheduler {
    /// A scheduler with no registered type.
    pub fn new() -> (r: Scheduler)
        ensures
            r@ == Set::<Seq<char>>::empty(),
    {
        let r = Scheduler { task_types: Vec::new() };
        proof {
            assert(r.task_types@.map_values(|n: String| n@) =~= Seq::<Seq<char>>::empty());
        }
        r
    }

    /// Registers a task type.
    pub fn register(&mut self, task_type: &str)
        ensures
            final(self)@ == old(self)@.insert(task_type@),
    {
        let ghost before = self.task_types@.map_values(|n: String| n@);
        self.task_types.push(owned(task_type));
        proof {
            let after = self.task_types@.map_values(|n: String| n@);
            assert(after =~= before.push(task_type@));
            assert(after.to_set() =~= before.to_set().insert(task_type@)) by {
                assert forall|x: Seq<char>| after.to_set().contains(x) <==> before.to_set().insert(task_type@).contains(x) by {
                    if after.contains(x) {
                        let k = choose|k: int| 0 <= k < after.len() && after[k] == x;
                        if k < before.len() {
                            assert(before[k] == x);
                        }
                    }
                    if before.contains(x) {
                        let k = choose|k: int| 0 <= k < before.len() && before[k] == x;
                        assert(after[k] == x);
                    }
                    if x == task_type@ {
                        assert(after[before.len() as int] == x);
                    }
                }
            }
        }
    }

    /// Whether a task type is registered.
    pub fn is_registered(&self, task_type: &str) -> (r: bool)
        ensures
            r == self@.contains(task_type@),
    {
        let ghost names = self.task_types@.map_values(|n: String| n@);
        let mut i: usize = 0;
        while i < self.task_types.len()
            invariant
                i <= self.task_types.len(),
                names == self.task_types@.map_values(|n: String| n@),
                forall|j: int| 0 <= j < i ==> names[j] != task_type@,
            decreases self.task_types.len() - i,
        {
            if str_eq(self.task_types[i].as_str(), task_type) {
                proof {
                    assert(names[i as int] == task_type@);
                    assert(names.contains(task_type@));
                }
                return true;
            }
            i += 1;
        }
        proof {
            assert(!names.contains(task_type@));
        }
        false
    }

    /// Starts a task: see `start_outcome`.
    pub fn start(&self, task_id: i64, task_type: &str, cron: &str) -> (r: Result<(), SchedulerError>)
        ensures
            !self@.contains(task_type@) ==> (r matches Err(SchedulerError::Unregistered(t)) && t@ == task_type@),
            self@.contains(task_type@) && !(field_count(cron@) == 5 || field_count(cron@) == 6) ==> (
            r matches Err(SchedulerError::BadCron(c)) && c@ == cron@),
            self@.contains(task_type@) && (field_count(cron@) == 5 || field_count(cron@) == 6) ==> (
            r matches Err(SchedulerError::NotWired)),
    {
        let registered = self.is_registered(task_type);
        start_outcome(registered, task_type, cron)
    }

    /// Stops a task; not wired yet.
    pub fn stop(&self, task_id: i64) -> (r: Result<(), SchedulerError>)
        ensures
            r matches Err(SchedulerError::NotWired),
    {
        Err(SchedulerError::NotWired)
    }

    /// Controls a task: see `control_outcome` (the start goes under the empty
    /// type name).
    pub fn control(&self, task_id: i64, control_type: &str, cron: &str) -> (r: Result<(), SchedulerError>)
        ensures
            control_type@ == "Start"@ && !self@.contains(Seq::<char>::empty()) ==> (r matches Err(
                SchedulerError::Unregistered(t),
            ) && t@.len() == 0),
            control_type@ == "Start"@ && self@.contains(Seq::<char>::empty()) ==> (r matches Err(e) && (
            e is BadCron || e is NotWired)),
            control_type@ == "Stop"@ || control_type@ == "Restart"@ ==> (r matches Err(
                SchedulerError::NotWired,
            )),
            control_type@ != "Start"@ && control_type@ != "Stop"@ && control_type@ != "Restart"@ ==> (
            r matches Err(SchedulerError::UnknownControl(c)) && c@ == control_type@),
    {
        proof {
            reveal_strlit("");
            assert(""@ =~= Seq::<char>::empty());
        }
        let registered = self.is_registered("");
        control_outcome(control_type, registered, cron)
    }
}

} // verus!
