//! The store conversation of an update request (org units, positions, APIs,
//! plans and the other resources with unique values): when missing rows may
//! be created, ask whether the row exists; then have the data validated for
//! the path the answer chose (create or update), which yields the unique
//! checks of that path or the validation error; then ask, in order, whether
//! each unique value is taken by another row, answering the first conflict;
//! then create or update, and answer "not found" when an update touched no
//! row. The caller performs each action and hands back the reply.

use vstd::prelude::*;
use vstd::string::*;
use crate::error::AppError;

verus! {

/// The fixed facts of one update request.
pub struct Upsert {
    /// Whether a missing row is created rather than reported.
    pub allow_missing: bool,
    /// The message of the not-found answer.
    pub not_found: String,
}

/// Where the conversation stands.
#[derive(PartialEq, Eq, Structural, Clone, Copy)]
pub enum Phase {
    Start,
    AwaitLookUp,
    AwaitChecks,
    AwaitCheck,
    AwaitWrite,
    Done,
}

pub struct UpsertState {
    pub phase: Phase,
    /// Whether the row is being created.
    pub creating: bool,
    /// The conflict messages of the unique checks of the chosen path.
    pub checks: Vec<String>,
    /// How many unique checks have answered "not taken".
    pub passed: usize,
}

/// What the caller answered to the last action.
pub enum Reply {
    /// Nothing was asked yet.
    Nothing,
    /// Whether the row exists.
    Exists(bool),
    /// The unique checks of the chosen path (each as its conflict message),
    /// or the error of its validation.
    Checks(Result<Vec<String>, AppError>),
    /// Whether the checked value is taken by another row.
    Taken(bool),
    /// How many rows a write touched.
    Rows(u64),
}

/// What to do next.
pub enum Action {
    /// Ask whether the row exists.
    LookUp,
    /// Validate the data for a create (`true`) or an update, and give its
    /// unique checks.
    Validate { creating: bool },
    /// Ask whether unique check `index` is taken.
    CheckTaken { index: usize },
    Create,
    Update,
    /// Answer the request.
    Respond(Result<(), AppError>),
}

/// The plain view of a state.
pub type StateView = (Phase, bool, Seq<Seq<char>>, nat);

pub open spec fn state_view(s: UpsertState) -> StateView {
    (s.phase, s.creating, s.checks@.map_values(|m: String| m@), s.passed as nat)
}

/// The plain view of a reply (a validation error by its answer's view).
pub enum ReplyView {
    Nothing,
    Exists(bool),
    Checks(Result<Seq<Seq<char>>, ActionView>),
    Taken(bool),
    Rows(u64),
}

pub open spec fn reply_view(r: Reply) -> ReplyView {
    match r {
        Reply::Nothing => ReplyView::Nothing,
        Reply::Exists(b) => ReplyView::Exists(b),
        Reply::Checks(Ok(v)) => ReplyView::Checks(Ok(v@.map_values(|m: String| m@))),
        Reply::Checks(Err(e)) => ReplyView::Checks(Err(action_view(Action::Respond(Err(e))))),
        Reply::Taken(b) => ReplyView::Taken(b),
        Reply::Rows(n) => ReplyView::Rows(n),
    }
}

/// The plain view of an action.
pub enum ActionView {
    LookUp,
    Validate(bool),
    CheckTaken(nat),
    Create,
    Update,
    /// A successful answer.
    Done,
    Conflict(Seq<char>),
    NotFound(Seq<char>),
    /// Any other answer (never given).
    Other,
}

pub open spec fn action_view(a: Action) -> ActionView {
    match a {
        Action::LookUp => ActionView::LookUp,
        Action::Validate { creating } => ActionView::Validate(creating),
        Action::CheckTaken { index } => ActionView::CheckTaken(index as nat),
        Action::Create => ActionView::Create,
        Action::Update => ActionView::Update,
        Action::Respond(Ok(())) => ActionView::Done,
        Action::Respond(Err(AppError::Conflict(m))) => ActionView::Conflict(m@),
        Action::Respond(Err(AppError::NotFound(m))) => ActionView::NotFound(m@),
        Action::Respond(Err(_)) => ActionView::Other,
    }
}

/// The reply that each phase waits for.
pub open spec fn reply_fits(phase: Phase, reply: Reply) -> bool {
    match phase {
        Phase::Start => reply is Nothing,
        Phase::AwaitLookUp => reply is Exists,
        Phase::AwaitChecks => reply is Checks,
        Phase::AwaitCheck => reply is Taken,
        Phase::AwaitWrite => reply is Rows,
        Phase::Done => false,
    }
}

/// A state the conversation can be in: a row is only ever being created when
/// missing rows may be created, and the checks are known from validation on.
pub open spec fn state_ok(s: StateView, allow_missing: bool) -> bool {
    let (phase, creating, checks, passed) = s;
    &&& creating ==> allow_missing
    &&& passed <= checks.len()
    &&& phase == Phase::AwaitCheck ==> passed < checks.len()
    &&& phase == Phase::AwaitWrite ==> passed == checks.len()
    &&& (phase == Phase::Start || phase == Phase::AwaitLookUp) ==> !creating
    &&& (phase == Phase::Start || phase == Phase::AwaitLookUp || phase == Phase::AwaitChecks) ==> passed
        == 0 && checks.len() == 0
    &&& phase == Phase::AwaitLookUp ==> allow_missing
}

/// After the checks from `passed` on: the next check, or the write.
pub open spec fn after_checks(creating: bool, checks: Seq<Seq<char>>, passed: nat) -> (StateView, ActionView) {
    if passed < checks.len() {
        ((Phase::AwaitCheck, creating, checks, passed), ActionView::CheckTaken(passed))
    } else if creating {
        ((Phase::AwaitWrite, creating, checks, passed), ActionView::Create)
    } else {
        ((Phase::AwaitWrite, creating, checks, passed), ActionView::Update)
    }
}

/// One step of the conversation.
pub open spec fn upsert_next(allow_missing: bool, not_found: Seq<char>, s: StateView, reply: ReplyView) -> (
    StateView,
    ActionView,
) {
    let (phase, creating, checks, passed) = s;
    let done = (Phase::Done, creating, checks, passed);
    match reply {
        ReplyView::Nothing => if allow_missing {
            ((Phase::AwaitLookUp, false, Seq::empty(), 0), ActionView::LookUp)
        } else {
            ((Phase::AwaitChecks, false, Seq::empty(), 0), ActionView::Validate(false))
        },
        ReplyView::Exists(found) => ((Phase::AwaitChecks, !found, Seq::empty(), 0), ActionView::Validate(!found)),
        ReplyView::Checks(Err(v)) => (done, v),
        ReplyView::Checks(Ok(l)) => after_checks(creating, l, 0),
        ReplyView::Taken(true) => (done, ActionView::Conflict(checks[passed as int])),
        ReplyView::Taken(false) => after_checks(creating, checks, passed + 1),
        ReplyView::Rows(rows) => if !creating && rows == 0 {
            (done, ActionView::NotFound(not_found))
        } else {
            (done, ActionView::Done)
        },
    }
}

fn after_checks_exec(creating: bool, checks: Vec<String>, passed: usize) -> (r: (UpsertState, Action))
    requires
        passed <= checks.len(),
    ensures
        (state_view(r.0), action_view(r.1)) == after_checks(
            creating,
            checks@.map_values(|m: String| m@),
            passed as nat,
        ),
        r.0.checks@ == checks@,
{
    assert(checks@.map_values(|m: String| m@).len() == checks@.len());
    if passed < checks.len() {
        (UpsertState { phase: Phase::AwaitCheck, creating, checks, passed }, Action::CheckTaken { index: passed })
    } else if creating {
        (UpsertState { phase: Phase::AwaitWrite, creating, checks, passed }, Action::Create)
    } else {
        (UpsertState { phase: Phase::AwaitWrite, creating, checks, passed }, Action::Update)
    }
}

/// The state at the start of a conversation.
pub fn upsert_start() -> (r: UpsertState)
    ensures
        state_view(r) == (Phase::Start, false, Seq::<Seq<char>>::empty(), 0nat),
{
    let r = UpsertState { phase: Phase::Start, creating: false, checks: Vec::new(), passed: 0 };
    proof {
        assert(r.checks@.map_values(|m: String| m@) =~= Seq::<Seq<char>>::empty());
    }
    r
}

impl Upsert {
    /// The next state and action, given the reply to the last action
    /// (`Nothing` at the start). A validation error is handed back as the
    /// answer.
    pub fn step(&self, s: UpsertState, reply: Reply) -> (r: (UpsertState, Action))
        requires
            state_ok(state_view(s), self.allow_missing),
            reply_fits(s.phase, reply),
        ensures
            (state_view(r.0), action_view(r.1)) == upsert_next(
                self.allow_missing,
                self.not_found@,
                state_view(s),
                reply_view(reply),
            ),
            state_ok(state_view(r.0), self.allow_missing),
            reply matches Reply::Checks(Err(e)) ==> (r.1 matches Action::Respond(Err(x)) && x == e),
    {
        proof {
            assert(s.checks@.map_values(|m: String| m@).len() == s.checks@.len());
        }
        match reply {
            Reply::Nothing => {
                let r = if self.allow_missing {
                    (UpsertState { phase: Phase::AwaitLookUp, creating: false, checks: Vec::new(), passed: 0 }, Action::LookUp)
                } else {
                    (
                        UpsertState { phase: Phase::AwaitChecks, creating: false, checks: Vec::new(), passed: 0 },
                        Action::Validate { creating: false },
                    )
                };
                proof {
                    assert(r.0.checks@.map_values(|m: String| m@) =~= Seq::<Seq<char>>::empty());
                }
                r
            },
            Reply::Exists(found) => {
                let r = (
                    UpsertState { phase: Phase::AwaitChecks, creating: !found, checks: Vec::new(), passed: 0 },
                    Action::Validate { creating: !found },
                );
                proof {
                    assert(r.0.checks@.map_values(|m: String| m@) =~= Seq::<Seq<char>>::empty());
                }
                r
            },
            Reply::Checks(Err(e)) => {
                let creating = s.creating;
                let passed = s.passed;
                (UpsertState { phase: Phase::Done, creating, checks: s.checks, passed }, Action::Respond(Err(e)))
            },
            Reply::Checks(Ok(l)) => after_checks_exec(s.creating, l, 0),
            Reply::Taken(taken) => {
                assert(s.phase == Phase::AwaitCheck);
                assert(state_view(s).3 < state_view(s).2.len());
                assert(s.passed < s.checks.len());
                if taken {
                    let m = s.checks[s.passed].clone();
                    assert(state_view(s).2[s.passed as int] == s.checks@[s.passed as int]@);
                    let creating = s.creating;
                    let passed = s.passed;
                    (
                        UpsertState { phase: Phase::Done, creating, checks: s.checks, passed },
                        Action::Respond(Err(AppError::Conflict(m))),
                    )
                } else {
                    let creating = s.creating;
                    let passed = s.passed + 1;
                    after_checks_exec(creating, s.checks, passed)
                }
            },
            Reply::Rows(rows) => {
                let creating = s.creating;
                let passed = s.passed;
                let a = if !creating && rows == 0 {
                    Action::Respond(Err(AppError::NotFound(self.not_found.clone())))
                } else {
                    Action::Respond(Ok(()))
                };
                (UpsertState { phase: Phase::Done, creating, checks: s.checks, passed }, a)
            },
        }
    }
}

/// The conflict message of a unique value that is checked: `prefix` and
/// the value; nothing when the value is not checked.
pub open spec fn check_of(prefix: Seq<char>, v: Option<Seq<char>>) -> Seq<Seq<char>> {
    match v {
        Some(x) => seq![prefix + x],
        None => Seq::empty(),
    }
}

pub open spec fn string_opt(v: Option<String>) -> Option<Seq<char>> {
    match v {
        Some(x) => Some(x@),
        None => None,
    }
}

/// The text of an optional owned value, borrowed.
pub fn borrow_opt(v: &Option<String>) -> (r: Option<&str>)
    ensures
        opt_view(r) == string_opt(*v),
{
    match v {
        Some(x) => Some(x.as_str()),
        None => None,
    }
}

pub open spec fn opt_view(v: Option<&str>) -> Option<Seq<char>> {
    match v {
        Some(x) => Some(x@),
        None => None,
    }
}

/// The unique checks of up to two values, in order (see `check_of`).
pub fn value_checks(p1: &str, v1: Option<&str>, p2: &str, v2: Option<&str>) -> (r: Vec<String>)
    ensures
        r@.map_values(|m: String| m@) == check_of(p1@, opt_view(v1)) + check_of(p2@, opt_view(v2)),
{
    let mut r: Vec<String> = Vec::new();
    if let Some(x) = v1 {
        r.push(crate::text::cat(p1, x));
    }
    if let Some(x) = v2 {
        r.push(crate::text::cat(p2, x));
    }
    proof {
        assert(r@.map_values(|m: String| m@) =~= check_of(p1@, opt_view(v1)) + check_of(p2@, opt_view(v2)));
    }
    r
}

/// A row is created only when missing rows may be created and the store
/// said it is missing, and only after the create's validation passed and
/// every one of its unique checks said "not taken"; an update likewise comes
/// only after its own validation and checks. Validation is asked for the
/// path that the lookup chose.
pub proof fn lemma_writes_after_checks(allow_missing: bool, not_found: Seq<char>, s: StateView, reply: ReplyView)
    requires
        state_ok(s, allow_missing),
        s.0 != Phase::Done,
        s.0 == Phase::Start <==> reply is Nothing,
        s.0 == Phase::AwaitLookUp <==> reply is Exists,
        s.0 == Phase::AwaitChecks <==> reply is Checks,
        s.0 == Phase::AwaitCheck <==> reply is Taken,
        s.0 == Phase::AwaitWrite <==> reply is Rows,
        reply matches ReplyView::Checks(Ok(l)) ==> l.len() <= usize::MAX,
        reply matches ReplyView::Checks(Err(v)) ==> (v is Conflict || v is NotFound || v is Other),
    ensures
        ({
            let (t, a) = upsert_next(allow_missing, not_found, s, reply);
            &&& state_ok(t, allow_missing)
            &&& a is Create ==> allow_missing && t.1 && t.3 == t.2.len() && s.0 != Phase::Start
            &&& a is Update ==> !t.1 && t.3 == t.2.len()
            &&& a matches ActionView::Validate(c) ==> (c <==> reply == ReplyView::Exists(false))
            &&& a is LookUp ==> allow_missing && s.0 == Phase::Start
            &&& reply is Rows ==> (a matches ActionView::NotFound(m) ==> m == not_found && !s.1 && reply
                == ReplyView::Rows(0))
            &&& reply is Taken ==> (a matches ActionView::Conflict(m) ==> m == s.2[s.3 as int] && reply
                == ReplyView::Taken(true))
        }),
{
}

} // verus!
