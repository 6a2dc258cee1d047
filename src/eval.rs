use vstd::prelude::*;
use vstd::string::*;
use crate::eserror::EsError;
use crate::valueref::{RawValue, TAG_EXCEPTION};

verus! {

/// How a script is compiled: as a global script or as a module.
#[derive(Debug, Clone, Copy, PartialEq, Eq, Structural)]
pub enum ScriptKind {
    Global,
    Module,
}

/// Which engine call failed, for the message used when the engine holds no
/// exception to report.
#[derive(Debug, Clone, Copy, PartialEq, Eq, Structural)]
pub enum FailedCall {
    Eval,
    EvalModule,
    PendingJob,
}

/// Where one evaluation stands. The owner of the engine instance performs
/// each action and hands the outcome back as the next event.
#[derive(Debug, Clone, Copy, PartialEq, Eq, Structural)]
pub enum EvalState {
    /// The script was handed to the engine; its result is awaited.
    Evaluating(ScriptKind),
    /// The result is a value; whether jobs are pending is awaited.
    CheckingJobs,
    /// One pending job was started; its outcome is awaited.
    RunningJob,
    /// An engine call failed; the engine's exception is awaited.
    ReadingException(FailedCall),
    /// The evaluation is over.
    Finished,
}

/// An outcome of an engine call, as the owner observed it.
#[derive(Debug)]
pub enum EvalEvent {
    /// The value the evaluation returned.
    Evaluated(RawValue),
    /// The engine's answer to whether a job is pending (positive: yes).
    PendingJobs(i32),
    /// The engine's answer after running one job (negative: it threw).
    JobRan(i32),
    /// The exception read (and thereby cleared) from the engine, if any.
    ExceptionRead(Option<EsError>),
}

/// What the owner must do next.
#[derive(Debug)]
pub enum EvalAction {
    /// Ask the engine whether a job is pending.
    CheckJobs,
    /// Run one pending job.
    RunJob,
    /// Read and clear the engine's exception.
    ReadException,
    /// Hand the evaluated value to the caller.
    Succeed,
    /// Hand this error to the caller.
    Fail(EsError),
}

/// The message used when a call failed and the engine held no exception.
pub open spec fn fallback_message(call: FailedCall) -> Seq<char> {
    match call {
        FailedCall::Eval => "eval failed and could not get exception"@,
        FailedCall::EvalModule => "eval_module failed and could not get exception"@,
        FailedCall::PendingJob => "Unknown exception while running pending job"@,
    }
}

pub open spec fn failed_call_of(kind: ScriptKind) -> FailedCall {
    match kind {
        ScriptKind::Global => FailedCall::Eval,
        ScriptKind::Module => FailedCall::EvalModule,
    }
}

/// Whether `event` answers the action that led to `state`.
pub open spec fn accepts(state: EvalState, event: EvalEvent) -> bool {
    match state {
        EvalState::Evaluating(_) => event is Evaluated,
        EvalState::CheckingJobs => event is PendingJobs,
        EvalState::RunningJob => event is JobRan,
        EvalState::ReadingException(_) => event is ExceptionRead,
        EvalState::Finished => false,
    }
}

/// The state after `event` arrives in `state`.
pub open spec fn next_state(state: EvalState, event: EvalEvent) -> EvalState {
    match (state, event) {
        (EvalState::Evaluating(kind), EvalEvent::Evaluated(v)) => if v.tag == TAG_EXCEPTION {
            EvalState::ReadingException(failed_call_of(kind))
        } else {
            EvalState::CheckingJobs
        },
        (EvalState::CheckingJobs, EvalEvent::PendingJobs(flag)) => if flag > 0 {
            EvalState::RunningJob
        } else {
            EvalState::Finished
        },
        (EvalState::RunningJob, EvalEvent::JobRan(flag)) => if flag < 0 {
            EvalState::ReadingException(FailedCall::PendingJob)
        } else {
            EvalState::CheckingJobs
        },
        _ => EvalState::Finished,
    }
}

/// Whether `action` is what must follow `event` in `state`.
pub open spec fn action_fits(state: EvalState, event: EvalEvent, action: EvalAction) -> bool {
    match next_state(state, event) {
        EvalState::CheckingJobs => action is CheckJobs,
        EvalState::RunningJob => action is RunJob,
        EvalState::ReadingException(_) => action is ReadException,
        EvalState::Evaluating(_) => false,
        EvalState::Finished => match (state, event) {
            (EvalState::ReadingException(call), EvalEvent::ExceptionRead(read)) => match action {
                EvalAction::Fail(e) => match read {
                    Some(x) => e == x,
                    None => e.message@ == fallback_message(call),
                },
                _ => false,
            },
            _ => action is Succeed,
        },
    }
}

impl EvalState {
    /// The state right after a script of `kind` was handed to the engine.
    pub fn start(kind: ScriptKind) -> (r: EvalState)
        ensures
            r == EvalState::Evaluating(kind),
    {
        EvalState::Evaluating(kind)
    }

    /// Whether `event` answers the action that led to this state.
    pub fn accepts(&self, event: &EvalEvent) -> (r: bool)
        ensures
            r == accepts(*self, *event),
    {
        match (self, event) {
            (EvalState::Evaluating(_), EvalEvent::Evaluated(_)) => true,
            (EvalState::CheckingJobs, EvalEvent::PendingJobs(_)) => true,
            (EvalState::RunningJob, EvalEvent::JobRan(_)) => true,
            (EvalState::ReadingException(_), EvalEvent::ExceptionRead(_)) => true,
            _ => false,
        }
    }
}

/// One step of an evaluation: a failing result or job is turned into the
/// engine's exception (or a fixed message when there is none), and a value
/// is handed out only once the engine reports no pending job.
pub fn eval_step(state: EvalState, event: EvalEvent) -> (r: (EvalState, EvalAction))
    requires
        accepts(state, event),
    ensures
        r.0 == next_state(state, event),
        action_fits(state, event, r.1),
{
    match (state, event) {
        (EvalState::Evaluating(kind), EvalEvent::Evaluated(v)) => {
            if v.is_exception() {
                let call = match kind {
                    ScriptKind::Global => FailedCall::Eval,
                    ScriptKind::Module => FailedCall::EvalModule,
                };
                (EvalState::ReadingException(call), EvalAction::ReadException)
            } else {
                (EvalState::CheckingJobs, EvalAction::CheckJobs)
            }
        },
        (EvalState::CheckingJobs, EvalEvent::PendingJobs(flag)) => {
            if flag > 0 {
                (EvalState::RunningJob, EvalAction::RunJob)
            } else {
                (EvalState::Finished, EvalAction::Succeed)
            }
        },
        (EvalState::RunningJob, EvalEvent::JobRan(flag)) => {
            if flag < 0 {
                (EvalState::ReadingException(FailedCall::PendingJob), EvalAction::ReadException)
            } else {
                (EvalState::CheckingJobs, EvalAction::CheckJobs)
            }
        },
        (EvalState::ReadingException(call), EvalEvent::ExceptionRead(read)) => {
            let e = match read {
                Some(x) => x,
                None => fallback_error(call),
            };
            (EvalState::Finished, EvalAction::Fail(e))
        },
        _ => {
            proof {
                assert(false);
            }
            (EvalState::Finished, EvalAction::Succeed)
        },
    }
}

fn fallback_error(call: FailedCall) -> (e: EsError)
    ensures
        e.message@ == fallback_message(call),
{
    match call {
        FailedCall::Eval => EsError::new_str("eval failed and could not get exception"),
        FailedCall::EvalModule => EsError::new_str(
            "eval_module failed and could not get exception",
        ),
        FailedCall::PendingJob => EsError::new_str("Unknown exception while running pending job"),
    }
}

/// Whether the engine's job flag says a job is pending.
pub fn has_pending_jobs(flag: i32) -> (r: bool)
    ensures
        r == (flag > 0),
{
    flag > 0
}

/// Checks that `value` can be handed to the engine as a C string: its bytes
/// hold no NUL byte. The error names the value.
pub fn make_cstring(value: &str) -> (r: Result<(), EsError>)
    ensures
        r is Ok <==> !value.spec_bytes().contains(0u8),
        r matches Err(e) ==> e.message@ == "could not create cstring from "@ + value@,
{
    let bytes = value.as_bytes();
    let mut i: usize = 0;
    while i < bytes.len()
        invariant
            bytes@ == value.spec_bytes(),
            i <= bytes@.len(),
            forall|j: int| 0 <= j < i ==> bytes@[j] != 0u8,
        decreases bytes@.len() - i,
    {
        if bytes[i] == 0u8 {
            let message = String::from_str("could not create cstring from ").concat(value);
            return Err(EsError::new(String::from_str("Error"), message, None));
        }
        i = i + 1;
    }
    Ok(())
}

/// Whether `event` arriving in `state` makes the evaluation fail.
pub open spec fn fails_on(state: EvalState, event: EvalEvent) -> bool {
    state is ReadingException && event is ExceptionRead
}

/// Whether an event reports a failure of the engine: an exception sentinel as
/// result, or a job that threw.
pub open spec fn reports_failure(event: EvalEvent) -> bool {
    match event {
        EvalEvent::Evaluated(v) => v.tag == TAG_EXCEPTION,
        EvalEvent::JobRan(flag) => flag < 0,
        _ => false,
    }
}

/// The state after each of `events` arrived in turn, starting in `state`.
pub open spec fn run(state: EvalState, events: Seq<EvalEvent>) -> EvalState
    decreases events.len(),
{
    if events.len() == 0 {
        state
    } else {
        run(next_state(state, events[0]), events.drop_first())
    }
}

/// Whether some event of `events`, arriving in turn from `state`, makes the
/// evaluation fail.
pub open spec fn fails_along(state: EvalState, events: Seq<EvalEvent>) -> bool
    decreases events.len(),
{
    if events.len() == 0 {
        false
    } else {
        fails_on(state, events[0]) || fails_along(next_state(state, events[0]), events.drop_first())
    }
}

/// Exceptions come back as thrown: when the engine holds an exception after a
/// failed call, the evaluation fails with exactly that error (its name,
/// message and stack unchanged).
pub proof fn lemma_exception_round_trip(call: FailedCall, e: EsError, action: EvalAction)
    requires
        action_fits(EvalState::ReadingException(call), EvalEvent::ExceptionRead(Some(e)), action),
    ensures
        action == EvalAction::Fail(e),
        action matches EvalAction::Fail(x) && x.message == e.message,
{
}

/// A normal completion never yields an error: as long as no result is the
/// exception sentinel and no job throws, an evaluation that has not failed
/// yet does not fail on any later event.
pub proof fn lemma_normal_completion_never_fails(state: EvalState, events: Seq<EvalEvent>)
    requires
        !(state is ReadingException),
        forall|i: int| 0 <= i < events.len() ==> !reports_failure(#[trigger] events[i]),
    ensures
        !fails_along(state, events),
        !(run(state, events) is ReadingException),
    decreases events.len(),
{
    if events.len() > 0 {
        assert(!reports_failure(events[0]));
        let rest = events.drop_first();
        assert forall|i: int| 0 <= i < rest.len() implies !reports_failure(#[trigger] rest[i]) by {
            assert(rest[i] == events[i + 1]);
        }
        lemma_normal_completion_never_fails(next_state(state, events[0]), rest);
    }
}

/// Job quiescence: an evaluation hands out its value only on the engine's
/// answer that no job is pending.
pub proof fn lemma_success_only_when_quiescent(
    state: EvalState,
    event: EvalEvent,
    action: EvalAction,
)
    requires
        accepts(state, event),
        action_fits(state, event, action),
        action is Succeed,
    ensures
        state == EvalState::CheckingJobs,
        event matches EvalEvent::PendingJobs(flag) && flag <= 0,
        next_state(state, event) == EvalState::Finished,
{
}

} // verus!
