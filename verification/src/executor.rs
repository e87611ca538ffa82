//! The bounded executor: it lets only so many parsers run at a time.
//!
//! The executor holds a pool of permits. A call waits for a permit, runs the
//! parser while it holds the permit, and gives the permit back when the
//! parser returns. [`HarvesterExecutor::step`] decides what a call does next;
//! the caller waits and runs the parser.

use std::sync::Arc;
use tokio::sync::Semaphore;
use vstd::prelude::*;
use vstd::string::StringExecFns;

use crate::model::HarvesterBatch;
use crate::traits::ParseError;

verus! {

/// `tokio::sync::Semaphore`: a pool of permits. Nothing is known of what
/// a value holds.
#[verifier::external_type_specification]
#[verifier::external_body]
pub struct ExSemaphore(tokio::sync::Semaphore);

/// The number of permits that a semaphore was made with.
pub uninterp spec fn initial_permits(semaphore: Semaphore) -> nat;

/// `Semaphore::new` makes a semaphore with `permits` permits. It panics
/// where `permits` is more than `Semaphore::MAX_PERMITS`, which is
/// `usize::MAX >> 3`: such a number is not to be passed.
pub assume_specification[ Semaphore::new ](permits: usize) -> (semaphore: Semaphore)
    requires
        permits <= usize::MAX / 8,
    ensures
        initial_permits(semaphore) == permits,
;

/// Where a call of the executor stands.
#[derive(Debug)]
pub enum CallState {
    /// Nothing has been asked for yet.
    Idle,
    /// The call waits for a permit, with the bytes it is to parse.
    AwaitingPermit { content: Vec<u8> },
    /// The call holds a permit and the parser is running.
    Parsing,
    /// The call has ended.
    Done,
}

/// What happened to a call.
#[derive(Debug)]
pub enum CallEvent {
    /// The call was asked to parse `content`.
    Submit { content: Vec<u8> },
    /// The pool gave the call a permit.
    PermitGranted,
    /// The pool gave no permit and will give none: it is closed. The field
    /// says what the pool reported.
    PermitRefused(String),
    /// The parser returned.
    Parsed(Result<HarvesterBatch, ParseError>),
}

/// What a call is to do next.
#[derive(Debug)]
pub enum CallAction {
    /// Wait for a permit of the pool.
    AcquirePermit,
    /// Run the parser on `content`, holding the permit.
    Parse { content: Vec<u8> },
    /// Give the permit back if the call holds one, and return `result`.
    Finish { result: Result<HarvesterBatch, ParseError>, release_permit: bool },
}

impl CallState {
    /// Whether a call in this state can take `event`.
    pub open spec fn accepts(self, event: CallEvent) -> bool {
        match (self, event) {
            (CallState::Idle, CallEvent::Submit { .. }) => true,
            (CallState::AwaitingPermit { .. }, CallEvent::PermitGranted) => true,
            (CallState::AwaitingPermit { .. }, CallEvent::PermitRefused(_)) => true,
            (CallState::Parsing, CallEvent::Parsed(_)) => true,
            _ => false,
        }
    }

    /// Whether a call in this state can take `event`.
    pub fn can_take(&self, event: &CallEvent) -> (accepted: bool)
        ensures
            accepted == self.accepts(*event),
    {
        match self {
            CallState::Idle => match event {
                CallEvent::Submit { .. } => true,
                _ => false,
            },
            CallState::AwaitingPermit { .. } => match event {
                CallEvent::PermitGranted => true,
                CallEvent::PermitRefused(_) => true,
                _ => false,
            },
            CallState::Parsing => match event {
                CallEvent::Parsed(_) => true,
                _ => false,
            },
            CallState::Done => false,
        }
    }

    /// The call holds a permit of the pool: its parser is running.
    pub open spec fn holds_permit(self) -> bool {
        self is Parsing
    }

    /// The step of a call: in this state, on `event`, the call goes to
    /// `next` and is to do `action`.
    pub open spec fn steps_to(self, event: CallEvent, next: CallState, action: CallAction) -> bool {
        match (self, event) {
            (CallState::Idle, CallEvent::Submit { content }) => {
                &&& next == CallState::AwaitingPermit { content }
                &&& action == CallAction::AcquirePermit
            },
            (CallState::AwaitingPermit { content }, CallEvent::PermitGranted) => {
                &&& next == CallState::Parsing
                &&& action == CallAction::Parse { content }
            },
            (CallState::AwaitingPermit { .. }, CallEvent::PermitRefused(detail)) => {
                &&& next == CallState::Done
                &&& action matches CallAction::Finish {
                    result: Err(ParseError::Unknown(text)),
                    release_permit,
                }
                &&& text@ == "Semaphore error: "@ + detail@
                &&& !release_permit
            },
            (CallState::Parsing, CallEvent::Parsed(result)) => {
                &&& next == CallState::Done
                &&& action == CallAction::Finish { result, release_permit: true }
            },
            _ => false,
        }
    }
}

/// An executor that lets at most so many parsers run at a time.
pub struct HarvesterExecutor {
    semaphore: Arc<Semaphore>,
    concurrency_limit: usize,
}

impl HarvesterExecutor {
    /// The number of parsers that may run at a time.
    pub closed spec fn limit(&self) -> usize {
        self.concurrency_limit
    }

    /// The pool of permits.
    pub closed spec fn pool(&self) -> Semaphore {
        *self.semaphore
    }

    /// An executor that lets at most `concurrency_limit` parsers run at a
    /// time: its pool is made with that many permits. A pool cannot hold
    /// more than `usize::MAX / 8` permits.
    pub fn new(concurrency_limit: usize) -> (executor: Self)
        requires
            concurrency_limit <= usize::MAX / 8,
        ensures
            executor.limit() == concurrency_limit,
            initial_permits(executor.pool()) == concurrency_limit,
    {
        HarvesterExecutor { semaphore: Arc::new(Semaphore::new(concurrency_limit)), concurrency_limit }
    }

    /// The number of parsers that may run at a time.
    pub fn concurrency_limit(&self) -> (limit: usize)
        ensures
            limit == self.limit(),
    {
        self.concurrency_limit
    }

    /// The pool of permits.
    pub fn semaphore(&self) -> (pool: &Arc<Semaphore>)
        ensures
            **pool == self.pool(),
    {
        &self.semaphore
    }

    /// The next step of a call: where the call goes from `state` on `event`,
    /// and what it is to do.
    ///
    /// A call starts by waiting for a permit. With the permit it runs the
    /// parser, and when the parser has returned, with a batch or with an
    /// error, it gives the permit back and returns what the parser
    /// returned. Where the pool gives no permit, the call returns an error
    /// without running the parser.
    pub fn step(&self, state: CallState, event: CallEvent) -> (next: (CallState, CallAction))
        requires
            state.accepts(event),
        ensures
            state.steps_to(event, next.0, next.1),
    {
        match state {
            CallState::Idle => match event {
                CallEvent::Submit { content } => (
                    CallState::AwaitingPermit { content },
                    CallAction::AcquirePermit,
                ),
                _ => vstd::pervasive::unreached(),
            },
            CallState::AwaitingPermit { content } => match event {
                CallEvent::PermitGranted => (CallState::Parsing, CallAction::Parse { content }),
                CallEvent::PermitRefused(detail) => {
                    let text = String::from_str("Semaphore error: ").concat(detail.as_str());
                    (
                        CallState::Done,
                        CallAction::Finish {
                            result: Err(ParseError::Unknown(text)),
                            release_permit: false,
                        },
                    )
                },
                _ => vstd::pervasive::unreached(),
            },
            CallState::Parsing => match event {
                CallEvent::Parsed(result) => (
                    CallState::Done,
                    CallAction::Finish { result, release_permit: true },
                ),
                _ => vstd::pervasive::unreached(),
            },
            CallState::Done => vstd::pervasive::unreached(),
        }
    }
}

/// The number of calls that hold a permit.
pub open spec fn permits_out(calls: Seq<CallState>) -> nat
    decreases calls.len(),
{
    if calls.len() == 0 {
        0
    } else {
        permits_out(calls.drop_last()) + if calls.last().holds_permit() {
            1nat
        } else {
            0nat
        }
    }
}

/// One step of the calls that share an executor: the call `who` takes
/// `event` and the others stay as they are. The pool gives a permit only
/// while fewer than `limit` are out.
pub open spec fn pool_step(
    limit: nat,
    before: Seq<CallState>,
    after: Seq<CallState>,
    who: int,
    event: CallEvent,
    action: CallAction,
) -> bool {
    &&& 0 <= who < before.len()
    &&& after == before.update(who, after[who])
    &&& before[who].accepts(event)
    &&& before[who].steps_to(event, after[who], action)
    &&& event is PermitGranted ==> permits_out(before) < limit
}

/// Changing one call changes the number of permits that are out by what
/// that call holds.
pub proof fn lemma_permits_out_update(calls: Seq<CallState>, who: int, state: CallState)
    requires
        0 <= who < calls.len(),
    ensures
        permits_out(calls.update(who, state)) + (if calls[who].holds_permit() {
            1nat
        } else {
            0nat
        }) == permits_out(calls) + (if state.holds_permit() {
            1nat
        } else {
            0nat
        }),
    decreases calls.len(),
{
    let updated = calls.update(who, state);
    if who == calls.len() - 1 {
        assert(updated.drop_last() == calls.drop_last());
    } else {
        assert(updated.drop_last() == calls.drop_last().update(who, state));
        lemma_permits_out_update(calls.drop_last(), who, state);
    }
}

/// A step of the calls keeps the number of running parsers within the
/// limit: a parser runs only while its call holds a permit, and a step never
/// brings more than `limit` permits out.
pub proof fn lemma_pool_step_keeps_limit(
    limit: nat,
    before: Seq<CallState>,
    after: Seq<CallState>,
    who: int,
    event: CallEvent,
    action: CallAction,
)
    requires
        permits_out(before) <= limit,
        pool_step(limit, before, after, who, event, action),
    ensures
        permits_out(after) <= limit,
        action is Parse ==> after[who].holds_permit(),
{
    lemma_permits_out_update(before, who, after[who]);
}

/// Some call took a step between `before` and `after`.
pub open spec fn follows(limit: nat, before: Seq<CallState>, after: Seq<CallState>) -> bool {
    exists|who: int, event: CallEvent, action: CallAction|
        pool_step(limit, before, after, who, event, action)
}

/// The states that the calls of an executor went through, from a state in
/// which no parser ran, each state a step from the one before.
pub open spec fn is_pool_history(limit: nat, history: Seq<Seq<CallState>>) -> bool {
    &&& history.len() > 0
    &&& permits_out(history[0]) == 0
    &&& forall|t: int|
        0 <= t < history.len() - 1 ==> follows(limit, #[trigger] history[t], history[t + 1])
}

/// At no time do more than `limit` parsers run.
pub proof fn lemma_never_more_than_limit(limit: nat, history: Seq<Seq<CallState>>, t: int)
    requires
        is_pool_history(limit, history),
        0 <= t < history.len(),
    ensures
        permits_out(history[t]) <= limit,
    decreases t,
{
    if t > 0 {
        lemma_never_more_than_limit(limit, history, t - 1);
        let before = history[t - 1];
        let after = history[t];
        let (who, event, action) = choose|who: int, event: CallEvent, action: CallAction|
            pool_step(limit, before, after, who, event, action);
        lemma_pool_step_keeps_limit(limit, before, after, who, event, action);
    }
}

} // verus!
