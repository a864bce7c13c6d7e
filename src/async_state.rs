//! Tracking of one logical in-flight load, with generational tickets that
//! discard stale asynchronous results.
use std::time::{Duration, Instant};
use vstd::prelude::*;
use vstd::string::StringExecFns;

verus! {

/// The possible states of an asynchronous operation.
#[derive(Debug, Clone)]
pub enum LoadState<T, E> {
    /// No operation yet.
    Idle,
    /// An operation is processing.
    Loading {
        /// Previously loaded data, if any.
        prev: Option<T>,
        /// When the operation started.
        time: Instant,
    },
    /// The operation completed.
    Loaded(T),
    /// The operation failed.
    Error(E),
}

/// Errors that can be reported as text.
pub trait ErrorText {
    /// The error as a line of text.
    fn error_text(&self) -> String;
}

impl ErrorText for String {
    fn error_text(&self) -> String {
        self.clone()
    }
}

/// A standardized log message.
pub enum Trace {
    Success(String),
    Error(String),
}

/// Generational identifier that lets stale results be told apart.
#[derive(Debug, Clone, Copy, PartialEq, Eq, Structural)]
pub struct Ticket(u64);

impl View for Ticket {
    type V = u64;

    closed spec fn view(&self) -> u64 {
        self.0
    }
}

impl Ticket {
    /// The generation this ticket was issued for.
    pub fn generation(&self) -> (r: u64)
        ensures
            r == self@,
    {
        self.0
    }
}

/// Result of an asynchronous worker.
#[derive(Debug)]
pub struct AsyncResult<T, E> {
    /// Ticket issued when this specific task started.
    pub ticket: Ticket,
    /// Task result.
    pub result: Result<T, E>,
}

/// The generation that follows `g`, wrapping at the end of the 64-bit range.
pub open spec fn next_generation(g: u64) -> u64 {
    if g == u64::MAX {
        0
    } else {
        (g + 1) as u64
    }
}

/// Relies on `Duration`'s `Debug` format: the duration as text, with two decimals.
#[verifier::external_body]
fn elapsed_text(d: &Duration) -> String {
    format!("{:.2?}", d)
}

/// The log line of a load that succeeded: `"<label> in <elapsed> (<summary>)"`.
pub open spec fn success_text(label: Seq<char>, elapsed: Seq<char>, summary: Seq<char>) -> Seq<
    char,
> {
    label + " in "@ + elapsed + " ("@ + summary + ")"@
}

/// The log line of a load that failed: `"<label> after <elapsed> (Error: <error>)"`.
pub open spec fn failure_text(label: Seq<char>, elapsed: Seq<char>, error: Seq<char>) -> Seq<
    char,
> {
    label + " after "@ + elapsed + " (Error: "@ + error + ")"@
}

/// Builds the log line of a load that succeeded.
pub fn success_message(label: &str, elapsed: &str, summary: &str) -> (r: String)
    ensures
        r@ == success_text(label@, elapsed@, summary@),
{
    let r = String::from_str(label).concat(" in ").concat(elapsed).concat(" (").concat(
        summary,
    ).concat(")");
    proof {
        reveal_strlit(" in ");
        reveal_strlit(" (");
        reveal_strlit(")");
    }
    r
}

/// Builds the log line of a load that failed.
pub fn failure_message(label: &str, elapsed: &str, error: &str) -> (r: String)
    ensures
        r@ == failure_text(label@, elapsed@, error@),
{
    let r = String::from_str(label).concat(" after ").concat(elapsed).concat(" (Error: ").concat(
        error,
    ).concat(")");
    proof {
        reveal_strlit(" after ");
        reveal_strlit(" (Error: ");
        reveal_strlit(")");
    }
    r
}

/// The state after a result was accepted.
pub open spec fn settled<T, E>(result: Result<T, E>) -> LoadState<T, E> {
    match result {
        Ok(v) => LoadState::Loaded(v),
        Err(e) => LoadState::Error(e),
    }
}

impl<T, E> AsyncResult<T, E> {
    /// Transforms the success value, keeping the ticket.
    pub fn map<U, F: FnOnce(T) -> U>(self, op: F) -> (r: AsyncResult<U, E>)
        requires
            self.result matches Ok(v) ==> op.requires((v,)),
        ensures
            r.ticket == self.ticket,
            self.result matches Ok(v) ==> r.result matches Ok(u) && op.ensures((v,), u),
            self.result matches Err(e) ==> r.result == Err::<U, E>(e),
    {
        let result = match self.result {
            Ok(v) => Ok(op(v)),
            Err(e) => Err(e),
        };
        AsyncResult { ticket: self.ticket, result }
    }
}

impl<T, E> LoadState<T, E> {
    /// The value that can be shown: the loaded one, or the one kept during a reload.
    pub open spec fn value_spec(&self) -> Option<T> {
        match self {
            LoadState::Loading { prev, .. } => *prev,
            LoadState::Loaded(v) => Some(*v),
            _ => None,
        }
    }

    /// The loaded value, or the one retained while a new load runs.
    pub fn value(&self) -> (r: Option<&T>)
        ensures
            r matches Some(v) ==> self.value_spec() == Some(*v),
            r is None ==> self.value_spec() is None,
    {
        match self {
            LoadState::Loading { prev, .. } => prev.as_ref(),
            LoadState::Loaded(value) => Some(value),
            _ => None,
        }
    }

    /// The error of a failed operation.
    pub fn error(&self) -> (r: Option<&E>)
        ensures
            r matches Some(e) ==> self == LoadState::<T, E>::Error(*e),
            r is None ==> self !is Error,
    {
        match self {
            LoadState::Error(err) => Some(err),
            _ => None,
        }
    }
}

/// Manages the state machine for asynchronous data loading: tracks the loading
/// status, measures how long an operation took, discards stale results and keeps
/// the previous data during a reload.
pub struct AsyncState<T, E> {
    /// Data state.
    state: LoadState<T, E>,
    /// Generation counter.
    next_generation: u64,
    /// Ticket of the running operation; `None` when no operation is valid.
    current_ticket: Option<Ticket>,
}

impl<T, E> AsyncState<T, E> {
    /// `after` and the ticket `t` are what `start_load` makes of `before`.
    pub open spec fn started(before: Self, after: Self, t: Ticket) -> bool {
        &&& after.generation() == next_generation(before.generation())
        &&& t@ == after.generation()
        &&& after.ticket() == Some(t)
        &&& after.state() is Loading
        &&& after.state()->prev == before.state().value_spec()
    }

    /// `after` is what applying `result` makes of `before`: the tracker is
    /// settled when the ticket is the outstanding one, and unchanged otherwise.
    pub open spec fn accepted(before: Self, after: Self, result: AsyncResult<T, E>) -> bool {
        if before.ticket() == Some(result.ticket) {
            &&& after.ticket() is None
            &&& after.state() == settled(result.result)
            &&& after.generation() == before.generation()
        } else {
            after == before
        }
    }

    /// `after` and the answer `r` are what `apply(result)` makes of `before`.
    pub open spec fn applied(
        before: Self,
        after: Self,
        result: AsyncResult<T, E>,
        r: Option<Duration>,
    ) -> bool {
        &&& Self::accepted(before, after, result)
        &&& (r is Some <==> before.ticket() == Some(result.ticket))
    }

    #[verifier::type_invariant]
    spec fn inv(&self) -> bool {
        &&& (self.current_ticket is Some <==> self.state is Loading)
        &&& (self.current_ticket matches Some(t) ==> t.0 == self.next_generation)
    }

    /// The data state.
    pub closed spec fn state(&self) -> LoadState<T, E> {
        self.state
    }

    /// The last generation handed out.
    pub closed spec fn generation(&self) -> u64 {
        self.next_generation
    }

    /// The ticket a result must carry to be accepted.
    pub closed spec fn ticket(&self) -> Option<Ticket> {
        self.current_ticket
    }

    /// A tracker in the `Idle` state that has handed out no ticket.
    pub fn new() -> (s: Self)
        ensures
            s.state() is Idle,
            s.generation() == 0,
            s.ticket() is None,
    {
        AsyncState { state: LoadState::Idle, next_generation: 0, current_ticket: None }
    }

    /// A reference to the data state.
    pub fn view(&self) -> (r: &LoadState<T, E>)
        ensures
            *r == self.state(),
    {
        &self.state
    }

    /// Whether an operation is in progress.
    pub fn is_loading(&self) -> (r: bool)
        ensures
            r == self.ticket() is Some,
            r == self.state() is Loading,
    {
        proof {
            use_type_invariant(self);
        }
        self.current_ticket.is_some()
    }

    /// Moves to `Loading` and issues a new ticket, which invalidates every ticket
    /// issued before. The value loaded before, or the one kept by a load still in
    /// progress, is retained as `prev`.
    pub fn start_load(&mut self) -> (r: Ticket)
        ensures
            Self::started(*old(self), *final(self), r),
    {
        proof {
            use_type_invariant(&*self);
        }
        let generation = self.next_generation.wrapping_add(1);
        let ticket = Ticket(generation);
        let time = Instant::now();
        let old_state = self.take_state();
        let prev = match old_state {
            LoadState::Loading { prev, time: _ } => prev,
            LoadState::Loaded(data) => Some(data),
            LoadState::Idle | LoadState::Error(_) => None,
        };
        *self = AsyncState {
            state: LoadState::Loading { prev, time },
            next_generation: generation,
            current_ticket: Some(ticket),
        };
        ticket
    }

    /// Applies a result. One whose ticket is not the outstanding one is dropped,
    /// and `None` comes back with the tracker unchanged. Otherwise the ticket is
    /// cleared, the state becomes `Loaded` or `Error`, and the time since the load
    /// started comes back. A matching ticket outside `Loading` cannot occur: the
    /// type's invariant ties the outstanding ticket to the `Loading` state.
    pub fn apply(&mut self, result: AsyncResult<T, E>) -> (r: Option<Duration>)
        ensures
            Self::applied(*old(self), *final(self), result, r),
    {
        proof {
            use_type_invariant(&*self);
        }
        let matches = match self.current_ticket {
            Some(t) => t.0 == result.ticket.0,
            None => false,
        };
        if !matches {
            return None;
        }
        let generation = self.next_generation;
        let previous = self.take_state();
        match previous {
            LoadState::Loading { time, .. } => {
                let duration = time.elapsed();
                let state = match result.result {
                    Ok(data) => LoadState::Loaded(data),
                    Err(err) => LoadState::Error(err),
                };
                *self = AsyncState { state, next_generation: generation, current_ticket: None };
                Some(duration)
            },
            other => {
                *self = AsyncState { state: other, next_generation: generation, current_ticket: None };
                None
            },
        }
    }

    /// Applies the result and, unless it was stale, reports it as a log line:
    /// `Success` with `summarize`'s description of the data when the result is `Ok`,
    /// `Error` with the error's text otherwise.
    pub fn apply_trace<F>(&mut self, result: AsyncResult<T, E>, label: &str, summarize: F) -> (r:
        Option<Trace>) where E: ErrorText, F: FnOnce(&T) -> String
        requires
            forall|v: &T| summarize.requires((v,)),
        ensures
            Self::accepted(*old(self), *final(self), result),
            r is Some <==> old(self).ticket() == Some(result.ticket),
            r matches Some(Trace::Success(_)) <==> (r is Some && result.result is Ok),
            r matches Some(Trace::Error(_)) <==> (r is Some && result.result is Err),
            r matches Some(Trace::Success(m)) ==> exists|elapsed: Seq<char>, summary: String|
                {
                    &&& result.result matches Ok(v) && summarize.ensures((&v,), summary)
                    &&& m@ == success_text(label@, elapsed, summary@)
                },
            r matches Some(Trace::Error(m)) ==> exists|elapsed: Seq<char>, text: Seq<char>|
                m@ == failure_text(label@, elapsed, text),
    {
        let duration = match self.apply(result) {
            Some(d) => d,
            None => return None,
        };
        let elapsed = elapsed_text(&duration);
        match &self.state {
            LoadState::Loaded(data) => {
                let summary = summarize(data);
                Some(Trace::Success(success_message(label, &elapsed, &summary)))
            },
            LoadState::Error(err) => {
                let text = err.error_text();
                Some(Trace::Error(failure_message(label, &elapsed, &text)))
            },
            _ => None,
        }
    }

    /// Moves the data state out, leaving the tracker idle with its generation kept.
    fn take_state(&mut self) -> (r: LoadState<T, E>)
        ensures
            r == old(self).state(),
            final(self).state() is Idle,
            final(self).ticket() is None,
            final(self).generation() == old(self).generation(),
    {
        let mut taken = AsyncState {
            state: LoadState::Idle,
            next_generation: self.next_generation,
            current_ticket: None,
        };
        std::mem::swap(self, &mut taken);
        let AsyncState { state, .. } = taken;
        state
    }
}

/// Tickets handed out by a run of `start_load` calls strictly increase, as long as
/// the generation counter does not pass the end of its range: `states[i + 1]` and
/// `tickets[i]` are what the `i`-th call made of `states[i]`.
pub proof fn lemma_tickets_strictly_increase<T, E>(
    states: Seq<AsyncState<T, E>>,
    tickets: Seq<Ticket>,
)
    requires
        states.len() == tickets.len() + 1,
        forall|i: int|
            0 <= i < tickets.len() ==> #[trigger] AsyncState::started(
                states[i],
                states[i + 1],
                tickets[i],
            ),
        states[0].generation() + tickets.len() <= u64::MAX,
    ensures
        forall|i: int, j: int| 0 <= i < j < tickets.len() ==> tickets[i]@ < tickets[j]@,
{
    assert forall|i: int| 0 <= i < tickets.len() implies #[trigger] tickets[i]@ == states[0].generation()
        + i + 1 by {
        lemma_generation_after(states, tickets, i);
    }
}

proof fn lemma_generation_after<T, E>(states: Seq<AsyncState<T, E>>, tickets: Seq<Ticket>, i: int)
    requires
        states.len() == tickets.len() + 1,
        forall|k: int|
            0 <= k < tickets.len() ==> #[trigger] AsyncState::started(
                states[k],
                states[k + 1],
                tickets[k],
            ),
        states[0].generation() + tickets.len() <= u64::MAX,
        0 <= i < tickets.len(),
    ensures
        states[i + 1].generation() == states[0].generation() + i + 1,
        tickets[i]@ == states[i + 1].generation(),
    decreases i,
{
    assert(AsyncState::started(states[i], states[i + 1], tickets[i]));
    if i > 0 {
        lemma_generation_after(states, tickets, i - 1);
    }
}

/// After a load started, a result carrying any ticket but the one it issued is
/// dropped: nothing comes back and the tracker is unchanged.
pub proof fn lemma_only_latest_ticket_commits<T, E>(
    s0: AsyncState<T, E>,
    s1: AsyncState<T, E>,
    latest: Ticket,
    result: AsyncResult<T, E>,
    s2: AsyncState<T, E>,
    r: Option<Duration>,
)
    requires
        AsyncState::started(s0, s1, latest),
        result.ticket != latest,
        AsyncState::applied(s1, s2, result, r),
    ensures
        r is None,
        s2 == s1,
{
}

/// Once a second load has started, a result carrying the ticket of the first one is
/// dropped: nothing comes back and the tracker is unchanged.
pub proof fn lemma_superseded_result_is_dropped<T, E>(
    s0: AsyncState<T, E>,
    s1: AsyncState<T, E>,
    t1: Ticket,
    s2: AsyncState<T, E>,
    t2: Ticket,
    result: AsyncResult<T, E>,
    s3: AsyncState<T, E>,
    r: Option<Duration>,
)
    requires
        AsyncState::started(s0, s1, t1),
        AsyncState::started(s1, s2, t2),
        s0.generation() < u64::MAX - 1,
        result.ticket == t1,
        AsyncState::applied(s2, s3, result, r),
    ensures
        r is None,
        s3 == s2,
        s3.state() is Loading,
{
    assert(t1@ != t2@);
}

/// Starting a load keeps the loaded value as `prev`; from `Idle` there is none.
pub proof fn lemma_previous_value_retained<T, E>(
    before: AsyncState<T, E>,
    after: AsyncState<T, E>,
    t: Ticket,
)
    requires
        AsyncState::started(before, after, t),
    ensures
        before.state() matches LoadState::Loaded(v) ==> (after.state() is Loading
            && after.state()->prev == Some(v)),
        before.state() is Idle ==> (after.state() is Loading && after.state()->prev is None),
{
}

impl<T, E> Default for AsyncState<T, E> {
    fn default() -> (s: Self)
        ensures
            s.state() is Idle,
            s.generation() == 0,
            s.ticket() is None,
    {
        AsyncState::new()
    }
}

} // verus!
