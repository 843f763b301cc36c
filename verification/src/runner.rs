//! Runners _run_ a connection directly in Rust.
//!
//! A runner takes requests (a query, its optional parameters, and whether
//! single row mode is wanted) one at a time, sends each to the server, waits
//! until it is flushed, and then reads and delivers every result of it, the
//! last of which is "no more results". The first error ends the runner.
//!
//! The runner's decisions are a state machine: [`RunnerMachine::step`] takes
//! the outcome of the last piece of outside work (an [`RunnerEvent`]) and
//! returns the next piece of outside work to do (a [`RunnerAction`]). The
//! thread that drives a runner performs the actions on the connection and
//! feeds their outcomes back.

use vstd::prelude::*;
use vstd::string::*;
use crate::errors::{PQError, PQResult};

verus! {

/// A request to the server: a query, its optional parameters, the tag of
/// whoever its results go to (the caller's handle on the request's
/// callback), and whether single row mode is to be selected for it.
#[derive(Debug)]
pub struct RunnerRequest {
    pub query: String,
    pub params: Option<Vec<String>>,
    pub tag: u64,
    pub single_row: bool,
}

impl RunnerRequest {
    /// Splits a request into its parts.
    pub fn into(self) -> (r: (String, Option<Vec<String>>, u64, bool))
        ensures
            r.0 == self.query,
            r.1 == self.params,
            r.2 == self.tag,
            r.3 == self.single_row,
    {
        (self.query, self.params, self.tag, self.single_row)
    }
}

/// Where a runner stands, i.e. which outside work it is waiting on.
#[derive(Debug)]
pub enum RunnerState {
    /// Waiting for the next request.
    WaitingRequest,
    /// Waiting until the connection is writable, to send the request.
    PollingToSend { request: RunnerRequest },
    /// Waiting for the request to be sent.
    Sending { single_row: bool },
    /// Waiting for single row mode to be selected.
    SettingSingleRow,
    /// Waiting for the queued output to be flushed.
    Flushing,
    /// Waiting until the connection is writable, to flush again.
    PollingToFlush,
    /// Waiting (for at most two seconds) until the connection is writable
    /// again after the request was flushed.
    Confirming,
    /// Waiting until the connection is readable.
    PollingToRead,
    /// Waiting for the input to be consumed.
    Consuming,
    /// Waiting to learn whether reading a result would block.
    CheckingBusy,
    /// Waiting for the next result (or for "no more results").
    Fetching,
    /// Waiting for the result to be delivered; `more` is false for the final
    /// "no more results".
    Delivering { more: bool },
    /// Ended: a runner takes no event once it stopped.
    Stopped,
}

/// Why a runner stopped.
#[derive(Debug)]
pub enum StopReason {
    /// The sending side of the request queue went away.
    Disconnected,
    /// Some work on the connection failed.
    Failed(PQError),
}

/// The outcome of the last piece of outside work.
#[derive(Debug)]
pub enum RunnerEvent {
    /// A request was received.
    Request(RunnerRequest),
    /// The sending side of the request queue went away.
    Disconnected,
    /// Polling the connection finished.
    Polled(PQResult<()>),
    /// Sending the request finished.
    Sent(PQResult<()>),
    /// Single row mode was selected (its outcome is not looked at).
    SingleRowSet,
    /// Flushing finished: `Ok(true)` when everything was flushed.
    Flushed(PQResult<bool>),
    /// Consuming input finished.
    Consumed(PQResult<()>),
    /// Whether reading a result would block.
    Busy(bool),
    /// Whether a result came back (`false` for "no more results").
    Fetched(bool),
    /// The last result was handed to the request's callback.
    Delivered,
}

/// The next piece of outside work.
#[derive(Debug)]
pub enum RunnerAction {
    /// Wait for the next request.
    ReceiveRequest,
    /// Wait until the connection is writable, for at most `timeout_ms`
    /// milliseconds when given.
    PollWritable { timeout_ms: Option<u64> },
    /// Wait until the connection is readable.
    PollReadable,
    /// Send a query without parameters.
    SendQuery { query: String },
    /// Send a query with parameters.
    SendQueryParams { query: String, params: Vec<String> },
    /// Select single row mode for the query just sent.
    SetSingleRowMode,
    /// Flush the queued output.
    Flush,
    /// Consume the input available.
    ConsumeInput,
    /// Ask whether reading a result would block.
    CheckBusy,
    /// Read the next result.
    GetResult,
    /// Hand the result just read (or "no more results") to the request's
    /// callback.
    Deliver,
    /// Stop the runner.
    Stop { reason: StopReason },
}

/// A runner's state machine. With `confirm_writable` the runner waits (for
/// at most two seconds) until the connection is writable again after each
/// request was flushed. `serving` is the tag of the last request taken: the
/// results delivered go to it.
#[derive(Debug)]
pub struct RunnerMachine {
    pub confirm_writable: bool,
    pub state: RunnerState,
    pub serving: Option<u64>,
}

/// Whose results a runner delivers after `event`: the tag of a request just
/// taken, else the same as before.
pub open spec fn serving_after(serving: Option<u64>, event: RunnerEvent) -> Option<u64> {
    match event {
        RunnerEvent::Request(q) => Some(q.tag),
        _ => serving,
    }
}

/// How long a confirming runner waits for the connection to be writable
/// again after a request was flushed.
pub const CONFIRM_TIMEOUT_MS: u64 = 2000;

/// The action that goes with sending `request`.
pub open spec fn send_action(request: RunnerRequest) -> RunnerAction {
    match request.params {
        None => RunnerAction::SendQuery { query: request.query },
        Some(params) => RunnerAction::SendQueryParams { query: request.query, params },
    }
}

/// Whether `event` answers the work that a runner in `state` waits on.
pub open spec fn answers(state: RunnerState, event: RunnerEvent) -> bool {
    match state {
        RunnerState::WaitingRequest => event is Request || event is Disconnected,
        RunnerState::PollingToSend { .. } => event is Polled,
        RunnerState::Sending { .. } => event is Sent,
        RunnerState::SettingSingleRow => event is SingleRowSet,
        RunnerState::Flushing => event is Flushed,
        RunnerState::PollingToFlush => event is Polled,
        RunnerState::Confirming => event is Polled,
        RunnerState::PollingToRead => event is Polled,
        RunnerState::Consuming => event is Consumed,
        RunnerState::CheckingBusy => event is Busy,
        RunnerState::Fetching => event is Fetched,
        RunnerState::Delivering { .. } => event is Delivered,
        RunnerState::Stopped => false,
    }
}

/// Where the request goes once it was flushed.
pub open spec fn after_flush(confirm_writable: bool) -> (RunnerState, RunnerAction) {
    if confirm_writable {
        (
            RunnerState::Confirming,
            RunnerAction::PollWritable { timeout_ms: Some(CONFIRM_TIMEOUT_MS) },
        )
    } else {
        (RunnerState::PollingToRead, RunnerAction::PollReadable)
    }
}

/// The runner's transition: its next state and action, given its state and
/// the outcome of the work it waited on.
pub open spec fn next(confirm_writable: bool, state: RunnerState, event: RunnerEvent) -> (
    RunnerState,
    RunnerAction,
) {
    match (state, event) {
        (RunnerState::WaitingRequest, RunnerEvent::Request(request)) => (
            RunnerState::PollingToSend { request },
            RunnerAction::PollWritable { timeout_ms: None },
        ),
        (RunnerState::PollingToSend { request }, RunnerEvent::Polled(Ok(_))) => (
            RunnerState::Sending { single_row: request.single_row },
            send_action(request),
        ),
        (RunnerState::Sending { single_row }, RunnerEvent::Sent(Ok(_))) => if single_row {
            (RunnerState::SettingSingleRow, RunnerAction::SetSingleRowMode)
        } else {
            (RunnerState::Flushing, RunnerAction::Flush)
        },
        (RunnerState::SettingSingleRow, RunnerEvent::SingleRowSet) => (
            RunnerState::Flushing,
            RunnerAction::Flush,
        ),
        (RunnerState::Flushing, RunnerEvent::Flushed(Ok(done))) => if done {
            after_flush(confirm_writable)
        } else {
            (RunnerState::PollingToFlush, RunnerAction::PollWritable { timeout_ms: None })
        },
        (RunnerState::PollingToFlush, RunnerEvent::Polled(Ok(_))) => (
            RunnerState::Flushing,
            RunnerAction::Flush,
        ),
        (RunnerState::Confirming, RunnerEvent::Polled(Ok(_))) => (
            RunnerState::PollingToRead,
            RunnerAction::PollReadable,
        ),
        (RunnerState::PollingToRead, RunnerEvent::Polled(Ok(_))) => (
            RunnerState::Consuming,
            RunnerAction::ConsumeInput,
        ),
        (RunnerState::Consuming, RunnerEvent::Consumed(Ok(_))) => (
            RunnerState::CheckingBusy,
            RunnerAction::CheckBusy,
        ),
        (RunnerState::CheckingBusy, RunnerEvent::Busy(busy)) => if busy {
            (RunnerState::PollingToRead, RunnerAction::PollReadable)
        } else {
            (RunnerState::Fetching, RunnerAction::GetResult)
        },
        (RunnerState::Fetching, RunnerEvent::Fetched(more)) => (
            RunnerState::Delivering { more },
            RunnerAction::Deliver,
        ),
        (RunnerState::Delivering { more }, RunnerEvent::Delivered) => if more {
            (RunnerState::CheckingBusy, RunnerAction::CheckBusy)
        } else {
            (RunnerState::WaitingRequest, RunnerAction::ReceiveRequest)
        },
        (_, RunnerEvent::Disconnected) => stopped(StopReason::Disconnected),
        (_, RunnerEvent::Polled(Err(error))) => stopped(StopReason::Failed(error)),
        (_, RunnerEvent::Sent(Err(error))) => stopped(StopReason::Failed(error)),
        (_, RunnerEvent::Flushed(Err(error))) => stopped(StopReason::Failed(error)),
        (_, RunnerEvent::Consumed(Err(error))) => stopped(StopReason::Failed(error)),
        (state, _) => (state, RunnerAction::ReceiveRequest),
    }
}

/// A stopped runner and its last action.
pub open spec fn stopped(reason: StopReason) -> (RunnerState, RunnerAction) {
    (RunnerState::Stopped, RunnerAction::Stop { reason })
}

impl StopReason {
    /// The error that ends the runner: `"Sender disconnected"` when its
    /// request queue went away.
    pub fn into_error(self) -> (e: PQError)
        ensures
            self matches StopReason::Failed(f) ==> e == f,
            self is Disconnected ==> e.message@ == "Sender disconnected"@,
    {
        match self {
            StopReason::Failed(error) => error,
            StopReason::Disconnected => PQError::from_text("Sender disconnected"),
        }
    }
}

impl RunnerMachine {
    /// A runner that starts reading results as soon as a request is flushed
    /// (and its first action, which is to wait for a request).
    pub fn plain() -> (r: (RunnerMachine, RunnerAction))
        ensures
            r.0.confirm_writable == false,
            r.0.state is WaitingRequest,
            r.0.serving is None,
            r.1 is ReceiveRequest,
    {
        (
            RunnerMachine { confirm_writable: false, state: RunnerState::WaitingRequest, serving: None },
            RunnerAction::ReceiveRequest,
        )
    }

    /// A runner that waits (for at most two seconds) until the connection is
    /// writable again after each request was flushed (and its first action,
    /// which is to wait for a request).
    pub fn confirming() -> (r: (RunnerMachine, RunnerAction))
        ensures
            r.0.confirm_writable == true,
            r.0.state is WaitingRequest,
            r.0.serving is None,
            r.1 is ReceiveRequest,
    {
        (
            RunnerMachine { confirm_writable: true, state: RunnerState::WaitingRequest, serving: None },
            RunnerAction::ReceiveRequest,
        )
    }

    /// Whether `event` reports the work this runner waits on, i.e. whether
    /// [`RunnerMachine::step`] may be given it.
    pub fn expects(&self, event: &RunnerEvent) -> (r: bool)
        ensures
            r == answers(self.state, *event),
    {
        match (&self.state, event) {
            (RunnerState::WaitingRequest, RunnerEvent::Request(_)) => true,
            (RunnerState::WaitingRequest, RunnerEvent::Disconnected) => true,
            (RunnerState::PollingToSend { .. }, RunnerEvent::Polled(_)) => true,
            (RunnerState::Sending { .. }, RunnerEvent::Sent(_)) => true,
            (RunnerState::SettingSingleRow, RunnerEvent::SingleRowSet) => true,
            (RunnerState::Flushing, RunnerEvent::Flushed(_)) => true,
            (RunnerState::PollingToFlush, RunnerEvent::Polled(_)) => true,
            (RunnerState::Confirming, RunnerEvent::Polled(_)) => true,
            (RunnerState::PollingToRead, RunnerEvent::Polled(_)) => true,
            (RunnerState::Consuming, RunnerEvent::Consumed(_)) => true,
            (RunnerState::CheckingBusy, RunnerEvent::Busy(_)) => true,
            (RunnerState::Fetching, RunnerEvent::Fetched(_)) => true,
            (RunnerState::Delivering { .. }, RunnerEvent::Delivered) => true,
            _ => false,
        }
    }

    /// Takes the outcome of the work the runner waited on, and returns the
    /// runner's next state and the next piece of work.
    pub fn step(self, event: RunnerEvent) -> (r: (RunnerMachine, RunnerAction))
        requires
            answers(self.state, event),
        ensures
            r.0.confirm_writable == self.confirm_writable,
            r.0.serving == serving_after(self.serving, event),
            (r.0.state, r.1) == next(self.confirm_writable, self.state, event),
    {
        let confirm_writable = self.confirm_writable;
        let serving = match &event {
            RunnerEvent::Request(q) => Some(q.tag),
            _ => self.serving,
        };
        let (state, action) = match (self.state, event) {
            (RunnerState::WaitingRequest, RunnerEvent::Request(request)) => (
                RunnerState::PollingToSend { request },
                RunnerAction::PollWritable { timeout_ms: None },
            ),
            (RunnerState::WaitingRequest, RunnerEvent::Disconnected) => (
                RunnerState::Stopped,
                RunnerAction::Stop { reason: StopReason::Disconnected },
            ),
            (RunnerState::PollingToSend { request }, RunnerEvent::Polled(Ok(_))) => {
                let single_row = request.single_row;
                let action = match request.params {
                    None => RunnerAction::SendQuery { query: request.query },
                    Some(params) => RunnerAction::SendQueryParams { query: request.query, params },
                };
                (RunnerState::Sending { single_row }, action)
            },
            (RunnerState::Sending { single_row }, RunnerEvent::Sent(Ok(_))) => if single_row {
                (RunnerState::SettingSingleRow, RunnerAction::SetSingleRowMode)
            } else {
                (RunnerState::Flushing, RunnerAction::Flush)
            },
            (RunnerState::SettingSingleRow, RunnerEvent::SingleRowSet) => (
                RunnerState::Flushing,
                RunnerAction::Flush,
            ),
            (RunnerState::Flushing, RunnerEvent::Flushed(Ok(done))) => if done {
                if confirm_writable {
                    (
                        RunnerState::Confirming,
                        RunnerAction::PollWritable { timeout_ms: Some(CONFIRM_TIMEOUT_MS) },
                    )
                } else {
                    (RunnerState::PollingToRead, RunnerAction::PollReadable)
                }
            } else {
                (RunnerState::PollingToFlush, RunnerAction::PollWritable { timeout_ms: None })
            },
            (RunnerState::PollingToFlush, RunnerEvent::Polled(Ok(_))) => (
                RunnerState::Flushing,
                RunnerAction::Flush,
            ),
            (RunnerState::Confirming, RunnerEvent::Polled(Ok(_))) => (
                RunnerState::PollingToRead,
                RunnerAction::PollReadable,
            ),
            (RunnerState::PollingToRead, RunnerEvent::Polled(Ok(_))) => (
                RunnerState::Consuming,
                RunnerAction::ConsumeInput,
            ),
            (RunnerState::Consuming, RunnerEvent::Consumed(Ok(_))) => (
                RunnerState::CheckingBusy,
                RunnerAction::CheckBusy,
            ),
            (RunnerState::CheckingBusy, RunnerEvent::Busy(busy)) => if busy {
                (RunnerState::PollingToRead, RunnerAction::PollReadable)
            } else {
                (RunnerState::Fetching, RunnerAction::GetResult)
            },
            (RunnerState::Fetching, RunnerEvent::Fetched(more)) => (
                RunnerState::Delivering { more },
                RunnerAction::Deliver,
            ),
            (RunnerState::Delivering { more }, RunnerEvent::Delivered) => if more {
                (RunnerState::CheckingBusy, RunnerAction::CheckBusy)
            } else {
                (RunnerState::WaitingRequest, RunnerAction::ReceiveRequest)
            },
            (_, RunnerEvent::Polled(Err(error))) => (
                RunnerState::Stopped,
                RunnerAction::Stop { reason: StopReason::Failed(error) },
            ),
            (_, RunnerEvent::Sent(Err(error))) => (
                RunnerState::Stopped,
                RunnerAction::Stop { reason: StopReason::Failed(error) },
            ),
            (_, RunnerEvent::Flushed(Err(error))) => (
                RunnerState::Stopped,
                RunnerAction::Stop { reason: StopReason::Failed(error) },
            ),
            (_, RunnerEvent::Consumed(Err(error))) => (
                RunnerState::Stopped,
                RunnerAction::Stop { reason: StopReason::Failed(error) },
            ),
            (state, _) => (state, RunnerAction::ReceiveRequest),
        };
        (RunnerMachine { confirm_writable, state, serving }, action)
    }
}

// ===== LAWS ==================================================================

/// The error carried by an event, if the work it reports failed.
pub open spec fn event_error(event: RunnerEvent) -> Option<PQError> {
    match event {
        RunnerEvent::Polled(Err(error)) => Some(error),
        RunnerEvent::Sent(Err(error)) => Some(error),
        RunnerEvent::Flushed(Err(error)) => Some(error),
        RunnerEvent::Consumed(Err(error)) => Some(error),
        _ => None,
    }
}

/// A request is sent exactly as it was received: once the connection is
/// writable, the query (and its parameters, if any) go out unchanged.
pub proof fn request_sent_as_received(confirm_writable: bool, request: RunnerRequest)
    ensures
        next(confirm_writable, RunnerState::WaitingRequest, RunnerEvent::Request(request)) == (
            (RunnerState::PollingToSend { request }),
            (RunnerAction::PollWritable { timeout_ms: None }),
        ),
        next(
            confirm_writable,
            (RunnerState::PollingToSend { request }),
            RunnerEvent::Polled(Ok(())),
        ) == ((RunnerState::Sending { single_row: request.single_row }), send_action(request)),
        request.params is None ==> send_action(request) == (RunnerAction::SendQuery {
            query: request.query,
        }),
        request.params matches Some(p) ==> send_action(request) == (
        RunnerAction::SendQueryParams { query: request.query, params: p }),
{
}

/// The first failure stops the runner, with that failure as the reason.
pub proof fn first_error_stops(confirm_writable: bool, state: RunnerState, event: RunnerEvent)
    requires
        answers(state, event),
        event_error(event) is Some,
    ensures
        next(confirm_writable, state, event) == stopped(
            StopReason::Failed(event_error(event)->Some_0),
        ),
{
}

/// A runner whose request queue went away stops.
pub proof fn disconnect_stops(confirm_writable: bool)
    ensures
        next(confirm_writable, RunnerState::WaitingRequest, RunnerEvent::Disconnected) == stopped(
            StopReason::Disconnected,
        ),
{
}

/// A runner asks for a new request only once the final "no more results" of
/// the previous one was delivered.
pub proof fn new_request_only_after_final_result(
    confirm_writable: bool,
    state: RunnerState,
    event: RunnerEvent,
)
    requires
        answers(state, event),
        next(confirm_writable, state, event).1 is ReceiveRequest,
    ensures
        state == (RunnerState::Delivering { more: false }),
        event is Delivered,
{
}

/// A query is sent only once the connection was found writable.
pub proof fn send_only_when_writable(confirm_writable: bool, state: RunnerState, event: RunnerEvent)
    requires
        answers(state, event),
        next(confirm_writable, state, event).1 is SendQuery || next(
            confirm_writable,
            state,
            event,
        ).1 is SendQueryParams,
    ensures
        state is PollingToSend,
        event matches RunnerEvent::Polled(Ok(_)),
{
}

/// A result is read only when reading it does not block.
pub proof fn result_read_only_when_not_busy(
    confirm_writable: bool,
    state: RunnerState,
    event: RunnerEvent,
)
    requires
        answers(state, event),
        next(confirm_writable, state, event).1 is GetResult,
    ensures
        state is CheckingBusy,
        event == RunnerEvent::Busy(false),
{
}

/// Reading starts only once the request was completely flushed (and, for a
/// confirming runner, once the connection was polled for writability with
/// a two second timeout).
pub proof fn read_only_after_flush(confirm_writable: bool, state: RunnerState, event: RunnerEvent)
    requires
        answers(state, event),
        next(confirm_writable, state, event).1 is PollReadable,
    ensures
        (state is Flushing && event == RunnerEvent::Flushed(Ok(true)) && !confirm_writable) || (
        state is Confirming && event matches RunnerEvent::Polled(Ok(_))) || (
        state is CheckingBusy && event == RunnerEvent::Busy(true)),
{
}

/// After a complete flush, a confirming runner waits at most two seconds for
/// the connection to be writable again; a plain runner goes on reading.
pub proof fn flush_complete(confirm_writable: bool)
    ensures
        next(confirm_writable, RunnerState::Flushing, RunnerEvent::Flushed(Ok(true))) == if confirm_writable {
            (
                RunnerState::Confirming,
                RunnerAction::PollWritable { timeout_ms: Some(CONFIRM_TIMEOUT_MS) },
            )
        } else {
            (RunnerState::PollingToRead, RunnerAction::PollReadable)
        },
        CONFIRM_TIMEOUT_MS == 2000,
{
}

/// A stopped runner takes no further event.
pub proof fn stopped_is_final(event: RunnerEvent)
    ensures
        !answers(RunnerState::Stopped, event),
{
}

/// Once a query was sent, single row mode is selected for it exactly when
/// its request asked for it, whether or not the runner confirms that the
/// connection is writable again.
pub proof fn single_row_selected_iff_asked(confirm_writable: bool, single_row: bool)
    ensures
        next(
            confirm_writable,
            RunnerState::Sending { single_row },
            RunnerEvent::Sent(Ok(())),
        ).1 is SetSingleRowMode <==> single_row,
        single_row ==> next(
            confirm_writable,
            RunnerState::Sending { single_row },
            RunnerEvent::Sent(Ok(())),
        ) == (RunnerState::SettingSingleRow, RunnerAction::SetSingleRowMode),
{
}

// ===== WHOLE RUNS ============================================================

/// What can be seen of a runner from outside: a request taken, the query
/// sent for it, whether single row mode was then selected for it, a result
/// handed to the callback tagged `tag` (`more` is false for the final "no
/// more results"), readiness for the next request, and the stop.
pub enum Milestone {
    Accepted(RunnerRequest),
    Sent(RunnerAction),
    Queued { single_row: bool },
    Result { more: bool, tag: Option<u64> },
    Ready,
    Stopped,
}

/// Where a runner stands in the order its milestones must follow.
pub enum Phase {
    /// Waiting for a request.
    Idle,
    /// A request was taken; its query is to be sent next.
    Accepted(RunnerRequest),
    /// The query of the request tagged `tag` was sent; single row mode is to
    /// be selected for it exactly when `single_row`.
    SendPending { tag: u64, single_row: bool },
    /// The query of the request tagged `tag` was sent; its results are coming.
    Running { tag: u64 },
    /// The final "no more results" was handed over.
    Finished,
    /// Stopped for good.
    Halted,
}

/// The order milestones must follow: for each request, the request, then
/// its query (sent as received), then single row mode selected exactly when
/// the request asked for it, then any number of results, then the final
/// "no more results", all handed to that request's tag, then readiness for
/// the next request; a stop may come at any point, and nothing comes after
/// it. `None` when `m` is out of order.
pub open spec fn step_phase(p: Phase, m: Milestone) -> Option<Phase> {
    match (p, m) {
        (Phase::Halted, _) => None,
        (_, Milestone::Stopped) => Some(Phase::Halted),
        (Phase::Idle, Milestone::Accepted(q)) => Some(Phase::Accepted(q)),
        (Phase::Accepted(q), Milestone::Sent(a)) => if a == send_action(q) {
            Some(Phase::SendPending { tag: q.tag, single_row: q.single_row })
        } else {
            None
        },
        (Phase::SendPending { tag, single_row }, Milestone::Queued { single_row: selected }) =>
            if selected == single_row {
            Some(Phase::Running { tag })
        } else {
            None
        },
        (Phase::Running { tag }, Milestone::Result { more, tag: to }) => if to == Some(tag) {
            Some(
                if more {
                    Phase::Running { tag }
                } else {
                    Phase::Finished
                },
            )
        } else {
            None
        },
        (Phase::Finished, Milestone::Ready) => Some(Phase::Idle),
        _ => None,
    }
}

/// Whether the milestones of `trace`, seen from phase `p`, follow the order
/// of [`step_phase`].
pub open spec fn in_order(p: Phase, trace: Seq<Milestone>) -> bool
    decreases trace.len(),
{
    if trace.len() == 0 {
        true
    } else {
        match step_phase(p, trace[0]) {
            None => false,
            Some(q) => in_order(q, trace.drop_first()),
        }
    }
}

/// Whether `serving` agrees with `state`: a request waiting to be sent is the
/// one served, and while a request runs some request is served.
pub open spec fn serving_agrees(state: RunnerState, serving: Option<u64>) -> bool {
    match state {
        RunnerState::WaitingRequest => true,
        RunnerState::Stopped => true,
        RunnerState::PollingToSend { request } => serving == Some(request.tag),
        _ => serving is Some,
    }
}

/// The phase a runner in `state`, serving `serving`, is in.
pub open spec fn phase_of(state: RunnerState, serving: Option<u64>) -> Phase {
    match state {
        RunnerState::WaitingRequest => Phase::Idle,
        RunnerState::PollingToSend { request } => Phase::Accepted(request),
        RunnerState::Sending { single_row } => Phase::SendPending {
            tag: serving->Some_0,
            single_row,
        },
        RunnerState::Delivering { more: false } => Phase::Finished,
        RunnerState::Stopped => Phase::Halted,
        _ => Phase::Running { tag: serving->Some_0 },
    }
}

/// What a step from `state` (serving `serving`) on `event` shows, if
/// anything.
pub open spec fn milestone(
    confirm_writable: bool,
    state: RunnerState,
    serving: Option<u64>,
    event: RunnerEvent,
) -> Option<Milestone> {
    let (after, action) = next(confirm_writable, state, event);
    if after is Stopped {
        Some(Milestone::Stopped)
    } else {
        match (state, event) {
            (RunnerState::WaitingRequest, RunnerEvent::Request(q)) => Some(Milestone::Accepted(q)),
            (RunnerState::PollingToSend { .. }, RunnerEvent::Polled(Ok(_))) => Some(
                Milestone::Sent(action),
            ),
            (RunnerState::Sending { .. }, RunnerEvent::Sent(Ok(_))) => Some(
                Milestone::Queued { single_row: action is SetSingleRowMode },
            ),
            (RunnerState::Fetching, RunnerEvent::Fetched(more)) => Some(
                Milestone::Result { more, tag: serving },
            ),
            (RunnerState::Delivering { more: false }, RunnerEvent::Delivered) => Some(
                Milestone::Ready,
            ),
            _ => None,
        }
    }
}

/// Whether each of `events`, in turn, answers the work the runner (starting
/// in `state`) waits on.
pub open spec fn valid_run(confirm_writable: bool, state: RunnerState, events: Seq<RunnerEvent>) -> bool
    decreases events.len(),
{
    events.len() == 0 || (answers(state, events[0]) && valid_run(
        confirm_writable,
        next(confirm_writable, state, events[0]).0,
        events.drop_first(),
    ))
}

/// The milestones a runner starting in `state`, serving `serving`, shows on
/// `events`.
pub open spec fn run_trace(
    confirm_writable: bool,
    state: RunnerState,
    serving: Option<u64>,
    events: Seq<RunnerEvent>,
) -> Seq<Milestone>
    decreases events.len(),
{
    if events.len() == 0 {
        seq![]
    } else {
        let rest = run_trace(
            confirm_writable,
            next(confirm_writable, state, events[0]).0,
            serving_after(serving, events[0]),
            events.drop_first(),
        );
        match milestone(confirm_writable, state, serving, events[0]) {
            None => rest,
            Some(m) => seq![m] + rest,
        }
    }
}

proof fn lemma_step_in_order(
    confirm_writable: bool,
    state: RunnerState,
    serving: Option<u64>,
    event: RunnerEvent,
)
    requires
        answers(state, event),
        serving_agrees(state, serving),
    ensures
        serving_agrees(next(confirm_writable, state, event).0, serving_after(serving, event)),
        match milestone(confirm_writable, state, serving, event) {
            None => phase_of(next(confirm_writable, state, event).0, serving_after(serving, event))
                == phase_of(state, serving),
            Some(m) => step_phase(phase_of(state, serving), m) == Some(
                phase_of(next(confirm_writable, state, event).0, serving_after(serving, event)),
            ),
        },
{
}

/// Over any run, each request's milestones come in order before the next
/// request's: the request is taken, its query is sent exactly as received,
/// single row mode is selected for it exactly when it asked for it (on plain
/// and confirming runners alike), its results are handed, one after the other, to that request's tag, the
/// final "no more results" comes exactly once, and only then is the next
/// request taken; a stop ends the run.
pub proof fn runs_follow_request_order(
    confirm_writable: bool,
    state: RunnerState,
    serving: Option<u64>,
    events: Seq<RunnerEvent>,
)
    requires
        valid_run(confirm_writable, state, events),
        serving_agrees(state, serving),
    ensures
        in_order(phase_of(state, serving), run_trace(confirm_writable, state, serving, events)),
    decreases events.len(),
{
    if events.len() > 0 {
        let e = events[0];
        let after = next(confirm_writable, state, e).0;
        let serving_next = serving_after(serving, e);
        lemma_step_in_order(confirm_writable, state, serving, e);
        runs_follow_request_order(confirm_writable, after, serving_next, events.drop_first());
        let rest = run_trace(confirm_writable, after, serving_next, events.drop_first());
        match milestone(confirm_writable, state, serving, e) {
            None => {},
            Some(m) => {
                let t = seq![m] + rest;
                assert(t[0] == m);
                assert(t.drop_first() =~= rest);
            },
        }
    }
}

} // verus!
