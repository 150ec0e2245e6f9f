//! The invocation loop: fetch, dispatch, classify, report — forever, with
//! no overlap between iterations.
//!
//! The loop is a two-state machine. `Idle` means no invocation is in
//! flight and the only permitted network action is a fetch; `Dispatching`
//! means one invocation has been fetched and not yet reported, and the
//! only permitted network action is the report for exactly that request
//! identifier. A protocol failure in either direction is fatal and aborts
//! the loop; a configuration defect discovered at dispatch is equally
//! fatal and never reported per invocation.
//!
//! The transport drives the machine from outside: it performs the fetch,
//! hands the invocation to `process_invocation`, performs the one report
//! call the returned command asks for, and acknowledges it with
//! `report_delivered`. The machine's contracts confine it to the
//! fetch/report alternation that `lemma_one_report_per_fetch` states.

use vstd::prelude::*;

use crate::errors::{ConfigurationError, HandlerError, HandlerErrorData};
use crate::protocol::{Invocation, RequestId};

verus! {

/// How a handler reports failure to the loop.
///
/// `Fault` carries an error the handler already classified; `Unclassified`
/// carries only the textual description of an opaque failure, which the
/// loop normalizes to a server fault; `Broken` marks a setup defect, which
/// is fatal to the process and never reported per invocation.
pub enum HandlerFailure {
    Fault(HandlerError),
    Unclassified(String),
    Broken(ConfigurationError),
}

/// Mathematical image of a handler failure.
pub enum HandlerFailureData {
    Fault(HandlerErrorData),
    Unclassified(Seq<char>),
    Broken(Seq<char>),
}

impl View for HandlerFailure {
    type V = HandlerFailureData;

    open spec fn view(&self) -> HandlerFailureData {
        match self {
            HandlerFailure::Fault(e) => HandlerFailureData::Fault(e@),
            HandlerFailure::Unclassified(d) => HandlerFailureData::Unclassified(d@),
            HandlerFailure::Broken(c) => HandlerFailureData::Broken(c.message@),
        }
    }
}

/// The capability the loop depends on: something that performs one unit of
/// work. The script sandbox is the implementation used in production; a
/// test may substitute any in-process handler.
pub trait Handler<Input, Output> {
    /// Performs the work for one invocation's payload.
    fn handle(&self, input: &Input) -> Result<Output, HandlerFailure>;
}

/// What a finished invocation reports back: the handler's result, or its
/// classified failure.
pub enum ReportPayload<Output> {
    Success(Output),
    Failure(HandlerError),
}

/// The one report call owed for a fetched invocation: where to send it
/// (the fetched request identifier) and what to send.
pub struct Report<Output> {
    pub request_id: RequestId,
    pub payload: ReportPayload<Output>,
}

/// The classification rule for handler failures: an error the handler
/// tagged is forwarded unchanged — this is how a caller-fault
/// (`ClientError`) survives to the platform — and an opaque failure is
/// normalized to `ServerError` around its description. A setup defect is
/// not classified: it aborts dispatch instead.
pub fn classify_failure(failure: HandlerFailure) -> (r: Result<HandlerError, ConfigurationError>)
    ensures
        failure@ matches HandlerFailureData::Fault(e) ==> (r matches Ok(h) && h@ == e),
        failure@ matches HandlerFailureData::Unclassified(d) ==> (r matches Ok(h) && h@
            == HandlerErrorData::ServerError(d)),
        failure@ matches HandlerFailureData::Broken(m) ==> (r matches Err(c) && c.message@ == m),
{
    match failure {
        HandlerFailure::Fault(e) => Ok(e),
        HandlerFailure::Unclassified(d) => Ok(HandlerError::ServerError(d)),
        HandlerFailure::Broken(c) => Err(c),
    }
}

/// Builds the report owed for one invocation from whatever the handler
/// returned: a result is reported as success, a failure is classified and
/// reported as an error, and a setup defect yields no report at all.
pub fn build_report<Output>(request_id: RequestId, outcome: Result<Output, HandlerFailure>) -> (r:
    Result<Report<Output>, ConfigurationError>)
    ensures
        outcome matches Ok(out) ==> ({
            &&& r matches Ok(rep)
            &&& rep.request_id@ == request_id@
            &&& rep.payload == ReportPayload::Success(out)
        }),
        outcome matches Err(f) ==> (f@ matches HandlerFailureData::Fault(e) ==> ({
            &&& r matches Ok(rep)
            &&& rep.request_id@ == request_id@
            &&& rep.payload matches ReportPayload::Failure(h)
            &&& h@ == e
        })),
        outcome matches Err(f) ==> (f@ matches HandlerFailureData::Unclassified(d) ==> ({
            &&& r matches Ok(rep)
            &&& rep.request_id@ == request_id@
            &&& rep.payload matches ReportPayload::Failure(h)
            &&& h@ == HandlerErrorData::ServerError(d)
        })),
        outcome matches Err(f) ==> (f@ matches HandlerFailureData::Broken(m) ==> (r matches Err(c)
            && c.message@ == m)),
{
    match outcome {
        Ok(out) => Ok(Report { request_id, payload: ReportPayload::Success(out) }),
        Err(failure) => match classify_failure(failure) {
            Ok(h) => Ok(Report { request_id, payload: ReportPayload::Failure(h) }),
            Err(c) => Err(c),
        },
    }
}

/// The loop's two states: no invocation in flight, or one fetched and not
/// yet reported.
pub enum LoopState {
    Idle,
    Dispatching(RequestId),
}

/// Mathematical image of a loop state.
pub enum LoopStateData {
    Idle,
    Dispatching(Seq<char>),
}

impl View for LoopState {
    type V = LoopStateData;

    open spec fn view(&self) -> LoopStateData {
        match self {
            LoopState::Idle => LoopStateData::Idle,
            LoopState::Dispatching(id) => LoopStateData::Dispatching(id@),
        }
    }
}

/// One network action of the loop, tagged with the request identifier it
/// concerns.
pub enum NetAction {
    FetchWork(Seq<char>),
    SendReport(Seq<char>),
}

/// The loop's transition relation over network actions: a fetch is
/// permitted only when idle and leaves the fetched invocation in flight; a
/// report is permitted only for exactly the in-flight request identifier
/// and makes the loop idle again.
pub open spec fn loop_step(pre: LoopStateData, action: NetAction, post: LoopStateData) -> bool {
    match action {
        NetAction::FetchWork(id) => pre is Idle && post == LoopStateData::Dispatching(id),
        NetAction::SendReport(id) => pre == LoopStateData::Dispatching(id)
            && post is Idle,
    }
}

/// After `i` permitted actions from idle, the loop is idle exactly when
/// `i` is even, and after an odd number of actions the in-flight request
/// identifier is the one the preceding fetch produced.
proof fn lemma_loop_state_parity(actions: Seq<NetAction>, states: Seq<LoopStateData>, i: int)
    requires
        states.len() == actions.len() + 1,
        states[0] is Idle,
        forall|j: int| 0 <= j < actions.len() ==> loop_step(states[j], #[trigger] actions[j], states[j + 1]),
        0 <= i <= actions.len(),
    ensures
        states[i] is Idle <==> i % 2 == 0,
        i % 2 == 1 ==> (actions[i - 1] matches NetAction::FetchWork(id) && states[i]
            == LoopStateData::Dispatching(id)),
    decreases i,
{
    if i > 0 {
        lemma_loop_state_parity(actions, states, i - 1);
        assert(loop_step(states[i - 1], actions[i - 1], states[i]));
    }
}

/// Exactly one report is made per fetched invocation, and it is the last
/// network action before the next fetch: in every permitted run of the
/// loop from idle, fetches and reports strictly alternate — fetches at the
/// even positions, reports at the odd ones — and each report names
/// exactly the request identifier of the fetch immediately before it.
pub proof fn lemma_one_report_per_fetch(actions: Seq<NetAction>, states: Seq<LoopStateData>)
    requires
        states.len() == actions.len() + 1,
        states[0] is Idle,
        forall|j: int| 0 <= j < actions.len() ==> loop_step(states[j], #[trigger] actions[j], states[j + 1]),
    ensures
        forall|i: int|
            0 <= i < actions.len() ==> ((#[trigger] actions[i]) is FetchWork <==> i % 2 == 0),
        forall|i: int|
            0 <= i < actions.len() && i % 2 == 1 ==> (#[trigger] actions[i]
                matches NetAction::SendReport(id) && actions[i - 1] == NetAction::FetchWork(id)),
{
    assert forall|i: int|
        0 <= i < actions.len() implies ((#[trigger] actions[i]) is FetchWork <==> i % 2 == 0) by {
        lemma_loop_state_parity(actions, states, i);
        assert(loop_step(states[i], actions[i], states[i + 1]));
    }
    assert forall|i: int|
        0 <= i < actions.len() && i % 2 == 1 implies (#[trigger] actions[i]
        matches NetAction::SendReport(id) && actions[i - 1] == NetAction::FetchWork(id)) by {
        lemma_loop_state_parity(actions, states, i);
        assert(loop_step(states[i], actions[i], states[i + 1]));
    }
}

/// The invocation loop bound to its handler capability: processes one
/// invocation fully — dispatch, classify, report — before the next fetch
/// may begin.
pub struct LambdaRuntime<Input, Output, H: Handler<Input, Output>> {
    handler: H,
    state: LoopState,
    marker: core::marker::PhantomData<(Input, Output)>,
}

impl<Input, Output, H: Handler<Input, Output>> LambdaRuntime<Input, Output, H> {
    /// The machine's current state.
    pub closed spec fn loop_state(&self) -> LoopStateData {
        self.state@
    }

    /// Whether the loop is idle: nothing fetched and not yet reported.
    pub fn is_idle(&self) -> (b: bool)
        ensures
            b == (self.loop_state() is Idle),
    {
        match self.state {
            LoopState::Idle => true,
            LoopState::Dispatching(_) => false,
        }
    }

    /// Builds the loop around its handler, idle: nothing fetched, nothing
    /// owed.
    pub fn new(handler: H) -> (r: LambdaRuntime<Input, Output, H>)
        ensures
            r.loop_state() is Idle,
    {
        LambdaRuntime { handler, state: LoopState::Idle, marker: core::marker::PhantomData }
    }

    /// Accepts one fetched invocation — the fetch transition — runs the
    /// handler on its payload, and returns the one report now owed for
    /// exactly that request identifier, or the fatal setup defect. Until
    /// `report_delivered` acknowledges the report, no further invocation
    /// can be accepted.
    pub fn process_invocation(&mut self, work: Invocation<Input>) -> (r: Result<
        Report<Output>,
        ConfigurationError,
    >)
        requires
            old(self).loop_state() is Idle,
        ensures
            loop_step(
                old(self).loop_state(),
                NetAction::FetchWork(work.request_id@),
                final(self).loop_state(),
            ),
            final(self).loop_state() == LoopStateData::Dispatching(work.request_id@),
            r matches Ok(rep) ==> rep.request_id@ == work.request_id@,
    {
        let Invocation { request_id, payload } = work;
        self.state = LoopState::Dispatching(RequestId(request_id.0.clone()));
        let outcome = self.handler.handle(&payload);
        build_report(request_id, outcome)
    }

    /// Acknowledges that the owed report was sent — the report transition:
    /// the loop is idle again and the next fetch becomes permitted.
    pub fn report_delivered(&mut self)
        requires
            old(self).loop_state() is Dispatching,
        ensures
            loop_step(
                old(self).loop_state(),
                NetAction::SendReport(old(self).loop_state()->Dispatching_0),
                final(self).loop_state(),
            ),
            final(self).loop_state() is Idle,
    {
        self.state = LoopState::Idle;
    }
}

} // verus!
