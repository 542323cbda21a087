//! One playback session, step by step.
//!
//! A session names the step to perform next; the caller performs it against
//! the native layer and reports how it went. Forward steps follow a fixed
//! plan. The first failure ends the plan: if the creation of the graph had
//! been attempted by then, the graph is released before the session ends.
//! A failure while releasing ends the session at once and is fatal.

use crate::error::Error;
use crate::graph::{
    permitted, release_next, state_after, teardown_next, Graph, GraphOp, GraphState, Release,
    Teardown,
};
use vstd::prelude::*;

verus! {

/// One step of a session: something for the caller to do.
#[derive(Clone, Copy, Debug, PartialEq, Eq, Structural)]
pub enum Step {
    /// Open the source file for reading.
    OpenSource,
    /// Read the stream format of the source.
    ReadFormat,
    /// Read the number of packets in the source.
    ReadPacketCount,
    /// Create the graph.
    CreateGraph,
    /// Add the node of the output device.
    AddOutputNode,
    /// Add the node of the file player.
    AddGeneratorNode,
    /// Open the graph.
    OpenGraph,
    /// Resolve the file player's node to its unit.
    ResolveGenerator,
    /// Give the unit's format the channel count of the source.
    ConfigureChannels,
    /// Give the unit's format the sample rate of the source.
    ConfigureRate,
    /// Connect the file player's output to the output device's input.
    ConnectNodes,
    /// Tell the file player which source to read.
    BindSource,
    /// Schedule the whole source as the region to play.
    ScheduleRegion,
    /// Set the number of frames to pre-roll.
    Prime,
    /// Set the time at which the file player starts.
    SetStartTime,
    /// Initialize the graph.
    InitializeGraph,
    /// Let the file player settle for a moment.
    Settle,
    /// Start the graph.
    StartGraph,
    /// Wait for as long as the source plays.
    Wait,
    /// Make this call of the graph's release.
    Release(Release),
}

/// The number of forward steps in the plan.
pub const FORWARD_STEPS: u8 = 19;

/// The number of calls that release a graph.
pub const RELEASE_CALLS: u8 = 3;

/// The number of forward steps that come before the creation of the graph.
pub const STEPS_BEFORE_GRAPH: u8 = 3;

/// How long to let the file player settle after the graph was initialized,
/// in microseconds, unless the caller chooses otherwise. The pause works
/// around a race in the file player at startup; it guarantees nothing.
pub const DEFAULT_SETTLE_MICROS: u32 = 10_000;

/// The forward plan: the step at each place, in the order of performance.
pub open spec fn forward_step(place: nat) -> Step {
    if place == 0 {
        Step::OpenSource
    } else if place == 1 {
        Step::ReadFormat
    } else if place == 2 {
        Step::ReadPacketCount
    } else if place == 3 {
        Step::CreateGraph
    } else if place == 4 {
        Step::AddOutputNode
    } else if place == 5 {
        Step::AddGeneratorNode
    } else if place == 6 {
        Step::OpenGraph
    } else if place == 7 {
        Step::ResolveGenerator
    } else if place == 8 {
        Step::ConfigureChannels
    } else if place == 9 {
        Step::ConfigureRate
    } else if place == 10 {
        Step::ConnectNodes
    } else if place == 11 {
        Step::BindSource
    } else if place == 12 {
        Step::ScheduleRegion
    } else if place == 13 {
        Step::Prime
    } else if place == 14 {
        Step::SetStartTime
    } else if place == 15 {
        Step::InitializeGraph
    } else if place == 16 {
        Step::Settle
    } else if place == 17 {
        Step::StartGraph
    } else {
        Step::Wait
    }
}

/// The calls of a release, in the order in which they are made.
pub open spec fn release_call(place: nat) -> Release {
    if place == 0 {
        Release::Stop
    } else if place == 1 {
        Release::Uninitialize
    } else {
        Release::Close
    }
}

/// What a step asks of the graph, if it asks anything of a live graph.
pub open spec fn graph_op(step: Step) -> Option<GraphOp> {
    match step {
        Step::AddOutputNode | Step::AddGeneratorNode => Some(GraphOp::AddNode),
        Step::OpenGraph => Some(GraphOp::Open),
        Step::ResolveGenerator => Some(GraphOp::ResolveUnit),
        Step::ConfigureChannels
        | Step::ConfigureRate
        | Step::BindSource
        | Step::ScheduleRegion
        | Step::Prime
        | Step::SetStartTime => Some(GraphOp::Configure),
        Step::ConnectNodes => Some(GraphOp::Connect),
        Step::InitializeGraph => Some(GraphOp::Initialize),
        Step::StartGraph => Some(GraphOp::Start),
        _ => None,
    }
}

/// The state of the graph once the first `done` forward steps have succeeded,
/// or `None` while the graph has not been created.
pub open spec fn graph_after(done: nat) -> Option<GraphState> {
    if done <= 3 {
        None
    } else if done <= 6 {
        Some(GraphState::Unopened)
    } else if done <= 15 {
        Some(GraphState::Opened)
    } else if done <= 17 {
        Some(GraphState::Initialized)
    } else {
        Some(GraphState::Running)
    }
}

/// A session as contracts see it.
pub struct SessionView {
    /// How many forward steps have been performed, a failed one included.
    pub forward: nat,
    /// How many calls of the release have been made, a failed one included.
    pub release: nat,
    /// The error of the forward step that failed, if one did.
    pub failure: Option<Error>,
    /// The error of the release call that failed, if one did.
    pub fatal: Option<Error>,
    /// The state of the graph, if it was created.
    pub graph: Option<GraphState>,
}

/// The session before its first step.
pub open spec fn initial() -> SessionView {
    SessionView { forward: 0, release: 0, failure: None, fatal: None, graph: None }
}

/// How many forward steps have succeeded.
pub open spec fn succeeded(view: SessionView) -> nat {
    if view.failure is Some && view.forward > 0 {
        (view.forward - 1) as nat
    } else {
        view.forward
    }
}

/// Whether the session has ended: a release call failed, or the release is
/// complete, or a step failed before the creation of the graph was attempted.
pub open spec fn finished(view: SessionView) -> bool {
    view.fatal is Some || view.release == 3 || (view.failure is Some && view.forward <= 3)
}

/// The state that the graph of a session is in.
pub open spec fn graph_of(view: SessionView) -> Option<GraphState> {
    if graph_after(succeeded(view)) is Some && view.release == 3 && view.fatal is None {
        Some(GraphState::Stopped)
    } else {
        graph_after(succeeded(view))
    }
}

/// What holds of every session: the release begins only after the forward
/// steps have ended at or after the creation of the graph, and the graph is in
/// the state that the steps performed have brought it to.
pub open spec fn well_formed(view: SessionView) -> bool {
    &&& view.forward <= 19
    &&& view.release <= 3
    &&& (view.failure is Some ==> view.forward >= 1)
    &&& (view.release > 0 ==> view.forward >= 4 && (view.failure is Some || view.forward == 19))
    &&& (view.fatal is Some ==> view.release >= 1)
    &&& view.graph == graph_of(view)
}

/// The step to perform next, or `None` when the session has ended.
pub open spec fn current(view: SessionView) -> Option<Step> {
    if finished(view) {
        None
    } else if view.failure is None && view.forward < 19 {
        Some(forward_step(view.forward))
    } else {
        Some(Step::Release(release_call(view.release)))
    }
}

/// The session after its current step ended with `outcome`. A session that
/// has ended stays as it is.
pub open spec fn advanced(view: SessionView, outcome: Result<(), Error>) -> SessionView {
    match current(view) {
        None => view,
        Some(Step::Release(call)) => {
            let fatal = match release_next(call, outcome) {
                Teardown::Failed(error) => Some(error),
                _ => None,
            };
            let next = SessionView { release: view.release + 1, fatal, ..view };
            SessionView { graph: graph_of(next), ..next }
        },
        Some(_) => {
            let failure = match outcome {
                Err(error) => Some(error),
                Ok(_) => None,
            };
            let next = SessionView { forward: view.forward + 1, failure, ..view };
            SessionView { graph: graph_of(next), ..next }
        },
    }
}

/// How the session ended, or `None` while it has not. A failed release
/// outweighs the failure that led to the release.
pub open spec fn verdict(view: SessionView) -> Option<Result<(), Error>> {
    if !finished(view) {
        None
    } else if view.fatal is Some {
        Some(Err(view.fatal->Some_0))
    } else if view.failure is Some {
        Some(Err(view.failure->Some_0))
    } else {
        Some(Ok(()))
    }
}

/// The steps performed so far, in the order of their performance.
pub open spec fn performed(view: SessionView) -> Seq<Step> {
    Seq::new(view.forward, |place: int| forward_step(place as nat)) + Seq::new(
        view.release,
        |place: int| Step::Release(release_call(place as nat)),
    )
}

/// The session after its steps ended with the given outcomes, one after the
/// other.
pub open spec fn run(view: SessionView, outcomes: Seq<Result<(), Error>>) -> SessionView
    decreases outcomes.len(),
{
    if outcomes.len() == 0 {
        view
    } else {
        run(advanced(view, outcomes.first()), outcomes.drop_first())
    }
}

/// The forward step at a place of the plan.
pub fn forward_step_at(place: u8) -> (step: Step)
    requires
        place < FORWARD_STEPS,
    ensures
        step == forward_step(place as nat),
{
    match place {
        0 => Step::OpenSource,
        1 => Step::ReadFormat,
        2 => Step::ReadPacketCount,
        3 => Step::CreateGraph,
        4 => Step::AddOutputNode,
        5 => Step::AddGeneratorNode,
        6 => Step::OpenGraph,
        7 => Step::ResolveGenerator,
        8 => Step::ConfigureChannels,
        9 => Step::ConfigureRate,
        10 => Step::ConnectNodes,
        11 => Step::BindSource,
        12 => Step::ScheduleRegion,
        13 => Step::Prime,
        14 => Step::SetStartTime,
        15 => Step::InitializeGraph,
        16 => Step::Settle,
        17 => Step::StartGraph,
        _ => Step::Wait,
    }
}

/// The call at a place of the release.
pub fn release_call_at(place: u8) -> (call: Release)
    requires
        place < RELEASE_CALLS,
    ensures
        call == release_call(place as nat),
{
    match place {
        0 => Release::Stop,
        1 => Release::Uninitialize,
        _ => Release::Close,
    }
}

/// What a step asks of the graph.
pub fn graph_op_of(step: Step) -> (op: Option<GraphOp>)
    ensures
        op == graph_op(step),
{
    match step {
        Step::AddOutputNode | Step::AddGeneratorNode => Some(GraphOp::AddNode),
        Step::OpenGraph => Some(GraphOp::Open),
        Step::ResolveGenerator => Some(GraphOp::ResolveUnit),
        Step::ConfigureChannels
        | Step::ConfigureRate
        | Step::BindSource
        | Step::ScheduleRegion
        | Step::Prime
        | Step::SetStartTime => Some(GraphOp::Configure),
        Step::ConnectNodes => Some(GraphOp::Connect),
        Step::InitializeGraph => Some(GraphOp::Initialize),
        Step::StartGraph => Some(GraphOp::Start),
        _ => None,
    }
}

/// The plan keeps the order of the graph's lifecycle: whatever a forward
/// step asks of the graph is in order in the state that the steps before it
/// leave, and takes the graph to the state that the plan expects next.
pub proof fn lemma_plan_in_order(place: nat)
    requires
        place < 19,
    ensures
        graph_op(forward_step(place)) is Some ==> graph_after(place) is Some && permitted(
            graph_after(place)->Some_0,
            graph_op(forward_step(place))->Some_0,
        ) && graph_after(place + 1) == Some(
            state_after(graph_after(place)->Some_0, graph_op(forward_step(place))->Some_0),
        ),
        graph_op(forward_step(place)) is None && place != 3 ==> graph_after(place + 1)
            == graph_after(place),
        place == 3 ==> graph_after(place) is None && graph_after(place + 1) == Some(
            GraphState::Unopened,
        ),
{
}

/// One playback session.
#[derive(Clone, Copy, Debug)]
pub struct Session {
    forward: u8,
    release: u8,
    failure: Option<Error>,
    fatal: Option<Error>,
    graph: Option<Graph>,
}

impl View for Session {
    type V = SessionView;

    closed spec fn view(&self) -> SessionView {
        SessionView {
            forward: self.forward as nat,
            release: self.release as nat,
            failure: self.failure,
            fatal: self.fatal,
            graph: match self.graph {
                Some(graph) => Some(graph@),
                None => None,
            },
        }
    }
}

impl Session {
    /// Whether the session is one that `new` and `advance` can have made.
    pub open spec fn wf(&self) -> bool {
        well_formed(self@)
    }

    /// A session before its first step.
    pub fn new() -> (session: Session)
        ensures
            session.wf(),
            session@ == initial(),
    {
        Session { forward: 0, release: 0, failure: None, fatal: None, graph: None }
    }

    /// Whether the session has ended.
    pub fn is_finished(&self) -> (ended: bool)
        requires
            self.wf(),
        ensures
            ended == finished(self@),
    {
        self.fatal.is_some() || self.release == RELEASE_CALLS || (self.failure.is_some()
            && self.forward <= STEPS_BEFORE_GRAPH)
    }

    /// The step to perform next, or `None` when the session has ended.
    pub fn next_step(&self) -> (step: Option<Step>)
        requires
            self.wf(),
        ensures
            step == current(self@),
    {
        if self.is_finished() {
            None
        } else if self.failure.is_none() && self.forward < FORWARD_STEPS {
            Some(forward_step_at(self.forward))
        } else {
            Some(Step::Release(release_call_at(self.release)))
        }
    }

    /// Records how the current step went and moves to the next one.
    pub fn advance(&mut self, outcome: Result<(), Error>)
        requires
            old(self).wf(),
        ensures
            final(self).wf(),
            final(self)@ == advanced(old(self)@, outcome),
    {
        match self.next_step() {
            None => {},
            Some(Step::Release(call)) => {
                self.release = self.release + 1;
                match teardown_next(call, outcome) {
                    Teardown::Failed(error) => {
                        self.fatal = Some(error);
                    },
                    Teardown::Done => {
                        match self.graph {
                            Some(graph) => {
                                let mut released = graph;
                                released.retire();
                                self.graph = Some(released);
                            },
                            None => {},
                        }
                    },
                    Teardown::Next(_) => {},
                }
            },
            Some(step) => {
                proof {
                    lemma_plan_in_order(self.forward as nat);
                }
                self.forward = self.forward + 1;
                match outcome {
                    Err(error) => {
                        self.failure = Some(error);
                    },
                    Ok(_) => {
                        match step {
                            Step::CreateGraph => {
                                self.graph = Some(Graph::new());
                            },
                            _ => {
                                match (graph_op_of(step), self.graph) {
                                    (Some(op), Some(graph)) => {
                                        let mut moved = graph;
                                        let _ = moved.settle(op, Ok(()));
                                        self.graph = Some(moved);
                                    },
                                    _ => {},
                                }
                            },
                        }
                    },
                }
            },
        }
    }

    /// How the session ended, or `None` while it has not.
    pub fn result(&self) -> (ended: Option<Result<(), Error>>)
        requires
            self.wf(),
        ensures
            ended == verdict(self@),
    {
        if !self.is_finished() {
            None
        } else {
            match (self.fatal, self.failure) {
                (Some(error), _) => Some(Err(error)),
                (None, Some(error)) => Some(Err(error)),
                (None, None) => Some(Ok(())),
            }
        }
    }

    /// The state of the graph, or `None` if no graph was created.
    pub fn graph_state(&self) -> (state: Option<GraphState>)
        requires
            self.wf(),
        ensures
            state == self@.graph,
            state == graph_of(self@),
    {
        match self.graph {
            Some(graph) => Some(graph.state()),
            None => None,
        }
    }

    /// The steps performed so far, in the order of their performance.
    pub fn steps_performed(&self) -> (steps: Vec<Step>)
        requires
            self.wf(),
        ensures
            steps@ == performed(self@),
    {
        let mut steps: Vec<Step> = Vec::new();
        let mut place: u8 = 0;
        while place < self.forward
            invariant
                self.wf(),
                place <= self.forward,
                steps@ == Seq::new(place as nat, |at: int| forward_step(at as nat)),
            decreases self.forward - place,
        {
            steps.push(forward_step_at(place));
            place = place + 1;
            assert(steps@ =~= Seq::new(place as nat, |at: int| forward_step(at as nat)));
        }
        let mut call: u8 = 0;
        while call < self.release
            invariant
                self.wf(),
                call <= self.release,
                steps@ == Seq::new(self.forward as nat, |at: int| forward_step(at as nat))
                    + Seq::new(call as nat, |at: int| Step::Release(release_call(at as nat))),
            decreases self.release - call,
        {
            steps.push(Step::Release(release_call_at(call)));
            call = call + 1;
            assert(steps@ =~= Seq::new(self.forward as nat, |at: int| forward_step(at as nat))
                + Seq::new(call as nat, |at: int| Step::Release(release_call(at as nat))));
        }
        steps
    }
}

/// Whether a step is a call of the graph's release.
pub open spec fn is_release(step: Step) -> bool {
    step is Release
}

/// Every step leaves a session well formed.
pub proof fn lemma_advance_well_formed(view: SessionView, outcome: Result<(), Error>)
    requires
        well_formed(view),
    ensures
        well_formed(advanced(view, outcome)),
{
}

/// The steps performed are the history of the session: each step adds the
/// step that was current to it and nothing else, and a session that has
/// ended performs nothing more.
pub proof fn lemma_advance_performs_current(view: SessionView, outcome: Result<(), Error>)
    requires
        well_formed(view),
    ensures
        current(view) is Some ==> performed(advanced(view, outcome)) == performed(view).push(
            current(view)->Some_0,
        ),
        current(view) is None ==> advanced(view, outcome) == view,
{
    if current(view) is Some {
        assert(performed(advanced(view, outcome)) =~= performed(view).push(current(view)->Some_0));
    }
}

/// Whatever the native layer answers, and however often it is asked, the
/// session stays well formed.
pub proof fn lemma_run_well_formed(view: SessionView, outcomes: Seq<Result<(), Error>>)
    requires
        well_formed(view),
    ensures
        well_formed(run(view, outcomes)),
    decreases outcomes.len(),
{
    if outcomes.len() > 0 {
        lemma_advance_well_formed(view, outcomes.first());
        lemma_run_well_formed(advanced(view, outcomes.first()), outcomes.drop_first());
    }
}

/// A session in which the creation of the graph was attempted and whose
/// release did not fail ends only after the three calls of the release were
/// made: its last three steps are stop, uninitialize and close, in this order,
/// and no step before them is a call of the release. So each of the three was
/// made exactly once before the session gives its result, whichever forward
/// step failed, or none.
pub proof fn lemma_release_always_runs(view: SessionView)
    requires
        well_formed(view),
        finished(view),
        view.forward >= 4,
        view.fatal is None,
    ensures
        performed(view).len() == view.forward + 3,
        performed(view)[view.forward as int] == Step::Release(Release::Stop),
        performed(view)[view.forward as int + 1] == Step::Release(Release::Uninitialize),
        performed(view)[view.forward as int + 2] == Step::Release(Release::Close),
        forall|place: int| 0 <= place < view.forward ==> !is_release(#[trigger] performed(view)[place]),
        performed(view)[3] == Step::CreateGraph,
        verdict(view) == Some(
            match view.failure {
                Some(error) => Err::<(), Error>(error),
                None => Ok::<(), Error>(()),
            },
        ),
        view.graph == Some(GraphState::Stopped) || (view.graph is None && view.failure is Some
            && view.forward == 4),
{
}

/// At every moment of every session the calls of the release that were made
/// are the first of stop, uninitialize and close, each made once, and all of
/// them after every forward step.
pub proof fn lemma_release_in_order(view: SessionView)
    requires
        well_formed(view),
    ensures
        performed(view).len() == view.forward + view.release,
        forall|place: int|
            0 <= place < performed(view).len() ==> (is_release(#[trigger] performed(view)[place])
                <==> place >= view.forward),
        forall|place: int|
            view.forward <= place < performed(view).len() ==> #[trigger] performed(view)[place]
                == Step::Release(release_call((place - view.forward) as nat)),
{
}

/// Where the session ends before the creation of the graph was attempted, no
/// call of the release is ever made and no graph exists: the failure of the
/// step is the result.
pub proof fn lemma_no_graph_no_release(view: SessionView)
    requires
        well_formed(view),
        view.forward <= 3,
    ensures
        view.release == 0,
        view.graph is None,
        forall|place: int|
            0 <= place < performed(view).len() ==> !is_release(#[trigger] performed(view)[place])
                && performed(view)[place] != Step::CreateGraph,
        finished(view) ==> view.failure is Some && verdict(view) == Some(
            Err::<(), Error>(view.failure->Some_0),
        ),
{
}

/// After a forward step has failed no forward step is performed any more:
/// what follows is the release, or nothing. The failed step is the last
/// forward step of the history.
pub proof fn lemma_failure_ends_forward(view: SessionView, outcome: Result<(), Error>)
    requires
        well_formed(view),
        view.failure is Some,
    ensures
        advanced(view, outcome).forward == view.forward,
        advanced(view, outcome).failure == view.failure,
        current(view) is Some ==> is_release(current(view)->Some_0),
        forall|outcomes: Seq<Result<(), Error>>| #[trigger]
            run(view, outcomes).forward == view.forward,
{
    assert forall|outcomes: Seq<Result<(), Error>>| #[trigger]
        run(view, outcomes).forward == view.forward by {
        lemma_run_after_failure(view, outcomes);
    }
}

/// Running on after a failed forward step keeps the number of forward steps
/// and the failure.
proof fn lemma_run_after_failure(view: SessionView, outcomes: Seq<Result<(), Error>>)
    requires
        well_formed(view),
        view.failure is Some,
    ensures
        run(view, outcomes).forward == view.forward,
        run(view, outcomes).failure == view.failure,
    decreases outcomes.len(),
{
    if outcomes.len() > 0 {
        lemma_advance_well_formed(view, outcomes.first());
        lemma_run_after_failure(advanced(view, outcomes.first()), outcomes.drop_first());
    }
}

/// A forward step that fails at or after the creation of the graph is
/// followed by the first call of the release, and the graph is never started
/// unless every step before the start succeeded.
pub proof fn lemma_failure_leads_to_release(view: SessionView, error: Error)
    requires
        well_formed(view),
        current(view) is Some,
        !is_release(current(view)->Some_0),
    ensures
        view.forward >= 3 ==> current(advanced(view, Err(error))) == Some(
            Step::Release(Release::Stop),
        ),
        view.forward < 3 ==> current(advanced(view, Err(error))) is None && verdict(
            advanced(view, Err(error)),
        ) == Some(Err::<(), Error>(error)),
        advanced(view, Err(error)).failure == Some(error),
        view.forward < 17 ==> forall|place: int|
            0 <= place < performed(advanced(view, Err(error))).len() ==> #[trigger] performed(
                advanced(view, Err(error)),
            )[place] != Step::StartGraph,
{
}

/// A release call that fails ends the session at once, with a fatal error
/// that keeps the status code of the call; no further call is made.
pub proof fn lemma_release_failure_is_fatal(view: SessionView, cause: Error)
    requires
        well_formed(view),
        current(view) is Some,
        is_release(current(view)->Some_0),
    ensures
        finished(advanced(view, Err(cause))),
        verdict(advanced(view, Err(cause))) == Some(
            Err::<(), Error>(Error::Teardown(cause.spec_os_status())),
        ),
        advanced(view, Err(cause)).release == view.release + 1,
{
}

} // verus!
