//! The lifecycle of a processing graph: which operation is valid in which
//! state, where it leads, and how a graph is released.
//!
//! The native graph is driven by the caller. A `Graph` follows it: the caller
//! asks whether an operation is in order, performs it, and reports how it
//! went. An operation out of order is refused without touching the state.

use crate::error::Error;
use vstd::prelude::*;

verus! {

/// Component type of an output unit (`auou`).
pub const TYPE_OUTPUT: u32 = 0x6175_6F75;

/// Component type of a generator unit (`augn`).
pub const TYPE_GENERATOR: u32 = 0x6175_676E;

/// Component subtype of the default output device (`def `).
pub const SUBTYPE_DEFAULT_OUTPUT: u32 = 0x6465_6620;

/// Component subtype of the audio file player (`afpl`).
pub const SUBTYPE_AUDIO_FILE_PLAYER: u32 = 0x6166_706C;

/// Component manufacturer code of the platform vendor (`appl`).
pub const MANUFACTURER_APPLE: u32 = 0x6170_706C;

/// Selects one processing unit from the host's registry of components.
#[derive(Clone, Copy, Debug, PartialEq, Eq, Structural)]
pub struct ComponentDescription {
    pub component_type: u32,
    pub component_sub_type: u32,
    pub component_manufacturer: u32,
    pub component_flags: u32,
    pub component_flags_mask: u32,
}

/// The states of a graph, in the order in which it passes through them.
#[derive(Clone, Copy, Debug, PartialEq, Eq, Structural)]
pub enum GraphState {
    Unopened,
    Opened,
    Initialized,
    Running,
    Stopped,
}

/// What can be asked of a live graph.
#[derive(Clone, Copy, Debug, PartialEq, Eq, Structural)]
pub enum GraphOp {
    AddNode,
    Open,
    ResolveUnit,
    Connect,
    Configure,
    Initialize,
    Start,
}

/// The native calls that release a graph, in the order in which they are made.
#[derive(Clone, Copy, Debug, PartialEq, Eq, Structural)]
pub enum Release {
    Stop,
    Uninitialize,
    Close,
}

/// How the release of a graph goes on after one of its calls.
#[derive(Clone, Copy, Debug, PartialEq, Eq)]
pub enum Teardown {
    /// Make this call next.
    Next(Release),
    /// All three calls succeeded: the graph is released.
    Done,
    /// A call failed. The others are not attempted, and the error is fatal.
    Failed(Error),
}

/// The place of a state in the lifecycle, from 0 for `Unopened`.
pub open spec fn rank(state: GraphState) -> nat {
    match state {
        GraphState::Unopened => 0,
        GraphState::Opened => 1,
        GraphState::Initialized => 2,
        GraphState::Running => 3,
        GraphState::Stopped => 4,
    }
}

/// Whether the operation is in order in the state. Nodes are added before
/// the graph is opened; units are resolved once it is open; nodes are
/// connected and units configured between opening and initializing; a graph
/// starts only when initialized.
pub open spec fn permitted(state: GraphState, op: GraphOp) -> bool {
    match op {
        GraphOp::AddNode => state is Unopened,
        GraphOp::Open => state is Unopened,
        GraphOp::ResolveUnit => state is Opened || state is Initialized || state is Running,
        GraphOp::Connect => state is Opened,
        GraphOp::Configure => state is Opened,
        GraphOp::Initialize => state is Opened,
        GraphOp::Start => state is Initialized,
    }
}

/// The state after the operation succeeded in a state that permits it.
pub open spec fn state_after(state: GraphState, op: GraphOp) -> GraphState {
    match op {
        GraphOp::Open => GraphState::Opened,
        GraphOp::Initialize => GraphState::Initialized,
        GraphOp::Start => GraphState::Running,
        _ => state,
    }
}

/// What is reported of an operation that the native layer answered with
/// `outcome`: out of order it is refused for want of a status code, else the
/// native outcome stands.
pub open spec fn reported(state: GraphState, op: GraphOp, outcome: Result<(), Error>) -> Result<
    (),
    Error,
> {
    if !permitted(state, op) {
        Err(Error::Unspecified)
    } else {
        outcome
    }
}

/// The state that the operation leaves: the next one where it was in order
/// and succeeded, the same one otherwise.
pub open spec fn settled(state: GraphState, op: GraphOp, outcome: Result<(), Error>) -> GraphState {
    if reported(state, op, outcome) is Ok {
        state_after(state, op)
    } else {
        state
    }
}

/// How the release goes on after the call `after` ended with `outcome`.
pub open spec fn release_next(after: Release, outcome: Result<(), Error>) -> Teardown {
    match outcome {
        Err(cause) => Teardown::Failed(Error::Teardown(cause.spec_os_status())),
        Ok(_) => match after {
            Release::Stop => Teardown::Next(Release::Uninitialize),
            Release::Uninitialize => Teardown::Next(Release::Close),
            Release::Close => Teardown::Done,
        },
    }
}

/// The description of a component with both of its flag fields zero.
pub fn component_description(
    component_type: u32,
    component_sub_type: u32,
    manufacturer: u32,
) -> (description: ComponentDescription)
    ensures
        description == (ComponentDescription {
            component_type,
            component_sub_type,
            component_manufacturer: manufacturer,
            component_flags: 0,
            component_flags_mask: 0,
        }),
{
    ComponentDescription {
        component_type,
        component_sub_type,
        component_manufacturer: manufacturer,
        component_flags: 0,
        component_flags_mask: 0,
    }
}

/// The description of the output unit that plays on the default device.
pub fn output_sink() -> (description: ComponentDescription)
    ensures
        description == (ComponentDescription {
            component_type: TYPE_OUTPUT,
            component_sub_type: SUBTYPE_DEFAULT_OUTPUT,
            component_manufacturer: MANUFACTURER_APPLE,
            component_flags: 0,
            component_flags_mask: 0,
        }),
{
    component_description(TYPE_OUTPUT, SUBTYPE_DEFAULT_OUTPUT, MANUFACTURER_APPLE)
}

/// The description of the generator unit that reads an audio file.
pub fn file_player() -> (description: ComponentDescription)
    ensures
        description == (ComponentDescription {
            component_type: TYPE_GENERATOR,
            component_sub_type: SUBTYPE_AUDIO_FILE_PLAYER,
            component_manufacturer: MANUFACTURER_APPLE,
            component_flags: 0,
            component_flags_mask: 0,
        }),
{
    component_description(TYPE_GENERATOR, SUBTYPE_AUDIO_FILE_PLAYER, MANUFACTURER_APPLE)
}

/// The first call of a release.
pub fn teardown_begin() -> (first: Release)
    ensures
        first == Release::Stop,
{
    Release::Stop
}

/// Decides how to go on after one call of a release.
pub fn teardown_next(after: Release, outcome: Result<(), Error>) -> (next: Teardown)
    ensures
        next == release_next(after, outcome),
{
    match outcome {
        Err(cause) => Teardown::Failed(Error::during_teardown(cause)),
        Ok(_) => match after {
            Release::Stop => Teardown::Next(Release::Uninitialize),
            Release::Uninitialize => Teardown::Next(Release::Close),
            Release::Close => Teardown::Done,
        },
    }
}

/// The lifecycle state of one native graph.
#[derive(Clone, Copy, Debug)]
pub struct Graph {
    state: GraphState,
}

impl View for Graph {
    type V = GraphState;

    closed spec fn view(&self) -> GraphState {
        self.state
    }
}

impl Graph {
    /// A graph as the native layer creates it: not yet opened.
    pub fn new() -> (graph: Graph)
        ensures
            graph@ == GraphState::Unopened,
    {
        Graph { state: GraphState::Unopened }
    }

    pub fn state(&self) -> (state: GraphState)
        ensures
            state == self@,
    {
        self.state
    }

    /// Whether the operation is in order now.
    pub fn permits(&self, op: GraphOp) -> (allowed: bool)
        ensures
            allowed == permitted(self@, op),
    {
        match op {
            GraphOp::AddNode | GraphOp::Open => matches!(self.state, GraphState::Unopened),
            GraphOp::ResolveUnit => matches!(
                self.state,
                GraphState::Opened | GraphState::Initialized | GraphState::Running
            ),
            GraphOp::Connect | GraphOp::Configure | GraphOp::Initialize => matches!(
                self.state,
                GraphState::Opened
            ),
            GraphOp::Start => matches!(self.state, GraphState::Initialized),
        }
    }

    /// To be asked before the native call is made: an operation out of order
    /// is an error, and the call must not be made.
    pub fn check(&self, op: GraphOp) -> (result: Result<(), Error>)
        ensures
            result == reported(self@, op, Ok(())),
    {
        if self.permits(op) {
            Ok(())
        } else {
            Err(Error::Unspecified)
        }
    }

    /// Records how the operation went. The state moves on only where the
    /// operation was in order and succeeded.
    pub fn settle(&mut self, op: GraphOp, outcome: Result<(), Error>) -> (result: Result<
        (),
        Error,
    >)
        ensures
            result == reported(old(self)@, op, outcome),
            final(self)@ == settled(old(self)@, op, outcome),
    {
        if !self.permits(op) {
            return Err(Error::Unspecified);
        }
        if outcome.is_ok() {
            match op {
                GraphOp::Open => {
                    self.state = GraphState::Opened;
                },
                GraphOp::Initialize => {
                    self.state = GraphState::Initialized;
                },
                GraphOp::Start => {
                    self.state = GraphState::Running;
                },
                _ => {},
            }
        }
        outcome
    }

    /// Records that the graph was released, whatever state it was in.
    pub fn retire(&mut self)
        ensures
            final(self)@ == GraphState::Stopped,
    {
        self.state = GraphState::Stopped;
    }
}

/// An operation out of order is reported as an error and leaves the state as
/// it was, whatever the native layer answered.
pub proof fn lemma_order_enforced(state: GraphState, op: GraphOp, outcome: Result<(), Error>)
    requires
        !permitted(state, op),
    ensures
        reported(state, op, outcome) == Err::<(), Error>(Error::Unspecified),
        settled(state, op, outcome) == state,
{
}

/// Connecting is out of order before the graph is open, and starting is out
/// of order unless the graph is initialized: either attempt is reported as an
/// error and leaves the state as it was.
pub proof fn lemma_connect_and_start_wait_their_turn(state: GraphState, outcome: Result<(), Error>)
    ensures
        state is Unopened ==> reported(state, GraphOp::Connect, outcome) is Err && settled(
            state,
            GraphOp::Connect,
            outcome,
        ) == state,
        !(state is Initialized) ==> reported(state, GraphOp::Start, outcome) is Err && settled(
            state,
            GraphOp::Start,
            outcome,
        ) == state,
{
}

/// A failed operation leaves the state as it was.
pub proof fn lemma_failure_keeps_state(state: GraphState, op: GraphOp, outcome: Result<(), Error>)
    requires
        outcome is Err,
    ensures
        reported(state, op, outcome) is Err,
        settled(state, op, outcome) == state,
{
}

/// No state is skipped and none comes back: an operation leaves the graph
/// where it was or takes it one state further.
pub proof fn lemma_one_state_at_a_time(state: GraphState, op: GraphOp, outcome: Result<(), Error>)
    ensures
        rank(settled(state, op, outcome)) == rank(state) || rank(settled(state, op, outcome))
            == rank(state) + 1,
        !(settled(state, op, outcome) is Stopped) || state is Stopped,
{
}

/// Nothing is in order once a graph is stopped.
pub proof fn lemma_stopped_is_final(op: GraphOp)
    ensures
        !permitted(GraphState::Stopped, op),
{
}

} // verus!
