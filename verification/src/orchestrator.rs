//! Run orchestration: fresh run identifiers, the per-run state machine,
//! and the channel names of the events a run publishes.

use vstd::prelude::*;

use rand::Rng;
use rand::seq::SliceRandom;

verus! {

/// Relies on `uuid::Uuid::new_v4` and its `Display` form: a fresh
/// version-4 identifier rendered hyphenated, which is 36 characters.
#[verifier::external_body]
fn run_id_string() -> (r: String)
    ensures
        r@.len() == 36,
{
    uuid::Uuid::new_v4().to_string()
}

/// Relies on `rand::Rng::gen` via `rand::thread_rng`: a random 16-bit
/// value; nothing is promised of it.
#[verifier::external_body]
fn random_u16_raw() -> u16 {
    rand::thread_rng().gen()
}

/// Relies on `rand::seq::SliceRandom::shuffle`: an in-place permutation
/// by swaps, so the elements are kept, only their order changes.
#[verifier::external_body]
pub(crate) fn shuffle_slice<T>(v: &mut Vec<T>)
    ensures
        final(v)@.to_multiset() == old(v)@.to_multiset(),
{
    v.shuffle(&mut rand::thread_rng());
}

/// A fresh run identifier: 36 characters, one per run.
pub fn fresh_run_id() -> (r: String)
    ensures
        r@.len() == 36,
{
    run_id_string()
}

/// A random 16-bit echo identifier for an outgoing probe.
pub fn random_echo_id() -> u16 {
    random_u16_raw()
}

/// Lifecycle state of one probe run.
#[derive(Clone, Copy, Debug, PartialEq, Eq, Structural)]
pub enum RunState {
    Created,
    Running,
    Completed,
    Failed,
    Cancelled,
}

/// The transitions a run may take: it starts once, and ends once, in
/// exactly one of completion, failure or cancellation.
pub open spec fn run_transition_allowed(from: RunState, to: RunState) -> bool {
    ||| (from == RunState::Created && to == RunState::Running)
    ||| (from == RunState::Running && to == RunState::Completed)
    ||| (from == RunState::Running && to == RunState::Failed)
    ||| (from == RunState::Running && to == RunState::Cancelled)
}

impl RunState {
    /// A run begins in `Created`.
    pub fn new() -> (r: RunState)
        ensures
            r == RunState::Created,
    {
        RunState::Created
    }

    /// True when the run can take no further transition.
    pub fn is_terminal(&self) -> (r: bool)
        ensures
            r == (*self == RunState::Completed || *self == RunState::Failed || *self
                == RunState::Cancelled),
    {
        matches!(self, RunState::Completed | RunState::Failed | RunState::Cancelled)
    }

    /// Start the run.
    pub fn start(&mut self)
        requires
            *old(self) == RunState::Created,
        ensures
            *final(self) == RunState::Running,
            run_transition_allowed(*old(self), *final(self)),
    {
        *self = RunState::Running;
    }

    /// End the run successfully.
    pub fn complete(&mut self)
        requires
            *old(self) == RunState::Running,
        ensures
            *final(self) == RunState::Completed,
            run_transition_allowed(*old(self), *final(self)),
    {
        *self = RunState::Completed;
    }

    /// End the run on an error.
    pub fn fail(&mut self)
        requires
            *old(self) == RunState::Running,
        ensures
            *final(self) == RunState::Failed,
            run_transition_allowed(*old(self), *final(self)),
    {
        *self = RunState::Failed;
    }

    /// End the run on external cancellation.
    pub fn cancel(&mut self)
        requires
            *old(self) == RunState::Running,
        ensures
            *final(self) == RunState::Cancelled,
            run_transition_allowed(*old(self), *final(self)),
    {
        *self = RunState::Cancelled;
    }
}

/// The operations that publish events.
#[derive(Clone, Copy, Debug, PartialEq, Eq, Structural)]
pub enum ProbeOp {
    Ping,
    PortScan,
    HostScan,
    Traceroute,
    NeighborScan,
}

/// Phase of a run an event reports.
#[derive(Clone, Copy, Debug, PartialEq, Eq, Structural)]
pub enum RunPhase {
    Start,
    Progress,
    Done,
    Error,
}

/// The channel an event is published on.
pub open spec fn event_channel_spec(op: ProbeOp, phase: RunPhase) -> Seq<char> {
    let prefix = match op {
        ProbeOp::Ping => "ping"@,
        ProbeOp::PortScan => "portscan"@,
        ProbeOp::HostScan => "hostscan"@,
        ProbeOp::Traceroute => "traceroute"@,
        ProbeOp::NeighborScan => "neighborscan"@,
    };
    let suffix = match phase {
        RunPhase::Start => ":start"@,
        RunPhase::Progress => ":progress"@,
        RunPhase::Done => ":done"@,
        RunPhase::Error => ":error"@,
    };
    prefix + suffix
}

/// Name the channel an event is published on: the operation's name, a
/// colon, and the phase.
pub fn event_channel(op: ProbeOp, phase: RunPhase) -> (r: String)
    ensures
        r@ == event_channel_spec(op, phase),
{
    let mut s = match op {
        ProbeOp::Ping => String::from_str("ping"),
        ProbeOp::PortScan => String::from_str("portscan"),
        ProbeOp::HostScan => String::from_str("hostscan"),
        ProbeOp::Traceroute => String::from_str("traceroute"),
        ProbeOp::NeighborScan => String::from_str("neighborscan"),
    };
    match phase {
        RunPhase::Start => s.append(":start"),
        RunPhase::Progress => s.append(":progress"),
        RunPhase::Done => s.append(":done"),
        RunPhase::Error => s.append(":error"),
    }
    s
}

} // verus!
