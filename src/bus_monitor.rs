//! The lifecycle driver: it starts the pipeline, reacts to the messages of
//! its bus one at a time, and decides when and how the run ends.
use vstd::prelude::*;
use crate::pipeline::{check_stages, first_missing_at, stage_order, MissingElement, StageKind, STAGE_COUNT};

verus! {

/// The lifecycle states of a pipeline or a stage.
#[derive(Clone, Copy, Debug, PartialEq, Eq, Structural)]
pub enum PipelineState {
    VoidPending,
    Null,
    Ready,
    Paused,
    Playing,
}

/// An error reported on the bus: the stage it came from, its text, and any
/// debugging detail.
pub struct ErrorMessage {
    pub src: String,
    pub error: String,
    pub debug: Option<String>,
}

/// A state transition of some stage, reported for diagnostics.
pub struct StateChange {
    pub src: Option<String>,
    pub old: PipelineState,
    pub current: PipelineState,
    pub pending: PipelineState,
}

/// A message read from the bus.
pub enum BusMessage {
    Eos,
    Error(ErrorMessage),
    StateChanged(StateChange),
    Other,
}

/// Why a run failed.
pub enum RunError {
    MissingElement(MissingElement),
    Message(ErrorMessage),
}

/// What the driver asks of its caller after a message.
pub enum Reaction {
    /// Keep reading the bus.
    Continue,
    /// Show this transition, then keep reading.
    Report(StateChange),
    /// Bring the pipeline to `Null`, then end the run with this outcome.
    Stop(Result<(), ErrorMessage>),
}

/// Where the driver stands.
#[derive(Clone, Copy, Debug, PartialEq, Eq, Structural)]
pub enum RunPhase {
    Idle,
    Running,
    Finished,
    Failed,
}

/// Whether a message ends the run.
pub open spec fn is_terminal(m: BusMessage) -> bool {
    m is Eos || m is Error
}

/// How a run ends on a stream of bus messages: at the first end-of-stream
/// cleanly, at the first error with that error, and cleanly where the bus
/// runs dry first.
pub open spec fn bus_outcome(msgs: Seq<BusMessage>) -> Result<(), ErrorMessage>
    decreases msgs.len(),
{
    if msgs.len() == 0 {
        Ok(())
    } else {
        match msgs[0] {
            BusMessage::Eos => Ok(()),
            BusMessage::Error(e) => Err(e),
            _ => bus_outcome(msgs.subrange(1, msgs.len() as int)),
        }
    }
}

/// How many messages the run reads: up to and including the first one that
/// ends it.
pub open spec fn messages_read(msgs: Seq<BusMessage>) -> nat
    decreases msgs.len(),
{
    if msgs.len() == 0 {
        0
    } else if is_terminal(msgs[0]) {
        1
    } else {
        1 + messages_read(msgs.subrange(1, msgs.len() as int))
    }
}

/// An error on the bus, with nothing before it that ends the run, ends the
/// run with that very error (and so with the stage it came from), and no
/// message after it is read.
pub proof fn lemma_error_ends_run(msgs: Seq<BusMessage>, k: int)
    requires
        0 <= k < msgs.len(),
        msgs[k] is Error,
        forall|j: int| 0 <= j < k ==> !is_terminal(#[trigger] msgs[j]),
    ensures
        bus_outcome(msgs) == Err::<(), ErrorMessage>(msgs[k]->Error_0),
        run_outcome(msgs) matches Err(RunError::Message(e)) && e.src == msgs[k]->Error_0.src,
        messages_read(msgs) == k + 1,
    decreases k,
{
    if k > 0 {
        let rest = msgs.subrange(1, msgs.len() as int);
        assert(!is_terminal(msgs[0]));
        assert forall|j: int| 0 <= j < k - 1 implies !is_terminal(#[trigger] rest[j]) by {
            assert(rest[j] == msgs[j + 1]);
        }
        lemma_error_ends_run(rest, k - 1);
    }
}

pub struct LifecycleDriver {
    phase: RunPhase,
}

impl LifecycleDriver {
    pub closed spec fn phase(&self) -> RunPhase {
        self.phase
    }

    pub fn new() -> (r: LifecycleDriver)
        ensures
            r.phase() == RunPhase::Idle,
    {
        LifecycleDriver { phase: RunPhase::Idle }
    }

    pub fn current_phase(&self) -> (r: RunPhase)
        ensures
            r == self.phase(),
    {
        self.phase
    }

    /// Starts the run: the pipeline is to be set playing.
    pub fn start(&mut self) -> (r: PipelineState)
        requires
            old(self).phase() == RunPhase::Idle,
        ensures
            final(self).phase() == RunPhase::Running,
            r == PipelineState::Playing,
    {
        self.phase = RunPhase::Running;
        PipelineState::Playing
    }

    /// Reacts to one bus message. End-of-stream ends the run cleanly, an
    /// error ends it with that error, a state change is reported, and
    /// anything else is ignored.
    pub fn on_message(&mut self, msg: BusMessage) -> (r: Reaction)
        requires
            old(self).phase() == RunPhase::Running,
        ensures
            match msg {
                BusMessage::Eos => r == Reaction::Stop(Ok(()))
                    && final(self).phase() == RunPhase::Finished,
                BusMessage::Error(e) => r == Reaction::Stop(Err(e))
                    && final(self).phase() == RunPhase::Failed,
                BusMessage::StateChanged(s) => r == Reaction::Report(s)
                    && final(self).phase() == RunPhase::Running,
                BusMessage::Other => r == Reaction::Continue
                    && final(self).phase() == RunPhase::Running,
            },
    {
        match msg {
            BusMessage::Eos => {
                self.phase = RunPhase::Finished;
                Reaction::Stop(Ok(()))
            },
            BusMessage::Error(e) => {
                self.phase = RunPhase::Failed;
                Reaction::Stop(Err(e))
            },
            BusMessage::StateChanged(s) => Reaction::Report(s),
            BusMessage::Other => Reaction::Continue,
        }
    }

    /// Ends the run: the pipeline is to be brought to `Null`. Where the bus
    /// ran dry while running, the run counts as finished cleanly.
    pub fn shut_down(&mut self) -> (r: PipelineState)
        requires
            old(self).phase() != RunPhase::Idle,
        ensures
            old(self).phase() == RunPhase::Running ==> final(self).phase() == RunPhase::Finished,
            old(self).phase() != RunPhase::Running ==> final(self).phase() == old(self).phase(),
            r == PipelineState::Null,
    {
        if let RunPhase::Running = self.phase {
            self.phase = RunPhase::Finished;
        }
        PipelineState::Null
    }
}

/// A whole run: the state changes requested of the pipeline, in order, how
/// many bus messages were read, and how the run ended.
pub struct RunReport {
    pub requests: Vec<PipelineState>,
    pub messages_read: usize,
    pub outcome: Result<(), RunError>,
}

/// The outcome of a run that got past assembly.
pub open spec fn run_outcome(msgs: Seq<BusMessage>) -> Result<(), RunError> {
    match bus_outcome(msgs) {
        Ok(()) => Ok(()),
        Err(e) => Err(RunError::Message(e)),
    }
}

/// Runs the pipeline's lifecycle over a given sequence of bus messages:
/// `available` tells, for each stage in assembly order, whether it could be
/// made. A missing stage fails the run before any state change is asked for.
/// Otherwise the pipeline is set playing, messages are handled until one ends
/// the run or none are left, and the pipeline is brought to `Null`.
pub fn drive_run(available: &Vec<bool>, messages: Vec<BusMessage>) -> (r: RunReport)
    requires
        available@.len() == STAGE_COUNT,
    ensures
        (exists|i: int| 0 <= i < STAGE_COUNT && !available@[i]) ==> {
            &&& r.requests@.len() == 0
            &&& r.messages_read == 0
            &&& r.outcome matches Err(RunError::MissingElement(m))
            &&& exists|i: int| first_missing_at(available@, i) && m.stage == stage_order()[i]
        },
        (forall|i: int| 0 <= i < STAGE_COUNT ==> available@[i]) ==> {
            &&& r.requests@ == seq![PipelineState::Playing, PipelineState::Null]
            &&& r.messages_read == messages_read(messages@)
            &&& r.outcome == run_outcome(messages@)
        },
{
    let mut requests: Vec<PipelineState> = Vec::new();
    match check_stages(available) {
        Err(m) => {
            return RunReport { requests, messages_read: 0, outcome: Err(RunError::MissingElement(m)) };
        },
        Ok(()) => {},
    }
    let mut driver = LifecycleDriver::new();
    let playing = driver.start();
    requests.push(playing);
    let ghost all = messages@;
    let mut pending = messages;
    let n: usize = pending.len();
    let mut i: usize = 0;
    let mut outcome: Result<(), ErrorMessage> = Ok(());
    let mut done = false;
    assert(all.subrange(0, n as int) =~= all);
    while i < n && !done
        invariant
            i <= n,
            n == all.len(),
            pending@ == all.subrange(i as int, n as int),
            requests@ == seq![PipelineState::Playing],
            !done ==> driver.phase() == RunPhase::Running,
            !done ==> outcome == Ok::<(), ErrorMessage>(()),
            !done ==> bus_outcome(all) == bus_outcome(all.subrange(i as int, n as int)),
            !done ==> messages_read(all) == i + messages_read(all.subrange(i as int, n as int)),
            done ==> driver.phase() != RunPhase::Idle,
            done ==> bus_outcome(all) == outcome,
            done ==> messages_read(all) == i,
        decreases n - i,
    {
        let msg = pending.remove(0);
        proof {
            let rest = all.subrange(i as int, n as int);
            assert(rest[0] == msg);
            assert(rest.subrange(1, rest.len() as int) =~= all.subrange(i + 1, n as int));
            assert(pending@ =~= all.subrange(i + 1, n as int));
        }
        i = i + 1;
        match driver.on_message(msg) {
            Reaction::Stop(o) => {
                outcome = o;
                done = true;
            },
            Reaction::Report(_) => {},
            Reaction::Continue => {},
        }
    }
    assert(!done ==> all.subrange(i as int, n as int).len() == 0);
    let stopped = driver.shut_down();
    requests.push(stopped);
    assert(requests@ =~= seq![PipelineState::Playing, PipelineState::Null]);
    let outcome = match outcome {
        Ok(()) => Ok(()),
        Err(e) => Err(RunError::Message(e)),
    };
    RunReport { requests, messages_read: i, outcome }
}

} // verus!
