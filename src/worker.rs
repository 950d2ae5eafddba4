//! The life cycle of one worker: `Idle -> Running -> Idle` in a loop, until
//! `Terminated`, which it never leaves.
use crate::dispatch::Message;
use vstd::prelude::*;

verus! {

/// Where a worker stands in its life cycle.
#[derive(Clone, Copy, Debug, PartialEq, Eq, Structural)]
pub enum WorkerPhase {
    /// Waiting for the next message.
    Idle,
    /// Running a task it received.
    Running,
    /// Gone: its thread has returned.
    Terminated,
}

/// What a worker observes.
#[derive(Clone, Copy, Debug, PartialEq, Eq, Structural)]
pub enum WorkerEvent {
    /// It received a task.
    TaskReceived,
    /// It received a terminate marker.
    TerminateReceived,
    /// The channel is gone while it waited.
    Disconnected,
    /// The task it ran returned.
    TaskFinished,
    /// The task it ran panicked; the panic was caught at the worker's edge.
    TaskPanicked,
}

/// What a worker does next.
#[derive(Clone, Copy, Debug, PartialEq, Eq, Structural)]
pub enum WorkerAction {
    /// Run the task just received.
    Run,
    /// Wait for the next message.
    Wait,
    /// Report that a task failed, then wait for the next message.
    ReportFailure,
    /// Leave the thread function.
    Exit,
}

/// The transition table. An event that cannot occur in a phase leaves the
/// phase as it is.
pub open spec fn transition(phase: WorkerPhase, event: WorkerEvent) -> (WorkerPhase, WorkerAction) {
    match (phase, event) {
        (WorkerPhase::Idle, WorkerEvent::TaskReceived) => (WorkerPhase::Running, WorkerAction::Run),
        (WorkerPhase::Idle, WorkerEvent::TerminateReceived) => (
            WorkerPhase::Terminated,
            WorkerAction::Exit,
        ),
        (WorkerPhase::Idle, WorkerEvent::Disconnected) => (
            WorkerPhase::Terminated,
            WorkerAction::Exit,
        ),
        (WorkerPhase::Running, WorkerEvent::TaskFinished) => (WorkerPhase::Idle, WorkerAction::Wait),
        (WorkerPhase::Running, WorkerEvent::TaskPanicked) => (
            WorkerPhase::Idle,
            WorkerAction::ReportFailure,
        ),
        (WorkerPhase::Terminated, _) => (WorkerPhase::Terminated, WorkerAction::Exit),
        (WorkerPhase::Running, _) => (WorkerPhase::Running, WorkerAction::Run),
        (WorkerPhase::Idle, _) => (WorkerPhase::Idle, WorkerAction::Wait),
    }
}

/// The event that receiving `msg` is; `None` means the channel is gone.
pub open spec fn receipt_event<T>(msg: Option<Message<T>>) -> WorkerEvent {
    match msg {
        Some(Message::Task(_)) => WorkerEvent::TaskReceived,
        Some(Message::Terminate) => WorkerEvent::TerminateReceived,
        None => WorkerEvent::Disconnected,
    }
}

/// A worker's identity and phase. The id is fixed at construction.
pub struct WorkerState {
    id: usize,
    phase: WorkerPhase,
}

impl WorkerState {
    pub closed spec fn spec_id(&self) -> usize {
        self.id
    }

    pub closed spec fn spec_phase(&self) -> WorkerPhase {
        self.phase
    }

    /// A fresh worker with the given id, waiting for its first message.
    pub fn new(id: usize) -> (w: WorkerState)
        ensures
            w.spec_id() == id,
            w.spec_phase() == WorkerPhase::Idle,
    {
        WorkerState { id, phase: WorkerPhase::Idle }
    }

    /// The worker's id.
    pub fn id(&self) -> (r: usize)
        ensures
            r == self.spec_id(),
    {
        self.id
    }

    /// The worker's phase.
    pub fn phase(&self) -> (r: WorkerPhase)
        ensures
            r == self.spec_phase(),
    {
        self.phase
    }

    /// Takes one step of the life cycle on `event` and says what to do next.
    /// A failed task sends the worker back to `Idle`, never to `Terminated`;
    /// `Terminated` is final.
    pub fn step(&mut self, event: WorkerEvent) -> (r: WorkerAction)
        ensures
            (final(self).spec_phase(), r) == transition(old(self).spec_phase(), event),
            final(self).spec_id() == old(self).spec_id(),
            old(self).spec_phase() == WorkerPhase::Running && event == WorkerEvent::TaskPanicked
                ==> final(self).spec_phase() == WorkerPhase::Idle,
            old(self).spec_phase() == WorkerPhase::Terminated ==> final(self).spec_phase()
                == WorkerPhase::Terminated && r == WorkerAction::Exit,
            r == WorkerAction::Exit <==> final(self).spec_phase() == WorkerPhase::Terminated,
    {
        let (next, action) = match (self.phase, event) {
            (WorkerPhase::Idle, WorkerEvent::TaskReceived) => (WorkerPhase::Running, WorkerAction::Run),
            (WorkerPhase::Idle, WorkerEvent::TerminateReceived) => (
                WorkerPhase::Terminated,
                WorkerAction::Exit,
            ),
            (WorkerPhase::Idle, WorkerEvent::Disconnected) => (
                WorkerPhase::Terminated,
                WorkerAction::Exit,
            ),
            (WorkerPhase::Running, WorkerEvent::TaskFinished) => (
                WorkerPhase::Idle,
                WorkerAction::Wait,
            ),
            (WorkerPhase::Running, WorkerEvent::TaskPanicked) => (
                WorkerPhase::Idle,
                WorkerAction::ReportFailure,
            ),
            (WorkerPhase::Terminated, _) => (WorkerPhase::Terminated, WorkerAction::Exit),
            (WorkerPhase::Running, _) => (WorkerPhase::Running, WorkerAction::Run),
            (WorkerPhase::Idle, _) => (WorkerPhase::Idle, WorkerAction::Wait),
        };
        self.phase = next;
        action
    }

    /// Takes the step that receiving `msg` is (`None`: the channel is gone)
    /// and hands out the task to run, if it is one that an idle worker takes.
    pub fn receive<T>(&mut self, msg: Option<Message<T>>) -> (r: Option<T>)
        ensures
            final(self).spec_phase() == transition(old(self).spec_phase(), receipt_event(msg)).0,
            final(self).spec_id() == old(self).spec_id(),
            r is Some <==> (old(self).spec_phase() == WorkerPhase::Idle && msg matches Some(
                Message::Task(_),
            )),
            r is Some ==> msg == Some(Message::Task(r->0)),
    {
        let was_idle = match self.phase {
            WorkerPhase::Idle => true,
            _ => false,
        };
        match msg {
            Some(Message::Task(t)) => {
                self.step(WorkerEvent::TaskReceived);
                if was_idle {
                    Some(t)
                } else {
                    None
                }
            },
            Some(Message::Terminate) => {
                self.step(WorkerEvent::TerminateReceived);
                None
            },
            None => {
                self.step(WorkerEvent::Disconnected);
                None
            },
        }
    }
}

/// A task that panics does not end its worker: a running worker whose task
/// panicked is idle again and takes the next task it receives.
pub proof fn lemma_worker_survives_panic()
    ensures
        transition(WorkerPhase::Running, WorkerEvent::TaskPanicked).0 == WorkerPhase::Idle,
        transition(
            transition(WorkerPhase::Running, WorkerEvent::TaskPanicked).0,
            WorkerEvent::TaskReceived,
        ) == (WorkerPhase::Running, WorkerAction::Run),
{
}

/// Only a terminate marker or a lost channel ends a worker, and once ended it
/// stays ended whatever it observes.
pub proof fn lemma_only_terminate_ends(phase: WorkerPhase, event: WorkerEvent)
    ensures
        phase != WorkerPhase::Terminated && transition(phase, event).0 == WorkerPhase::Terminated
            ==> event == WorkerEvent::TerminateReceived || event == WorkerEvent::Disconnected,
        phase == WorkerPhase::Terminated ==> transition(phase, event).0 == WorkerPhase::Terminated,
{
}

} // verus!
