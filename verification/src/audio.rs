//! The announcement mailbox: one slot between the control loop and the
//! worker that runs the commands, and the line that signals a running
//! transmission.

use vstd::prelude::*;
use crate::forecast::{local_command, CommandLine, Message};

verus! {

/// The transmission signal line: asserted while the worker is ready,
/// de-asserted while a command runs.
#[derive(Clone, Copy, Debug, PartialEq, Eq, Structural)]
pub enum Signal {
    Ready,
    Busy,
}

impl Signal {
    /// Whether the line is to be high: it is high while ready and low
    /// while busy.
    pub fn line_high(self) -> (high: bool)
        ensures
            high == (self == Signal::Ready),
    {
        match self {
            Signal::Ready => true,
            Signal::Busy => false,
        }
    }
}

/// What the worker is doing.
#[derive(Clone, Copy, Debug, PartialEq, Eq, Structural)]
pub enum WorkerPhase {
    /// No worker was started yet.
    Absent,
    /// The worker waits for a request.
    Waiting,
    /// The worker runs the command of a request.
    Executing,
    /// The worker has ended.
    Stopped,
}

/// Why a submission was not taken for now.
#[derive(Clone, Copy, Debug, PartialEq, Eq, Structural)]
pub enum Rejection {
    Busy,
}

/// Why no submission will ever be taken again.
#[derive(Clone, Copy, Debug, PartialEq, Eq, Structural)]
pub enum Fatality {
    Disconnected,
}

/// Result of a submission that does not wait.
#[derive(Clone, Copy, Debug, PartialEq, Eq, Structural)]
pub enum SubmitOutcome {
    /// The worker has the request.
    Accepted,
    /// The worker is occupied: try again later.
    Rejected(Rejection),
    /// The worker has ended.
    Fatal(Fatality),
}

/// An external command did not do its work.
#[derive(Clone, Copy, Debug, PartialEq, Eq, Structural)]
pub enum ExternalCommandFailed {
    /// The command could not be started.
    NotStarted,
    /// The command ended without success, with this exit code if it
    /// gave one.
    Exited(Option<i32>),
}

/// What the worker does next.
#[derive(Clone, Debug)]
pub enum WorkerStep {
    /// No request is there: wait.
    Wait,
    /// Run this command, then report how it ended.
    Execute(CommandLine),
    /// End the worker.
    Halt,
}

/// What the failure of a command is called, given whether it was
/// started, whether it exited with success, and its exit code if it
/// gave one; `None` where it did not fail.
pub open spec fn failure_of(started: bool, success: bool, code: Option<i32>) -> Option<
    ExternalCommandFailed,
> {
    if !started {
        Some(ExternalCommandFailed::NotStarted)
    } else if !success {
        Some(ExternalCommandFailed::Exited(code))
    } else {
        None
    }
}

/// Judges how an external command ended: it succeeded if it was started
/// and exited with success. Otherwise the failure says whether it was
/// started, and carries the exit code of one that was.
pub fn judge(started: bool, success: bool, code: Option<i32>) -> (result: Result<
    (),
    ExternalCommandFailed,
>)
    ensures
        result is Ok <==> started && success,
        match result {
            Ok(_) => failure_of(started, success, code) is None,
            Err(failure) => failure_of(started, success, code) == Some(failure),
        },
{
    if !started {
        Err(ExternalCommandFailed::NotStarted)
    } else if !success {
        Err(ExternalCommandFailed::Exited(code))
    } else {
        Ok(())
    }
}

/// The mailbox between the control loop and the announcement worker,
/// with the state of the worker and of the signal line.
#[derive(Clone, Debug)]
pub struct AudioManager {
    pub phase: WorkerPhase,
    pub slot: Option<Message>,
    pub signal: Signal,
}

impl AudioManager {
    /// A request lies in the slot only while the worker waits; the
    /// signal is de-asserted while the worker executes, and asserted
    /// while it waits or is not there yet. A worker that has ended
    /// leaves the signal as it was.
    pub open spec fn wf(&self) -> bool {
        &&& self.slot is Some ==> self.phase == WorkerPhase::Waiting
        &&& self.phase == WorkerPhase::Executing ==> self.signal == Signal::Busy
        &&& self.phase == WorkerPhase::Waiting || self.phase == WorkerPhase::Absent
            ==> self.signal == Signal::Ready
    }

    /// Whether the worker waits with an empty slot, that is, can take a
    /// request.
    pub open spec fn idle(&self) -> bool {
        self.phase == WorkerPhase::Waiting && self.slot is None
    }

    /// What a submission in this state comes back with.
    pub open spec fn outcome(&self) -> SubmitOutcome {
        if self.phase == WorkerPhase::Stopped {
            SubmitOutcome::Fatal(Fatality::Disconnected)
        } else if self.idle() {
            SubmitOutcome::Accepted
        } else {
            SubmitOutcome::Rejected(Rejection::Busy)
        }
    }

    /// The state after a submission of `message`.
    pub open spec fn after_submit(&self, message: Message) -> AudioManager {
        if self.idle() {
            AudioManager { phase: self.phase, slot: Some(message), signal: self.signal }
        } else {
            *self
        }
    }

    /// Whether the worker finds a request to take.
    pub open spec fn has_request(&self) -> bool {
        self.phase == WorkerPhase::Waiting && self.slot is Some
    }

    /// The state after the worker looked for a request.
    pub open spec fn after_receive(&self) -> AudioManager {
        if !self.has_request() {
            *self
        } else if self.slot == Some(Message::Break) {
            AudioManager { phase: WorkerPhase::Stopped, slot: None, signal: self.signal }
        } else {
            AudioManager { phase: WorkerPhase::Executing, slot: None, signal: Signal::Busy }
        }
    }

    /// Whether `step` is what the worker is told when it looks for a
    /// request in this state.
    pub open spec fn tells(&self, step: WorkerStep) -> bool {
        if !self.has_request() {
            step is Wait
        } else if self.slot == Some(Message::Break) {
            step is Halt
        } else {
            step matches WorkerStep::Execute(command) && command.carries_out(self.slot.unwrap())
        }
    }

    /// The state after the worker reported the end of a command.
    pub open spec fn after_finish(&self) -> AudioManager {
        if self.phase == WorkerPhase::Executing {
            AudioManager { phase: WorkerPhase::Waiting, slot: self.slot, signal: Signal::Ready }
        } else {
            *self
        }
    }

    /// A mailbox without a worker, the signal asserted.
    pub fn new() -> (manager: AudioManager)
        ensures
            manager.phase == WorkerPhase::Absent,
            manager.slot is None,
            manager.signal == Signal::Ready,
            manager.wf(),
    {
        AudioManager { phase: WorkerPhase::Absent, slot: None, signal: Signal::Ready }
    }

    /// Records the start of the worker. Returns `true` if the caller is
    /// to spawn it now: exactly when none was started before.
    pub fn start_thread(&mut self) -> (spawn: bool)
        ensures
            spawn == (old(self).phase == WorkerPhase::Absent),
            spawn ==> *final(self) == (AudioManager {
                phase: WorkerPhase::Waiting,
                slot: old(self).slot,
                signal: old(self).signal,
            }),
            !spawn ==> *final(self) == *old(self),
            old(self).wf() && old(self).slot is None ==> final(self).wf(),
    {
        match self.phase {
            WorkerPhase::Absent => {
                self.phase = WorkerPhase::Waiting;
                true
            },
            _ => false,
        }
    }

    /// Hands a request to the worker without waiting. It is accepted
    /// exactly when the worker waits with an empty slot; it is rejected
    /// as busy while the worker is occupied or not there yet; once the
    /// worker has ended the outcome is fatal. Unless accepted, nothing
    /// changes.
    pub fn try_submit(&mut self, message: Message) -> (outcome: SubmitOutcome)
        ensures
            outcome == old(self).outcome(),
            *final(self) == old(self).after_submit(message),
            outcome != SubmitOutcome::Accepted ==> *final(self) == *old(self),
            old(self).wf() ==> final(self).wf(),
    {
        match self.phase {
            WorkerPhase::Stopped => SubmitOutcome::Fatal(Fatality::Disconnected),
            WorkerPhase::Waiting => {
                if self.slot.is_none() {
                    self.slot = Some(message);
                    SubmitOutcome::Accepted
                } else {
                    SubmitOutcome::Rejected(Rejection::Busy)
                }
            },
            _ => SubmitOutcome::Rejected(Rejection::Busy),
        }
    }

    /// The worker looks for a request. A waiting worker that finds one
    /// takes it out of the slot: for `Break` it ends; for any other it
    /// de-asserts the signal and is told the command to run. Otherwise
    /// nothing changes and it is told to wait.
    pub fn receive(&mut self) -> (step: WorkerStep)
        ensures
            *final(self) == old(self).after_receive(),
            old(self).tells(step),
            step is Execute ==> final(self).signal == Signal::Busy,
            old(self).wf() ==> final(self).wf(),
    {
        match self.phase {
            WorkerPhase::Waiting => {
                match self.slot.take() {
                    None => WorkerStep::Wait,
                    Some(Message::Break) => {
                        self.phase = WorkerPhase::Stopped;
                        WorkerStep::Halt
                    },
                    Some(message) => {
                        self.phase = WorkerPhase::Executing;
                        self.signal = Signal::Busy;
                        WorkerStep::Execute(local_command(&message))
                    },
                }
            },
            _ => WorkerStep::Wait,
        }
    }

    /// The worker reports that the command has ended. However it ended,
    /// the signal is asserted again and the worker waits for the next
    /// request.
    pub fn finish(&mut self, result: Result<(), ExternalCommandFailed>)
        ensures
            *final(self) == old(self).after_finish(),
            old(self).phase == WorkerPhase::Executing ==> final(self).signal == Signal::Ready
                && final(self).phase == WorkerPhase::Waiting,
            old(self).wf() ==> final(self).wf(),
    {
        match self.phase {
            WorkerPhase::Executing => {
                self.phase = WorkerPhase::Waiting;
                self.signal = Signal::Ready;
            },
            _ => {},
        }
    }

    /// Records that the worker is gone, however it ended: a request
    /// still in the slot is dropped, the signal stays as it is, and from
    /// now on every submission is fatal.
    pub fn disconnect(&mut self)
        ensures
            *final(self) == (AudioManager {
                phase: WorkerPhase::Stopped,
                slot: None,
                signal: old(self).signal,
            }),
            final(self).outcome() == SubmitOutcome::Fatal(Fatality::Disconnected),
            final(self).wf(),
    {
        self.phase = WorkerPhase::Stopped;
        self.slot = None;
    }

    /// The level to put on the signal line.
    pub fn signal(&self) -> (signal: Signal)
        ensures
            signal == self.signal,
    {
        self.signal
    }
}

/// While the worker executes a request, a submission is rejected as busy
/// and changes nothing.
pub proof fn busy_while_executing(manager: AudioManager, message: Message)
    requires
        manager.wf(),
        manager.phase == WorkerPhase::Executing,
    ensures
        manager.outcome() == SubmitOutcome::Rejected(Rejection::Busy),
        manager.after_submit(message) == manager,
{
}

/// One accepted submission is one execution: an idle mailbox accepts a
/// request; the worker then is told exactly one command, the one that
/// carries out that request, with the signal de-asserted before it is
/// told; until the command has ended every further submission is
/// rejected as busy and changes nothing; and when it has ended, with
/// success or failure, the signal is asserted again and the mailbox is
/// idle as before.
pub proof fn one_execution_per_submission(
    manager: AudioManager,
    message: Message,
    second: Message,
    step: WorkerStep,
)
    requires
        manager.wf(),
        manager.idle(),
        !(message is Break),
        manager.after_submit(message).tells(step),
    ensures
        manager.signal == Signal::Ready,
        manager.outcome() == SubmitOutcome::Accepted,
        manager.after_submit(message).outcome() == SubmitOutcome::Rejected(Rejection::Busy),
        manager.after_submit(message).after_submit(second) == manager.after_submit(message),
        step matches WorkerStep::Execute(command) && command.carries_out(message),
        manager.after_submit(message).after_receive().signal == Signal::Busy,
        manager.after_submit(message).after_receive().phase == WorkerPhase::Executing,
        manager.after_submit(message).after_receive().outcome() == SubmitOutcome::Rejected(
            Rejection::Busy,
        ),
        manager.after_submit(message).after_receive().after_submit(second)
            == manager.after_submit(message).after_receive(),
        manager.after_submit(message).after_receive().after_receive()
            == manager.after_submit(message).after_receive(),
        manager.after_submit(message).after_receive().after_finish() == manager,
{
}

/// Once the worker is gone, in whatever state it left the mailbox, every
/// submission is fatal and changes nothing, and the worker is told
/// nothing more to run.
pub proof fn gone_worker_is_fatal(manager: AudioManager, message: Message, step: WorkerStep)
    requires
        manager.phase == WorkerPhase::Stopped,
        manager.tells(step),
    ensures
        manager.outcome() == SubmitOutcome::Fatal(Fatality::Disconnected),
        manager.after_submit(message) == manager,
        manager.after_receive() == manager,
        manager.after_finish() == manager,
        step is Wait,
{
}

/// A `Break` request ends the worker without any command and without
/// touching the signal; from then on every submission is fatal.
pub proof fn break_ends_the_worker(manager: AudioManager, step: WorkerStep, later: Message)
    requires
        manager.wf(),
        manager.idle(),
        manager.after_submit(Message::Break).tells(step),
    ensures
        step is Halt,
        manager.after_submit(Message::Break).after_receive().phase == WorkerPhase::Stopped,
        manager.after_submit(Message::Break).after_receive().signal == manager.signal,
        manager.after_submit(Message::Break).after_receive().outcome() == SubmitOutcome::Fatal(
            Fatality::Disconnected,
        ),
        manager.after_submit(Message::Break).after_receive().after_submit(later)
            == manager.after_submit(Message::Break).after_receive(),
{
}

} // verus!
