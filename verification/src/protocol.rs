//! What the supervisor asks of the host, and what the host answers.
//!
//! The supervisor never touches a descriptor, a channel or the VM itself. It
//! hands out one [`Action`] at a time, each standing for exactly one host
//! call, and is told the outcome of that call as an [`Event`]. Between the two
//! it remembers in a [`Phase`] which answer it is waiting for.

use crate::api::{ApiRequest, ApiResponse};
use crate::dispatch::EpollDispatch;
use crate::error::{Error, IoError};
use vstd::prelude::*;

verus! {

/// The number of readiness events that one wait may return.
pub const EPOLL_EVENTS_LEN: usize = 100;

/// The timeout that makes a wait block until something is ready.
pub const WAIT_FOREVER: i32 = -1;

/// One of the three event-signal handles that the supervisor owns.
#[derive(Debug, Clone, Copy, PartialEq, Eq, Structural)]
pub enum Signal {
    /// Signalled by the guest to ask for a shutdown.
    Exit,
    /// Signalled by the guest to ask for a reset.
    Reset,
    /// Signalled by the command producer after it has queued a command.
    Api,
}

/// How one run of the control loop ended.
#[derive(Debug, Clone, Copy, PartialEq, Eq, Structural)]
pub enum ExitBehaviour {
    /// The guest wants to be shut down: the supervisor stops.
    Shutdown,
    /// The guest wants to be reset: the VM is rebuilt and the loop runs again.
    Reset,
}

/// On whose behalf the VM is being worked on. `S` is the sender on which a
/// command is answered.
#[derive(Debug, PartialEq, Eq)]
pub enum Task<S> {
    /// A command to create the VM.
    Create(S),
    /// A command to boot the VM.
    Boot(S),
    /// A command to shut the VM down.
    Shutdown(S),
    /// A command to reboot the VM.
    Reboot(S),
    /// The guest's reset signal ended the control loop.
    Reset,
    /// The guest's exit signal ended the control loop.
    Exit,
}

impl<S> Task<S> {
    /// The sender on which the task is answered, where it is a command.
    pub open spec fn answered_on(self) -> Option<S> {
        match self {
            Task::Create(to) | Task::Boot(to) | Task::Shutdown(to) | Task::Reboot(to) => Some(to),
            Task::Reset | Task::Exit => None,
        }
    }
}

/// The answer that the supervisor is waiting for.
#[derive(Debug, PartialEq, Eq)]
pub enum Phase<H, C, S> {
    /// A descriptor is being registered under this token.
    Registering(EpollDispatch),
    /// The supervisor is blocked in the demultiplexer.
    Waiting,
    /// The counter of a signal is being read.
    Draining(Signal),
    /// The VM is consuming host keyboard input.
    ForwardingStdin,
    /// A command is being taken from the channel.
    Receiving,
    /// The VM is being asked for its configuration, to be rebuilt from it.
    ReadingConfig(Task<S>),
    /// The VM is being shut down. A configuration is held where the VM is to
    /// be rebuilt from it afterwards.
    ShuttingDown { task: Task<S>, rebuild: Option<C> },
    /// The exit signal is being duplicated for a new VM.
    CloningExit { task: Task<S>, config: C },
    /// The reset signal is being duplicated for a new VM.
    CloningReset { task: Task<S>, config: C, exit_evt: H },
    /// A new VM is being built.
    CreatingVm(Task<S>),
    /// The VM is being booted.
    Booting(Task<S>),
    /// The answer to a command is being delivered.
    Replying,
    /// The supervisor has stopped and asks for nothing more.
    Finished,
}

impl<H, C, S> Phase<H, C, S> {
    /// The task on whose behalf the VM is being worked on, if it is.
    pub open spec fn task(self) -> Option<Task<S>> {
        match self {
            Phase::ReadingConfig(task) => Some(task),
            Phase::ShuttingDown { task, .. } => Some(task),
            Phase::CloningExit { task, .. } => Some(task),
            Phase::CloningReset { task, .. } => Some(task),
            Phase::CreatingVm(task) => Some(task),
            Phase::Booting(task) => Some(task),
            _ => None,
        }
    }

    /// The sender on which an answer is owed: that of the command in
    /// progress, until its answer has been handed out.
    pub open spec fn owes(self) -> Option<S> {
        match self.task() {
            Some(task) => task.answered_on(),
            None => None,
        }
    }
}

/// One host call that the supervisor asks for. `H` is an event-signal handle,
/// `C` the VM configuration, `E` the VM's error type and `S` the sender on
/// which a command is answered.
#[derive(Debug, PartialEq, Eq)]
pub enum Action<H, C, E, S> {
    /// Register the descriptor that `token` stands for with the demultiplexer,
    /// for read-readiness, with `index` as its user data.
    Register { token: EpollDispatch, index: u64 },
    /// Wait in the demultiplexer for at most `max_events` readiness events.
    Wait { max_events: usize, timeout: i32 },
    /// Read the counter of one of the supervisor's signals.
    Drain(Signal),
    /// Forward host keyboard input to the VM.
    HandleStdin,
    /// Take one command from the command channel, blocking until there is one.
    Receive,
    /// Ask the VM for its configuration.
    GetConfig,
    /// Shut the VM down.
    Shutdown,
    /// Duplicate one of the supervisor's signals.
    CloneSignal(Signal),
    /// Build a VM from a configuration. It is given duplicates of the exit and
    /// reset signals, with which it wakes the supervisor.
    CreateVm { config: C, exit_evt: H, reset_evt: H },
    /// Boot the VM.
    Boot,
    /// Deliver the answer to a command.
    Reply { to: S, response: ApiResponse<E> },
    /// Stop, with this result.
    Finish(Result<(), Error<E>>),
}

/// The outcome of one host call. `V` is the VM.
#[derive(Debug, PartialEq, Eq)]
pub enum Event<H, V, C, E, S> {
    /// The descriptor was registered, or could not be.
    Registered(Result<(), IoError>),
    /// The wait returned with the user data of each ready descriptor, in the
    /// order the demultiplexer reported them, or failed.
    Ready(Result<Vec<u64>, IoError>),
    /// The counter was read and held this many signals, or could not be read.
    Drained(Result<u64, IoError>),
    /// A command was taken from the channel, or the channel is closed.
    Received(Option<ApiRequest<C, S>>),
    /// The VM's configuration.
    Config(C),
    /// The signal was duplicated, or could not be.
    Cloned(Result<H, IoError>),
    /// The VM was built, or could not be.
    VmCreated(Result<V, E>),
    /// The VM was booted, shut down or fed keyboard input, or failed at it.
    VmDone(Result<(), E>),
    /// The answer was delivered, or is handed back undelivered.
    Replied(Result<(), ApiResponse<E>>),
}

} // verus!
