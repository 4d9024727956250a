//! Building the supervisor.
//!
//! Before the supervisor can run, the host has to create the demultiplexer
//! and the two signals through which the guest wakes the supervisor, and to
//! say whether its standard input is a terminal. [`Setup`] asks for these one
//! at a time, stops at the first that fails, and hands over the supervisor
//! once it has them all.

use crate::error::{Error, IoError};
use crate::model::VmmView;
use crate::protocol::{Action, Signal};
use crate::vmm::Vmm;
use vstd::prelude::*;

verus! {

/// One host call that building the supervisor asks for.
#[derive(Debug, Clone, Copy, PartialEq, Eq)]
pub enum SetupAction {
    /// Create the demultiplexer. With `cloexec` its descriptor is closed
    /// when the process executes another program.
    CreateDemux { cloexec: bool },
    /// Create one of the guest's signals. With `nonblocking` reading its
    /// counter never blocks.
    CreateSignal { which: Signal, nonblocking: bool },
    /// Find out whether the host's standard input is a terminal.
    ProbeStdin,
}

/// The outcome of one host call of the set-up. `H` is an event-signal
/// handle.
#[derive(Debug, PartialEq, Eq)]
pub enum SetupEvent<H> {
    /// The demultiplexer's descriptor, or why there is none.
    DemuxCreated(Result<i32, IoError>),
    /// The signal's handle, or why there is none.
    SignalCreated(Result<H, IoError>),
    /// Whether the host's standard input is a terminal.
    StdinProbed(bool),
}

/// A supervisor that is being built: what it has so far, and so what it
/// waits for.
#[derive(Debug, PartialEq, Eq)]
pub enum Setup<H> {
    /// The demultiplexer is being created.
    CreatingDemux { api_evt: H, acpi: bool },
    /// The exit signal is being created.
    CreatingExit { epoll_fd: i32, api_evt: H, acpi: bool },
    /// The reset signal is being created.
    CreatingReset { epoll_fd: i32, exit_evt: H, api_evt: H, acpi: bool },
    /// The host's standard input is being looked at.
    ProbingStdin { epoll_fd: i32, exit_evt: H, reset_evt: H, api_evt: H, acpi: bool },
}

/// What one step of the set-up leads to.
pub enum SetupPlan<H, E> {
    /// The set-up goes on and asks for another host call.
    Ask(Setup<H>, SetupAction),
    /// Everything is there: the supervisor is built from it.
    Build { epoll_fd: i32, exit_evt: H, reset_evt: H, api_evt: H, stdin_is_tty: bool, acpi: bool },
    /// A host call failed: there will be no supervisor.
    Fail(Error<E>),
    /// The event is no outcome of what was asked.
    Refuse,
}

/// The result of one step of the set-up.
pub enum SetupStep<H, V, C, E, S> {
    /// The set-up goes on and asks for another host call.
    Ask(Setup<H>, SetupAction),
    /// The supervisor, and the first thing that it asks for.
    Built(Vmm<H, V, C, S>, Action<H, C, E, S>),
    /// A host call failed: there is no supervisor, and what was created so far
    /// is dropped.
    Failed(Error<E>),
    /// The event is no outcome of what was asked; the set-up and the event
    /// are handed back.
    Refused(Setup<H>, SetupEvent<H>),
}

impl<H> Setup<H> {
    /// The set-up at its start, and its first request. The demultiplexer's
    /// descriptor is to be closed on exec.
    pub open spec fn init(api_evt: H, acpi: bool) -> (Setup<H>, SetupAction) {
        (Setup::CreatingDemux { api_evt, acpi }, SetupAction::CreateDemux { cloexec: true })
    }

    /// What the set-up does on `event`.
    ///
    /// The demultiplexer comes first, then the exit signal, then the reset
    /// signal, both non-blocking, then the look at standard input. A
    /// demultiplexer that cannot be created ends the set-up with
    /// [`Error::Epoll`], a signal that cannot be created with
    /// [`Error::EventFdCreate`].
    pub open spec fn plan<E>(self, event: SetupEvent<H>) -> SetupPlan<H, E> {
        match (self, event) {
            (Setup::CreatingDemux { api_evt, acpi }, SetupEvent::DemuxCreated(Ok(epoll_fd))) => {
                SetupPlan::Ask(
                    Setup::CreatingExit { epoll_fd, api_evt, acpi },
                    SetupAction::CreateSignal { which: Signal::Exit, nonblocking: true },
                )
            },
            (Setup::CreatingDemux { .. }, SetupEvent::DemuxCreated(Err(e))) => SetupPlan::Fail(
                Error::Epoll(e),
            ),
            (
                Setup::CreatingExit { epoll_fd, api_evt, acpi },
                SetupEvent::SignalCreated(Ok(exit_evt)),
            ) => SetupPlan::Ask(
                Setup::CreatingReset { epoll_fd, exit_evt, api_evt, acpi },
                SetupAction::CreateSignal { which: Signal::Reset, nonblocking: true },
            ),
            (Setup::CreatingExit { .. }, SetupEvent::SignalCreated(Err(e))) => SetupPlan::Fail(
                Error::EventFdCreate(e),
            ),
            (
                Setup::CreatingReset { epoll_fd, exit_evt, api_evt, acpi },
                SetupEvent::SignalCreated(Ok(reset_evt)),
            ) => SetupPlan::Ask(
                Setup::ProbingStdin { epoll_fd, exit_evt, reset_evt, api_evt, acpi },
                SetupAction::ProbeStdin,
            ),
            (Setup::CreatingReset { .. }, SetupEvent::SignalCreated(Err(e))) => SetupPlan::Fail(
                Error::EventFdCreate(e),
            ),
            (
                Setup::ProbingStdin { epoll_fd, exit_evt, reset_evt, api_evt, acpi },
                SetupEvent::StdinProbed(stdin_is_tty),
            ) => SetupPlan::Build { epoll_fd, exit_evt, reset_evt, api_evt, stdin_is_tty, acpi },
            _ => SetupPlan::Refuse,
        }
    }

    /// Starts to build a supervisor around the command producer's signal.
    ///
    /// With `acpi` a reboot rebuilds the VM; without it a reboot is a
    /// shutdown.
    pub fn new(api_evt: H, acpi: bool) -> (r: (Setup<H>, SetupAction))
        ensures
            r == Self::init(api_evt, acpi),
    {
        (Setup::CreatingDemux { api_evt, acpi }, SetupAction::CreateDemux { cloexec: true })
    }

    /// Takes the outcome of the host call that was last asked for.
    ///
    /// Once the last outcome is in, the supervisor is built: its table holds
    /// the reserved entry alone, it has no VM, and it asks for its first
    /// descriptor to be registered.
    pub fn step<V, C, E, S>(self, event: SetupEvent<H>) -> (r: SetupStep<H, V, C, E, S>)
        ensures
            match self.plan::<E>(event) {
                SetupPlan::Ask(next, action) => r == SetupStep::<H, V, C, E, S>::Ask(next, action),
                SetupPlan::Build { epoll_fd, exit_evt, reset_evt, api_evt, stdin_is_tty, acpi } => {
                    &&& r matches SetupStep::Built(vmm, action)
                    &&& (vmm@, action) == VmmView::<H, V, C, S>::init::<E>(
                        epoll_fd,
                        exit_evt,
                        reset_evt,
                        api_evt,
                        stdin_is_tty,
                        acpi,
                    )
                    &&& vmm@.wf()
                },
                SetupPlan::Fail(err) => r == SetupStep::<H, V, C, E, S>::Failed(err),
                SetupPlan::Refuse => r == SetupStep::<H, V, C, E, S>::Refused(self, event),
            },
    {
        match (self, event) {
            (Setup::CreatingDemux { api_evt, acpi }, SetupEvent::DemuxCreated(Ok(epoll_fd))) => {
                SetupStep::Ask(
                    Setup::CreatingExit { epoll_fd, api_evt, acpi },
                    SetupAction::CreateSignal { which: Signal::Exit, nonblocking: true },
                )
            },
            (Setup::CreatingDemux { .. }, SetupEvent::DemuxCreated(Err(e))) => SetupStep::Failed(
                Error::Epoll(e),
            ),
            (
                Setup::CreatingExit { epoll_fd, api_evt, acpi },
                SetupEvent::SignalCreated(Ok(exit_evt)),
            ) => SetupStep::Ask(
                Setup::CreatingReset { epoll_fd, exit_evt, api_evt, acpi },
                SetupAction::CreateSignal { which: Signal::Reset, nonblocking: true },
            ),
            (Setup::CreatingExit { .. }, SetupEvent::SignalCreated(Err(e))) => SetupStep::Failed(
                Error::EventFdCreate(e),
            ),
            (
                Setup::CreatingReset { epoll_fd, exit_evt, api_evt, acpi },
                SetupEvent::SignalCreated(Ok(reset_evt)),
            ) => SetupStep::Ask(
                Setup::ProbingStdin { epoll_fd, exit_evt, reset_evt, api_evt, acpi },
                SetupAction::ProbeStdin,
            ),
            (Setup::CreatingReset { .. }, SetupEvent::SignalCreated(Err(e))) => SetupStep::Failed(
                Error::EventFdCreate(e),
            ),
            (
                Setup::ProbingStdin { epoll_fd, exit_evt, reset_evt, api_evt, acpi },
                SetupEvent::StdinProbed(stdin_is_tty),
            ) => {
                let (vmm, action) = Vmm::new(
                    epoll_fd,
                    exit_evt,
                    reset_evt,
                    api_evt,
                    stdin_is_tty,
                    acpi,
                );
                SetupStep::Built(vmm, action)
            },
            (setup, event) => SetupStep::Refused(setup, event),
        }
    }
}

} // verus!
