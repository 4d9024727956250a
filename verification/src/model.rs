//! The supervisor as a state machine.
//!
//! [`VmmView`] is the supervisor as the contracts see it, and
//! [`VmmView::step`] says, for every state and every event, what the
//! supervisor becomes and what it asks of the host next.

use crate::api::{ApiError, ApiRequest, ApiResponse, ApiResponsePayload};
use crate::dispatch::{lookup, reserved, EpollDispatch};
use crate::error::{api_error, Error};
use crate::protocol::{
    Action, Event, ExitBehaviour, Phase, Signal, Task, EPOLL_EVENTS_LEN, WAIT_FOREVER,
};
use vstd::prelude::*;

verus! {

/// The supervisor as the contracts see it.
pub struct VmmView<H, V, C, S> {
    /// The demultiplexer's descriptor.
    pub fd: i32,
    /// The dispatch table, by registration index.
    pub table: Seq<Option<EpollDispatch>>,
    /// The supervisor's own handle on the guest's exit signal.
    pub exit_evt: H,
    /// The supervisor's own handle on the guest's reset signal.
    pub reset_evt: H,
    /// The supervisor's own handle on the command producer's signal.
    pub api_evt: H,
    /// The VM, once one has been created.
    pub vm: Option<V>,
    /// Whether a reboot rebuilds the VM. Without it a reboot is a shutdown.
    pub acpi: bool,
    /// The readiness events of the current batch that were not looked at yet.
    pub pending: Seq<u64>,
    /// The answer that the supervisor is waiting for.
    pub phase: Phase<H, C, S>,
}

/// The token whose descriptor is registered first.
pub open spec fn registered_first(stdin_is_tty: bool) -> EpollDispatch {
    if stdin_is_tty {
        EpollDispatch::Stdin
    } else {
        EpollDispatch::Exit
    }
}

/// The token whose descriptor is registered after that of `token`, if any.
pub open spec fn registered_after(token: EpollDispatch) -> Option<EpollDispatch> {
    match token {
        EpollDispatch::Stdin => Some(EpollDispatch::Exit),
        EpollDispatch::Exit => Some(EpollDispatch::Reset),
        EpollDispatch::Reset => Some(EpollDispatch::Api),
        EpollDispatch::Api => None,
    }
}

/// The number of entries that the table holds at most while the descriptor
/// of `token` is being registered: the reserved one, and one for each token
/// that is registered earlier.
pub open spec fn registered_before(token: EpollDispatch) -> nat {
    match token {
        EpollDispatch::Stdin => 1,
        EpollDispatch::Exit => 2,
        EpollDispatch::Reset => 3,
        EpollDispatch::Api => 4,
    }
}

impl<H, V, C, S> VmmView<H, V, C, S> {
    /// What holds of the supervisor from its construction on.
    ///
    /// The table keeps its reserved entry and holds at most the four
    /// registrations behind it. Whenever the supervisor waits for the VM to
    /// hand over its configuration, to boot, to shut down or to take keyboard
    /// input, there is a VM.
    pub open spec fn wf(self) -> bool {
        &&& reserved(self.table)
        &&& self.table.len() <= 5
        &&& self.phase matches Phase::Registering(token) ==> self.table.len() <= registered_before(
            token,
        )
        &&& self.phase is ReadingConfig || self.phase is ShuttingDown || self.phase is Booting
            || self.phase is ForwardingStdin ==> self.vm is Some
    }

    /// The supervisor right after construction, and its first request: the
    /// table holds the reserved entry alone, there is no VM, and the first
    /// descriptor is to be registered under index 1.
    pub open spec fn init<E>(
        fd: i32,
        exit_evt: H,
        reset_evt: H,
        api_evt: H,
        stdin_is_tty: bool,
        acpi: bool,
    ) -> (Self, Action<H, C, E, S>) {
        let token = registered_first(stdin_is_tty);
        (
            VmmView {
                fd,
                table: seq![None],
                exit_evt,
                reset_evt,
                api_evt,
                vm: None,
                acpi,
                pending: Seq::empty(),
                phase: Phase::Registering(token),
            },
            Action::Register { token, index: 1 },
        )
    }

    /// Blocks in the demultiplexer, without a timeout.
    pub open spec fn wait<E>(self) -> (Self, Action<H, C, E, S>) {
        (
            VmmView { phase: Phase::Waiting, ..self },
            Action::Wait { max_events: EPOLL_EVENTS_LEN, timeout: WAIT_FOREVER },
        )
    }

    /// Stops successfully.
    pub open spec fn finish<E>(self) -> (Self, Action<H, C, E, S>) {
        (VmmView { phase: Phase::Finished, ..self }, Action::Finish(Ok(())))
    }

    /// Stops with an error.
    pub open spec fn fail<E>(self, err: Error<E>) -> (Self, Action<H, C, E, S>) {
        (VmmView { phase: Phase::Finished, ..self }, Action::Finish(Err(err)))
    }

    /// Answers a command.
    pub open spec fn reply<E>(self, to: S, response: ApiResponse<E>) -> (Self, Action<
        H,
        C,
        E,
        S,
    >) {
        (VmmView { phase: Phase::Replying, ..self }, Action::Reply { to, response })
    }

    /// Appends the registration of `token` to the table and goes on to the
    /// next descriptor, or to the first wait once the command producer's
    /// signal is registered.
    pub open spec fn registered<E>(self, token: EpollDispatch) -> (Self, Action<H, C, E, S>) {
        let next = VmmView { table: self.table.push(Some(token)), ..self };
        match registered_after(token) {
            Some(t) => (
                VmmView { phase: Phase::Registering(t), ..next },
                Action::Register { token: t, index: next.table.len() as u64 },
            ),
            None => next.wait(),
        }
    }

    /// The supervisor's own handle on a signal.
    pub open spec fn signal(self, which: Signal) -> H {
        match which {
            Signal::Exit => self.exit_evt,
            Signal::Reset => self.reset_evt,
            Signal::Api => self.api_evt,
        }
    }

    /// Whether a readiness event that carries `index` calls for anything.
    ///
    /// An index that leads to no token does not, and neither does keyboard
    /// input while there is no VM to take it.
    pub open spec fn wakes(self, index: u64) -> bool {
        match lookup(self.table, index) {
            Some(EpollDispatch::Stdin) => self.vm is Some,
            Some(_) => true,
            None => false,
        }
    }

    /// Attends to a readiness event by its token: a signal is drained, and
    /// keyboard input is forwarded to the VM.
    pub open spec fn attend<E>(self, token: EpollDispatch) -> (Self, Action<H, C, E, S>) {
        match token {
            EpollDispatch::Exit => (
                VmmView { phase: Phase::Draining(Signal::Exit), ..self },
                Action::Drain(Signal::Exit),
            ),
            EpollDispatch::Reset => (
                VmmView { phase: Phase::Draining(Signal::Reset), ..self },
                Action::Drain(Signal::Reset),
            ),
            EpollDispatch::Api => (
                VmmView { phase: Phase::Draining(Signal::Api), ..self },
                Action::Drain(Signal::Api),
            ),
            EpollDispatch::Stdin => (
                VmmView { phase: Phase::ForwardingStdin, ..self },
                Action::HandleStdin,
            ),
        }
    }

    /// Goes on with the current batch of readiness events, in order.
    ///
    /// Events that call for nothing are skipped. The first other event is
    /// attended to, and the events behind it stay pending. Once the batch is
    /// used up the supervisor waits again.
    pub open spec fn resume<E>(self) -> (Self, Action<H, C, E, S>)
        decreases self.pending.len(),
    {
        if self.pending.len() == 0 {
            self.wait()
        } else {
            let rest = VmmView { pending: self.pending.skip(1), ..self };
            if self.wakes(self.pending[0]) {
                rest.attend(lookup(self.table, self.pending[0]).unwrap())
            } else {
                rest.resume()
            }
        }
    }

    /// Ends a task that went well: a command is answered with success, a
    /// reset is followed by a new wait, and an exit stops the supervisor.
    pub open spec fn done<E>(self, task: Task<S>) -> (Self, Action<H, C, E, S>) {
        match task {
            Task::Create(to) | Task::Boot(to) | Task::Shutdown(to) | Task::Reboot(to) => self.reply(
                to,
                Ok(ApiResponsePayload::Empty),
            ),
            Task::Reset => self.wait(),
            Task::Exit => self.finish(),
        }
    }

    /// Ends a task that met an error.
    ///
    /// A command to reboot is answered with [`ApiError::VmReboot`], whatever
    /// went wrong. Any other command is answered with the VM's failure; a
    /// failure of the host stops the supervisor, and the command stays
    /// unanswered. Outside a command every error stops the supervisor.
    pub open spec fn failed<E>(self, task: Task<S>, err: Error<E>) -> (Self, Action<H, C, E, S>) {
        match task {
            Task::Reboot(to) => self.reply(to, Err(ApiError::VmReboot)),
            Task::Create(to) | Task::Boot(to) | Task::Shutdown(to) => match api_error(err) {
                Some(answer) => self.reply(to, Err(answer)),
                None => self.fail(err),
            },
            Task::Reset | Task::Exit => self.fail(err),
        }
    }

    /// Starts a reboot.
    ///
    /// Without a VM there is nothing to do. With one, the VM is first asked
    /// for its configuration where a reboot rebuilds it, and shut down right
    /// away where a reboot is only a shutdown.
    pub open spec fn vm_reboot<E>(self, task: Task<S>) -> (Self, Action<H, C, E, S>) {
        if self.vm is None {
            self.done(task)
        } else if self.acpi {
            (VmmView { phase: Phase::ReadingConfig(task), ..self }, Action::GetConfig)
        } else {
            (VmmView { phase: Phase::ShuttingDown { task, rebuild: None }, ..self }, Action::Shutdown)
        }
    }

    /// Leaves the control loop. What is left of the batch is dropped.
    ///
    /// After the guest's exit signal the VM, if there is one, is shut down
    /// and the supervisor stops. After its reset signal the VM is rebooted
    /// and the loop is entered again.
    pub open spec fn leave<E>(self, behaviour: ExitBehaviour) -> (Self, Action<H, C, E, S>) {
        let left = VmmView { pending: Seq::empty(), ..self };
        match behaviour {
            ExitBehaviour::Shutdown => if left.vm is Some {
                (
                    VmmView { phase: Phase::ShuttingDown { task: Task::Exit, rebuild: None }, ..left },
                    Action::Shutdown,
                )
            } else {
                left.finish()
            },
            ExitBehaviour::Reset => left.vm_reboot(Task::Reset),
        }
    }

    /// Takes up a command.
    ///
    /// A command to boot or to shut down while there is no VM is dropped
    /// without an answer.
    pub open spec fn api_request<E>(self, request: ApiRequest<C, S>) -> (Self, Action<H, C, E, S>) {
        match request {
            ApiRequest::VmCreate(config, to) => (
                VmmView { phase: Phase::CloningExit { task: Task::Create(to), config }, ..self },
                Action::CloneSignal(Signal::Exit),
            ),
            ApiRequest::VmBoot(to) => if self.vm is Some {
                (VmmView { phase: Phase::Booting(Task::Boot(to)), ..self }, Action::Boot)
            } else {
                self.resume()
            },
            ApiRequest::VmShutdown(to) => if self.vm is Some {
                (
                    VmmView {
                        phase: Phase::ShuttingDown { task: Task::Shutdown(to), rebuild: None },
                        ..self
                    },
                    Action::Shutdown,
                )
            } else {
                self.resume()
            },
            ApiRequest::VmReboot(to) => self.vm_reboot(Task::Reboot(to)),
        }
    }

    /// Stores a new VM in place of the old one, and boots it where it was
    /// built for a reboot.
    pub open spec fn vm_created<E>(self, task: Task<S>, vm: V) -> (Self, Action<H, C, E, S>) {
        let next = VmmView { vm: Some(vm), ..self };
        match task {
            Task::Reboot(_) | Task::Reset => (
                VmmView { phase: Phase::Booting(task), ..next },
                Action::Boot,
            ),
            _ => next.done(task),
        }
    }

    /// What the supervisor becomes on `event` and what it asks next, where
    /// `event` answers what it last asked.
    pub open spec fn next<E>(self, event: Event<H, V, C, E, S>) -> Option<
        (Self, Action<H, C, E, S>),
    > {
        match (self.phase, event) {
            (Phase::Registering(token), Event::Registered(Ok(_))) => Some(self.registered(token)),
            (Phase::Registering(_), Event::Registered(Err(e))) => Some(self.fail(Error::Epoll(e))),
            (Phase::Waiting, Event::Ready(Ok(events))) => Some(
                VmmView { pending: events@, ..self }.resume(),
            ),
            (Phase::Waiting, Event::Ready(Err(e))) => if e.interrupted() {
                Some(self.wait())
            } else {
                Some(self.fail(Error::Epoll(e)))
            },
            (Phase::Draining(signal), Event::Drained(Ok(_))) => match signal {
                Signal::Exit => Some(self.leave(ExitBehaviour::Shutdown)),
                Signal::Reset => Some(self.leave(ExitBehaviour::Reset)),
                Signal::Api => Some((VmmView { phase: Phase::Receiving, ..self }, Action::Receive)),
            },
            (Phase::Draining(_), Event::Drained(Err(e))) => Some(self.fail(Error::EventFdRead(e))),
            (Phase::ForwardingStdin, Event::VmDone(Ok(_))) => Some(self.resume()),
            (Phase::ForwardingStdin, Event::VmDone(Err(e))) => Some(self.fail(Error::Stdin(e))),
            (Phase::Receiving, Event::Received(Some(request))) => Some(self.api_request(request)),
            (Phase::Receiving, Event::Received(None)) => Some(self.fail(Error::ApiRequestRecv)),
            (Phase::ReadingConfig(task), Event::Config(config)) => Some(
                (
                    VmmView {
                        phase: Phase::ShuttingDown { task, rebuild: Some(config) },
                        ..self
                    },
                    Action::Shutdown,
                ),
            ),
            (Phase::ShuttingDown { task, rebuild }, Event::VmDone(Ok(_))) => match rebuild {
                Some(config) => Some(
                    (
                        VmmView { phase: Phase::CloningExit { task, config }, ..self },
                        Action::CloneSignal(Signal::Exit),
                    ),
                ),
                None => Some(self.done(task)),
            },
            (Phase::ShuttingDown { task, .. }, Event::VmDone(Err(e))) => Some(
                self.failed(task, Error::VmShutdown(e)),
            ),
            (Phase::CloningExit { task, config }, Event::Cloned(Ok(exit_evt))) => Some(
                (
                    VmmView { phase: Phase::CloningReset { task, config, exit_evt }, ..self },
                    Action::CloneSignal(Signal::Reset),
                ),
            ),
            (Phase::CloningExit { task, .. }, Event::Cloned(Err(e))) => Some(
                self.failed(task, Error::EventFdClone(e)),
            ),
            (Phase::CloningReset { task, config, exit_evt }, Event::Cloned(Ok(reset_evt))) => Some(
                (
                    VmmView { phase: Phase::CreatingVm(task), ..self },
                    Action::CreateVm { config, exit_evt, reset_evt },
                ),
            ),
            (Phase::CloningReset { task, .. }, Event::Cloned(Err(e))) => Some(
                self.failed(task, Error::EventFdClone(e)),
            ),
            (Phase::CreatingVm(task), Event::VmCreated(Ok(vm))) => Some(self.vm_created(task, vm)),
            (Phase::CreatingVm(task), Event::VmCreated(Err(e))) => Some(
                self.failed(task, Error::VmCreate(e)),
            ),
            (Phase::Booting(task), Event::VmDone(Ok(_))) => Some(self.done(task)),
            (Phase::Booting(task), Event::VmDone(Err(e))) => Some(
                self.failed(task, Error::VmBoot(e)),
            ),
            (Phase::Replying, Event::Replied(Ok(_))) => Some(self.resume()),
            (Phase::Replying, Event::Replied(Err(response))) => Some(
                self.fail(Error::ApiResponseSend(response)),
            ),
            _ => None,
        }
    }

    /// Whether `event` answers what the supervisor last asked.
    pub open spec fn accepts<E>(self, event: Event<H, V, C, E, S>) -> bool {
        self.next(event) is Some
    }

    /// One step of the supervisor. An event that does not answer what was
    /// last asked is handed back, and changes nothing.
    pub open spec fn step<E>(self, event: Event<H, V, C, E, S>) -> (
        Self,
        Result<Action<H, C, E, S>, Event<H, V, C, E, S>>,
    ) {
        match self.next(event) {
            Some(r) => (r.0, Ok(r.1)),
            None => (self, Err(event)),
        }
    }
}

} // verus!
