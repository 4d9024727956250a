//! The supervisor.

use crate::api::{ApiError, ApiRequest, ApiResponse, ApiResponsePayload};
use crate::dispatch::{EpollContext, EpollDispatch};
use crate::error::Error;
use crate::laws::law_wf_is_kept;
use crate::model::{registered_after, VmmView};
use crate::protocol::{
    Action, Event, ExitBehaviour, Phase, Signal, Task, EPOLL_EVENTS_LEN, WAIT_FOREVER,
};
use vstd::prelude::*;

verus! {

/// The supervisor: the demultiplexer's dispatch table, the three signals it
/// owns, and at most one VM.
///
/// `H` is an event-signal handle, `V` the VM, `C` its configuration and `S`
/// the sender on which a command is answered. The supervisor only holds and
/// hands on values of these types.
pub struct Vmm<H, V, C, S> {
    epoll: EpollContext,
    exit_evt: H,
    reset_evt: H,
    api_evt: H,
    vm: Option<V>,
    acpi: bool,
    events: Vec<u64>,
    cursor: usize,
    phase: Phase<H, C, S>,
}

impl<H, V, C, S> View for Vmm<H, V, C, S> {
    type V = VmmView<H, V, C, S>;

    closed spec fn view(&self) -> VmmView<H, V, C, S> {
        VmmView {
            fd: self.epoll.fd(),
            table: self.epoll@,
            exit_evt: self.exit_evt,
            reset_evt: self.reset_evt,
            api_evt: self.api_evt,
            vm: self.vm,
            acpi: self.acpi,
            pending: if self.cursor <= self.events@.len() {
                self.events@.skip(self.cursor as int)
            } else {
                Seq::empty()
            },
            phase: self.phase,
        }
    }
}

/// The token whose descriptor is registered after that of `token`, if any.
fn next_registration(token: EpollDispatch) -> (next: Option<EpollDispatch>)
    ensures
        next == registered_after(token),
{
    match token {
        EpollDispatch::Stdin => Some(EpollDispatch::Exit),
        EpollDispatch::Exit => Some(EpollDispatch::Reset),
        EpollDispatch::Reset => Some(EpollDispatch::Api),
        EpollDispatch::Api => None,
    }
}

/// What is asked next does not depend on what was asked last.
proof fn lemma_resume_any_phase<H, V, C, E, S>(s: VmmView<H, V, C, S>, phase: Phase<H, C, S>)
    ensures
        (VmmView { phase, ..s }).resume::<E>() == s.resume::<E>(),
    decreases s.pending.len(),
{
    if s.pending.len() > 0 {
        let rest = VmmView { pending: s.pending.skip(1), ..s };
        lemma_resume_any_phase::<H, V, C, E, S>(rest, phase);
        assert(VmmView { pending: s.pending.skip(1), ..VmmView { phase, ..s } } == VmmView {
            phase,
            ..rest
        });
    }
}

impl<H, V, C, S> Vmm<H, V, C, S> {
    /// Builds the supervisor around a freshly created demultiplexer and its
    /// three signals, and asks for the first registration.
    ///
    /// The keyboard is registered only where the host's standard input is a
    /// terminal. With `acpi` a reboot rebuilds the VM; without it a reboot is
    /// a shutdown.
    pub fn new<E>(
        epoll_fd: i32,
        exit_evt: H,
        reset_evt: H,
        api_evt: H,
        stdin_is_tty: bool,
        acpi: bool,
    ) -> (r: (Self, Action<H, C, E, S>))
        ensures
            (r.0@, r.1) == VmmView::<H, V, C, S>::init::<E>(
                epoll_fd,
                exit_evt,
                reset_evt,
                api_evt,
                stdin_is_tty,
                acpi,
            ),
            r.0@.wf(),
    {
        let epoll = EpollContext::new(epoll_fd);
        let token = if stdin_is_tty {
            EpollDispatch::Stdin
        } else {
            EpollDispatch::Exit
        };
        let index = epoll.next_index();
        let vmm = Vmm {
            epoll,
            exit_evt,
            reset_evt,
            api_evt,
            vm: None,
            acpi,
            events: Vec::new(),
            cursor: 0,
            phase: Phase::Registering(token),
        };
        assert(vmm@.pending =~= Seq::empty());
        (vmm, Action::Register { token, index })
    }

    /// The demultiplexer and its dispatch table.
    pub fn epoll(&self) -> (ctx: &EpollContext)
        ensures
            ctx@ == self@.table,
            ctx.fd() == self@.fd,
    {
        &self.epoll
    }

    /// The supervisor's own handle on a signal. The host drains, duplicates
    /// and registers the signal through it.
    pub fn signal(&self, which: Signal) -> (handle: &H)
        ensures
            *handle == self@.signal(which),
    {
        match which {
            Signal::Exit => &self.exit_evt,
            Signal::Reset => &self.reset_evt,
            Signal::Api => &self.api_evt,
        }
    }

    /// Whether a reboot rebuilds the VM.
    pub fn acpi(&self) -> (acpi: bool)
        ensures
            acpi == self@.acpi,
    {
        self.acpi
    }

    /// Whether there is a VM.
    pub fn has_vm(&self) -> (b: bool)
        ensures
            b == (self@.vm is Some),
    {
        self.vm.is_some()
    }

    /// The VM, if there is one.
    pub fn vm(&self) -> (vm: Option<&V>)
        ensures
            match vm {
                Some(v) => self@.vm == Some(*v),
                None => self@.vm is None,
            },
    {
        self.vm.as_ref()
    }

    /// The VM, if there is one, for the host to work on. Whatever the host
    /// does to it, nothing else of the supervisor changes.
    pub fn vm_mut(&mut self) -> (vm: Option<&mut V>)
        ensures
            match vm {
                Some(v) => old(self)@.vm == Some(*v) && final(self)@ == (VmmView {
                    vm: Some(*final(v)),
                    ..old(self)@
                }),
                None => old(self)@.vm is None && final(self)@ == old(self)@,
            },
            old(self)@.wf() ==> final(self)@.wf(),
    {
        self.vm.as_mut()
    }

    /// The answer that the supervisor is waiting for.
    pub fn phase(&self) -> (phase: &Phase<H, C, S>)
        ensures
            *phase == self@.phase,
    {
        &self.phase
    }

    /// Whether the supervisor has stopped.
    pub fn is_finished(&self) -> (b: bool)
        ensures
            b == (self@.phase is Finished),
    {
        match self.phase {
            Phase::Finished => true,
            _ => false,
        }
    }

    fn wait<E>(&mut self) -> (action: Action<H, C, E, S>)
        ensures
            (final(self)@, action) == old(self)@.wait::<E>(),
    {
        self.phase = Phase::Waiting;
        Action::Wait { max_events: EPOLL_EVENTS_LEN, timeout: WAIT_FOREVER }
    }

    fn finish<E>(&mut self) -> (action: Action<H, C, E, S>)
        ensures
            (final(self)@, action) == old(self)@.finish::<E>(),
    {
        self.phase = Phase::Finished;
        Action::Finish(Ok(()))
    }

    fn fail<E>(&mut self, err: Error<E>) -> (action: Action<H, C, E, S>)
        ensures
            (final(self)@, action) == old(self)@.fail(err),
    {
        self.phase = Phase::Finished;
        Action::Finish(Err(err))
    }

    fn reply<E>(&mut self, to: S, response: ApiResponse<E>) -> (action: Action<H, C, E, S>)
        ensures
            (final(self)@, action) == old(self)@.reply(to, response),
    {
        self.phase = Phase::Replying;
        Action::Reply { to, response }
    }

    fn registered<E>(&mut self, token: EpollDispatch) -> (action: Action<H, C, E, S>)
        ensures
            (final(self)@, action) == old(self)@.registered::<E>(token),
    {
        self.epoll.add_event(token);
        match next_registration(token) {
            Some(t) => {
                self.phase = Phase::Registering(t);
                Action::Register { token: t, index: self.epoll.next_index() }
            },
            None => self.wait(),
        }
    }

    fn resume<E>(&mut self) -> (action: Action<H, C, E, S>)
        ensures
            (final(self)@, action) == old(self)@.resume::<E>(),
    {
        let ghost start = self@;
        while self.cursor < self.events.len()
            invariant
                start == old(self)@,
                self@.resume::<E>() == start.resume::<E>(),
            decreases self.events.len() - self.cursor,
        {
            let ghost before = self@;
            let index = self.events[self.cursor];
            self.cursor = self.cursor + 1;
            proof {
                assert(before.pending.len() > 0);
                assert(before.pending[0] == index);
                assert(self@.pending =~= before.pending.skip(1));
                assert(self@ == VmmView { pending: before.pending.skip(1), ..before });
            }
            match self.epoll.dispatch(index) {
                Some(EpollDispatch::Exit) => {
                    self.phase = Phase::Draining(Signal::Exit);
                    return Action::Drain(Signal::Exit);
                },
                Some(EpollDispatch::Reset) => {
                    self.phase = Phase::Draining(Signal::Reset);
                    return Action::Drain(Signal::Reset);
                },
                Some(EpollDispatch::Api) => {
                    self.phase = Phase::Draining(Signal::Api);
                    return Action::Drain(Signal::Api);
                },
                Some(EpollDispatch::Stdin) => {
                    if self.vm.is_some() {
                        self.phase = Phase::ForwardingStdin;
                        return Action::HandleStdin;
                    }
                },
                None => {},
            }
        }
        assert(self@.pending.len() == 0);
        self.wait()
    }

    fn done<E>(&mut self, task: Task<S>) -> (action: Action<H, C, E, S>)
        ensures
            (final(self)@, action) == old(self)@.done::<E>(task),
    {
        match task {
            Task::Create(to) | Task::Boot(to) | Task::Shutdown(to) | Task::Reboot(to) => self.reply(
                to,
                Ok(ApiResponsePayload::Empty),
            ),
            Task::Reset => self.wait(),
            Task::Exit => self.finish(),
        }
    }

    fn failed<E>(&mut self, task: Task<S>, err: Error<E>) -> (action: Action<H, C, E, S>)
        ensures
            (final(self)@, action) == old(self)@.failed(task, err),
    {
        match task {
            Task::Reboot(to) => self.reply(to, Err(ApiError::VmReboot)),
            Task::Create(to) | Task::Boot(to) | Task::Shutdown(to) => match err.into_api_error() {
                Ok(answer) => self.reply(to, Err(answer)),
                Err(err) => self.fail(err),
            },
            Task::Reset | Task::Exit => self.fail(err),
        }
    }

    fn vm_reboot<E>(&mut self, task: Task<S>) -> (action: Action<H, C, E, S>)
        ensures
            (final(self)@, action) == old(self)@.vm_reboot::<E>(task),
    {
        if self.vm.is_none() {
            self.done(task)
        } else if self.acpi {
            self.phase = Phase::ReadingConfig(task);
            Action::GetConfig
        } else {
            self.phase = Phase::ShuttingDown { task, rebuild: None };
            Action::Shutdown
        }
    }

    fn leave<E>(&mut self, behaviour: ExitBehaviour) -> (action: Action<H, C, E, S>)
        ensures
            (final(self)@, action) == old(self)@.leave::<E>(behaviour),
    {
        self.cursor = self.events.len();
        assert(self@.pending =~= Seq::empty());
        match behaviour {
            ExitBehaviour::Shutdown => {
                if self.vm.is_some() {
                    self.phase = Phase::ShuttingDown { task: Task::Exit, rebuild: None };
                    Action::Shutdown
                } else {
                    self.finish()
                }
            },
            ExitBehaviour::Reset => self.vm_reboot(Task::Reset),
        }
    }

    fn api_request<E>(&mut self, request: ApiRequest<C, S>) -> (action: Action<H, C, E, S>)
        ensures
            (final(self)@, action) == old(self)@.api_request::<E>(request),
    {
        match request {
            ApiRequest::VmCreate(config, to) => {
                self.phase = Phase::CloningExit { task: Task::Create(to), config };
                Action::CloneSignal(Signal::Exit)
            },
            ApiRequest::VmBoot(to) => {
                if self.vm.is_some() {
                    self.phase = Phase::Booting(Task::Boot(to));
                    Action::Boot
                } else {
                    self.resume()
                }
            },
            ApiRequest::VmShutdown(to) => {
                if self.vm.is_some() {
                    self.phase = Phase::ShuttingDown { task: Task::Shutdown(to), rebuild: None };
                    Action::Shutdown
                } else {
                    self.resume()
                }
            },
            ApiRequest::VmReboot(to) => self.vm_reboot(Task::Reboot(to)),
        }
    }

    fn vm_created<E>(&mut self, task: Task<S>, vm: V) -> (action: Action<H, C, E, S>)
        ensures
            (final(self)@, action) == old(self)@.vm_created::<E>(task, vm),
    {
        self.vm = Some(vm);
        match task {
            Task::Reboot(_) | Task::Reset => {
                self.phase = Phase::Booting(task);
                Action::Boot
            },
            _ => self.done(task),
        }
    }

    /// Takes the outcome of the host call that was last asked for, and says
    /// what to do next.
    ///
    /// An event that is no outcome of that call is handed back as the error,
    /// and leaves the supervisor as it was. Once the supervisor has asked to
    /// [`Finish`](Action::Finish) every event is handed back.
    pub fn step<E>(&mut self, event: Event<H, V, C, E, S>) -> (r: Result<
        Action<H, C, E, S>,
        Event<H, V, C, E, S>,
    >)
        ensures
            (final(self)@, r) == old(self)@.step(event),
            old(self)@.wf() ==> final(self)@.wf(),
    {
        let ghost pre = self@;
        proof {
            if pre.wf() {
                law_wf_is_kept(pre, event);
            }
        }
        let mut phase = Phase::Finished;
        core::mem::swap(&mut self.phase, &mut phase);
        proof {
            lemma_resume_any_phase::<H, V, C, E, S>(pre, Phase::Finished);
        }
        match (phase, event) {
            (Phase::Registering(token), Event::Registered(Ok(_))) => Ok(self.registered(token)),
            (Phase::Registering(_), Event::Registered(Err(e))) => Ok(self.fail(Error::Epoll(e))),
            (Phase::Waiting, Event::Ready(Ok(events))) => {
                self.events = events;
                self.cursor = 0;
                proof {
                    assert(self@.pending =~= events@);
                    lemma_resume_any_phase::<H, V, C, E, S>(
                        VmmView { pending: events@, ..pre },
                        Phase::Finished,
                    );
                }
                Ok(self.resume())
            },
            (Phase::Waiting, Event::Ready(Err(e))) => {
                if e.is_interrupted() {
                    Ok(self.wait())
                } else {
                    Ok(self.fail(Error::Epoll(e)))
                }
            },
            (Phase::Draining(signal), Event::Drained(Ok(_))) => match signal {
                Signal::Exit => Ok(self.leave(ExitBehaviour::Shutdown)),
                Signal::Reset => Ok(self.leave(ExitBehaviour::Reset)),
                Signal::Api => {
                    self.phase = Phase::Receiving;
                    Ok(Action::Receive)
                },
            },
            (Phase::Draining(_), Event::Drained(Err(e))) => Ok(self.fail(Error::EventFdRead(e))),
            (Phase::ForwardingStdin, Event::VmDone(Ok(_))) => Ok(self.resume()),
            (Phase::ForwardingStdin, Event::VmDone(Err(e))) => Ok(self.fail(Error::Stdin(e))),
            (Phase::Receiving, Event::Received(Some(request))) => Ok(self.api_request(request)),
            (Phase::Receiving, Event::Received(None)) => Ok(self.fail(Error::ApiRequestRecv)),
            (Phase::ReadingConfig(task), Event::Config(config)) => {
                self.phase = Phase::ShuttingDown { task, rebuild: Some(config) };
                Ok(Action::Shutdown)
            },
            (Phase::ShuttingDown { task, rebuild }, Event::VmDone(Ok(_))) => match rebuild {
                Some(config) => {
                    self.phase = Phase::CloningExit { task, config };
                    Ok(Action::CloneSignal(Signal::Exit))
                },
                None => Ok(self.done(task)),
            },
            (Phase::ShuttingDown { task, .. }, Event::VmDone(Err(e))) => Ok(
                self.failed(task, Error::VmShutdown(e)),
            ),
            (Phase::CloningExit { task, config }, Event::Cloned(Ok(exit_evt))) => {
                self.phase = Phase::CloningReset { task, config, exit_evt };
                Ok(Action::CloneSignal(Signal::Reset))
            },
            (Phase::CloningExit { task, .. }, Event::Cloned(Err(e))) => Ok(
                self.failed(task, Error::EventFdClone(e)),
            ),
            (Phase::CloningReset { task, config, exit_evt }, Event::Cloned(Ok(reset_evt))) => {
                self.phase = Phase::CreatingVm(task);
                Ok(Action::CreateVm { config, exit_evt, reset_evt })
            },
            (Phase::CloningReset { task, .. }, Event::Cloned(Err(e))) => Ok(
                self.failed(task, Error::EventFdClone(e)),
            ),
            (Phase::CreatingVm(task), Event::VmCreated(Ok(vm))) => Ok(self.vm_created(task, vm)),
            (Phase::CreatingVm(task), Event::VmCreated(Err(e))) => Ok(
                self.failed(task, Error::VmCreate(e)),
            ),
            (Phase::Booting(task), Event::VmDone(Ok(_))) => Ok(self.done(task)),
            (Phase::Booting(task), Event::VmDone(Err(e))) => Ok(self.failed(task, Error::VmBoot(e))),
            (Phase::Replying, Event::Replied(Ok(_))) => Ok(self.resume()),
            (Phase::Replying, Event::Replied(Err(response))) => Ok(
                self.fail(Error::ApiResponseSend(response)),
            ),
            (phase, event) => {
                self.phase = phase;
                Err(event)
            },
        }
    }
}

} // verus!
