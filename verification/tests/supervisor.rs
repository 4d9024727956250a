//! The supervisor driven against a simulated host: counters for the three
//! signals, a queue of commands, and a VM that records what is done to it.

use std::cell::RefCell;
use std::collections::VecDeque;
use std::rc::Rc;
use vmm::{
    Action, ApiError, ApiRequest, ApiResponse, ApiResponsePayload, EpollDispatch, Error, Event,
    IoError, IoErrorKind, Phase, Setup, SetupAction, SetupEvent, SetupStep, Signal, Vmm,
};

type Log = Rc<RefCell<Vec<String>>>;

#[derive(Debug, Clone, PartialEq, Eq)]
struct Handle {
    signal: Signal,
    copy: u32,
}

#[derive(Debug, Clone, PartialEq, Eq, Default)]
struct Config {
    name: u32,
    fail_new: bool,
    fail_boot: bool,
    fail_shutdown: bool,
    fail_stdin: bool,
}

#[derive(Debug, PartialEq, Eq)]
struct MockVm {
    config: Config,
    exit_evt: Handle,
    reset_evt: Handle,
    log: Log,
}

impl MockVm {
    fn new(config: Config, exit_evt: Handle, reset_evt: Handle, log: &Log) -> Result<MockVm, String> {
        log.borrow_mut().push(format!("new({})", config.name));
        if config.fail_new {
            return Err(format!("cannot create {}", config.name));
        }
        Ok(MockVm { config, exit_evt, reset_evt, log: Rc::clone(log) })
    }

    fn boot(&mut self) -> Result<(), String> {
        self.log.borrow_mut().push(format!("boot({})", self.config.name));
        if self.config.fail_boot {
            return Err(format!("cannot boot {}", self.config.name));
        }
        Ok(())
    }

    fn shutdown(&mut self) -> Result<(), String> {
        self.log.borrow_mut().push(format!("shutdown({})", self.config.name));
        if self.config.fail_shutdown {
            return Err(format!("cannot shut down {}", self.config.name));
        }
        Ok(())
    }

    fn handle_stdin(&self) -> Result<(), String> {
        self.log.borrow_mut().push(format!("handle_stdin({})", self.config.name));
        if self.config.fail_stdin {
            return Err(format!("cannot read stdin for {}", self.config.name));
        }
        Ok(())
    }

    fn get_config(&self) -> Config {
        self.log.borrow_mut().push(format!("get_config({})", self.config.name));
        self.config.clone()
    }
}

type Reply = u32;
type Supervisor = Vmm<Handle, MockVm, Config, Reply>;
type Request = Action<Handle, Config, String, Reply>;
type Outcome = Event<Handle, MockVm, Config, String, Reply>;

#[derive(Debug, PartialEq, Eq)]
enum Status {
    /// Blocked in the demultiplexer: nothing is ready.
    Waiting,
    /// Blocked on the command channel: it is empty.
    Receiving,
    /// The supervisor has stopped.
    Stopped(Result<(), Error<String>>),
}

fn other(code: i32) -> IoError {
    IoError { kind: IoErrorKind::Other, code: Some(code) }
}

fn interrupted() -> IoError {
    IoError { kind: IoErrorKind::Interrupted, code: Some(4) }
}

struct Sim {
    vmm: Supervisor,
    next: Option<Request>,
    log: Log,
    asked: Vec<String>,
    registered: Vec<(u64, EpollDispatch)>,
    exit_count: u64,
    reset_count: u64,
    api_count: u64,
    stdin_bytes: u64,
    commands: VecDeque<ApiRequest<Config, Reply>>,
    channel_closed: bool,
    replies: Vec<(Reply, ApiResponse<String>)>,
    copies: u32,
    waits: u32,
    interruptions: u32,
    wait_error: Option<IoError>,
    register_error: Option<(EpollDispatch, IoError)>,
    drain_error: Option<(Signal, IoError)>,
    clone_error: Option<(Signal, IoError)>,
    reply_fails: bool,
}

impl Sim {
    fn new(stdin_is_tty: bool, acpi: bool) -> Sim {
        let (vmm, first) = build(stdin_is_tty, acpi, None).expect("a supervisor");
        Sim {
            vmm,
            next: Some(first),
            log: Rc::new(RefCell::new(Vec::new())),
            asked: Vec::new(),
            registered: Vec::new(),
            exit_count: 0,
            reset_count: 0,
            api_count: 0,
            stdin_bytes: 0,
            commands: VecDeque::new(),
            channel_closed: false,
            replies: Vec::new(),
            copies: 0,
            waits: 0,
            interruptions: 0,
            wait_error: None,
            register_error: None,
            drain_error: None,
            clone_error: None,
            reply_fails: false,
        }
    }

    /// A supervisor that has registered its descriptors and blocks in its
    /// first wait.
    fn started(stdin_is_tty: bool, acpi: bool) -> Sim {
        let mut sim = Sim::new(stdin_is_tty, acpi);
        assert_eq!(sim.drive(), Status::Waiting);
        sim
    }

    /// Queues a command and signals the supervisor, as the producer does.
    fn send(&mut self, command: ApiRequest<Config, Reply>) {
        self.commands.push_back(command);
        self.api_count += 1;
    }

    /// Sends a command and runs the supervisor until it waits again.
    fn command(&mut self, command: ApiRequest<Config, Reply>) {
        self.send(command);
        assert_eq!(self.drive(), Status::Waiting);
    }

    fn ready(&self) -> Vec<u64> {
        let mut ready = Vec::new();
        for (index, token) in &self.registered {
            let count = match token {
                EpollDispatch::Exit => self.exit_count,
                EpollDispatch::Reset => self.reset_count,
                EpollDispatch::Api => self.api_count,
                EpollDispatch::Stdin => self.stdin_bytes,
            };
            if count > 0 {
                ready.push(*index);
            }
        }
        ready
    }

    fn counter(&mut self, signal: Signal) -> &mut u64 {
        match signal {
            Signal::Exit => &mut self.exit_count,
            Signal::Reset => &mut self.reset_count,
            Signal::Api => &mut self.api_count,
        }
    }

    /// Makes the host call that `action` stands for. `None` where the call
    /// blocks.
    fn perform(&mut self, action: &mut Option<Request>) -> Option<Outcome> {
        let event = match action.take().expect("an action") {
            Action::Register { token, index } => {
                self.asked.push(format!("register({:?}, {})", token, index));
                match self.register_error {
                    Some((t, e)) if t == token => Event::Registered(Err(e)),
                    _ => {
                        self.registered.push((index, token));
                        Event::Registered(Ok(()))
                    }
                }
            }
            Action::Wait { max_events, timeout } => {
                assert_eq!(max_events, 100);
                assert_eq!(timeout, -1);
                if self.interruptions > 0 {
                    self.interruptions -= 1;
                    self.waits += 1;
                    self.asked.push("wait".to_string());
                    Event::Ready(Err(interrupted()))
                } else if let Some(e) = self.wait_error.take() {
                    self.waits += 1;
                    self.asked.push("wait".to_string());
                    Event::Ready(Err(e))
                } else {
                    let ready = self.ready();
                    if ready.is_empty() {
                        *action = Some(Action::Wait { max_events, timeout });
                        return None;
                    }
                    self.waits += 1;
                    self.asked.push("wait".to_string());
                    Event::Ready(Ok(ready))
                }
            }
            Action::Drain(signal) => {
                self.asked.push(format!("drain({:?})", signal));
                assert_eq!(self.vmm.signal(signal), &Handle { signal, copy: 0 });
                match self.drain_error {
                    Some((s, e)) if s == signal => Event::Drained(Err(e)),
                    _ => {
                        let counter = self.counter(signal);
                        let count = *counter;
                        *counter = 0;
                        Event::Drained(Ok(count))
                    }
                }
            }
            Action::HandleStdin => {
                self.asked.push("handle_stdin".to_string());
                self.stdin_bytes = 0;
                Event::VmDone(self.vmm.vm().expect("a VM to forward to").handle_stdin())
            }
            Action::Receive => {
                self.asked.push("receive".to_string());
                if self.channel_closed {
                    Event::Received(None)
                } else {
                    match self.commands.pop_front() {
                        Some(command) => Event::Received(Some(command)),
                        None => {
                            *action = Some(Action::Receive);
                            return None;
                        }
                    }
                }
            }
            Action::GetConfig => {
                self.asked.push("get_config".to_string());
                Event::Config(self.vmm.vm().expect("a VM to ask").get_config())
            }
            Action::Shutdown => {
                self.asked.push("shutdown".to_string());
                Event::VmDone(self.vmm.vm_mut().expect("a VM to shut down").shutdown())
            }
            Action::CloneSignal(signal) => {
                self.asked.push(format!("clone({:?})", signal));
                match self.clone_error {
                    Some((s, e)) if s == signal => Event::Cloned(Err(e)),
                    _ => {
                        self.copies += 1;
                        let own = self.vmm.signal(signal);
                        Event::Cloned(Ok(Handle { signal: own.signal, copy: self.copies }))
                    }
                }
            }
            Action::CreateVm { config, exit_evt, reset_evt } => {
                self.asked.push(format!("create({})", config.name));
                Event::VmCreated(MockVm::new(config, exit_evt, reset_evt, &self.log))
            }
            Action::Boot => {
                self.asked.push("boot".to_string());
                Event::VmDone(self.vmm.vm_mut().expect("a VM to boot").boot())
            }
            Action::Reply { to, response } => {
                self.asked.push(format!("reply({})", to));
                if self.reply_fails {
                    Event::Replied(Err(response))
                } else {
                    self.replies.push((to, response));
                    Event::Replied(Ok(()))
                }
            }
            Action::Finish(result) => {
                *action = Some(Action::Finish(result));
                return None;
            }
        };
        Some(event)
    }

    /// Runs the supervisor until it blocks or stops.
    fn drive(&mut self) -> Status {
        loop {
            let mut action = self.next.take();
            match self.perform(&mut action) {
                Some(event) => {
                    let asked = self.vmm.step(event).expect("the outcome of what was asked");
                    self.next = Some(asked);
                }
                None => {
                    let status = match action {
                        Some(Action::Wait { .. }) => Status::Waiting,
                        Some(Action::Receive) => Status::Receiving,
                        Some(Action::Finish(Ok(()))) => Status::Stopped(Ok(())),
                        Some(Action::Finish(Err(e))) => {
                            self.next = None;
                            return Status::Stopped(Err(e));
                        }
                        _ => unreachable!(),
                    };
                    self.next = action;
                    return status;
                }
            }
        }
    }

    fn vm_log(&self) -> Vec<String> {
        self.log.borrow().clone()
    }

    fn token_at(&self, index: u64) -> Option<EpollDispatch> {
        self.vmm.epoll().dispatch(index)
    }
}

/// Builds a supervisor on a host where the call that `failing` names fails.
fn build(
    stdin_is_tty: bool,
    acpi: bool,
    failing: Option<SetupAction>,
) -> Result<(Supervisor, Request), (Error<String>, Vec<SetupAction>)> {
    let mut asked = Vec::new();
    let (mut setup, mut action) = Setup::new(Handle { signal: Signal::Api, copy: 0 }, acpi);
    loop {
        asked.push(action);
        let fails = failing == Some(action);
        let outcome = match action {
            SetupAction::CreateDemux { .. } => {
                SetupEvent::DemuxCreated(if fails { Err(other(24)) } else { Ok(9) })
            }
            SetupAction::CreateSignal { which, .. } => SetupEvent::SignalCreated(if fails {
                Err(other(23))
            } else {
                Ok(Handle { signal: which, copy: 0 })
            }),
            SetupAction::ProbeStdin => SetupEvent::StdinProbed(stdin_is_tty),
        };
        match setup.step(outcome) {
            SetupStep::Ask(next, ask) => {
                setup = next;
                action = ask;
            }
            SetupStep::Built(vmm, first) => return Ok((vmm, first)),
            SetupStep::Failed(e) => return Err((e, asked)),
            SetupStep::Refused(..) => unreachable!(),
        }
    }
}

fn config(name: u32) -> Config {
    Config { name, ..Config::default() }
}

fn texts(items: &[&str]) -> Vec<String> {
    items.iter().map(|s| s.to_string()).collect()
}

fn ok() -> ApiResponse<String> {
    Ok(ApiResponsePayload::Empty)
}

#[test]
fn setup_creates_demux_then_exit_then_reset() {
    let create_demux = SetupAction::CreateDemux { cloexec: true };
    let create_exit = SetupAction::CreateSignal { which: Signal::Exit, nonblocking: true };
    let create_reset = SetupAction::CreateSignal { which: Signal::Reset, nonblocking: true };

    let (setup, first) = Setup::new(Handle { signal: Signal::Api, copy: 0 }, true);
    assert_eq!(first, create_demux);
    assert_eq!(setup, Setup::CreatingDemux { api_evt: Handle { signal: Signal::Api, copy: 0 }, acpi: true });

    let (vmm, first) = build(true, false, None).expect("a supervisor");
    assert_eq!(first, Action::Register { token: EpollDispatch::Stdin, index: 1 });
    assert_eq!(vmm.epoll().as_raw_fd(), 9);
    assert_eq!(vmm.epoll().next_index(), 1);
    assert_eq!(vmm.signal(Signal::Exit), &Handle { signal: Signal::Exit, copy: 0 });
    assert_eq!(vmm.signal(Signal::Reset), &Handle { signal: Signal::Reset, copy: 0 });
    assert_eq!(vmm.signal(Signal::Api), &Handle { signal: Signal::Api, copy: 0 });
    assert!(!vmm.has_vm());
    assert!(!vmm.acpi());
    assert_eq!(vmm.phase(), &Phase::Registering(EpollDispatch::Stdin));

    let (vmm, first) = build(false, true, None).expect("a supervisor");
    assert_eq!(first, Action::Register { token: EpollDispatch::Exit, index: 1 });
    assert!(vmm.acpi());

    assert_eq!(
        build(false, true, Some(create_demux)).err(),
        Some((Error::Epoll(other(24)), vec![create_demux]))
    );
    assert_eq!(
        build(false, true, Some(create_exit)).err(),
        Some((Error::EventFdCreate(other(23)), vec![create_demux, create_exit]))
    );
    assert_eq!(
        build(true, true, Some(create_reset)).err(),
        Some((Error::EventFdCreate(other(23)), vec![create_demux, create_exit, create_reset]))
    );
}

#[test]
fn setup_refuses_what_it_did_not_ask_for() {
    let (setup, _) = Setup::new(Handle { signal: Signal::Api, copy: 0 }, true);
    let setup = match setup.step::<MockVm, Config, String, Reply>(SetupEvent::StdinProbed(true)) {
        SetupStep::Refused(setup, event) => {
            assert_eq!(event, SetupEvent::StdinProbed(true));
            setup
        }
        _ => panic!("the set-up took an outcome that it had not asked for"),
    };
    let setup = match setup.step::<MockVm, Config, String, Reply>(SetupEvent::DemuxCreated(Ok(5))) {
        SetupStep::Ask(setup, action) => {
            assert_eq!(action, SetupAction::CreateSignal { which: Signal::Exit, nonblocking: true });
            setup
        }
        _ => panic!("the set-up did not go on"),
    };
    match setup.step::<MockVm, Config, String, Reply>(SetupEvent::DemuxCreated(Ok(6))) {
        SetupStep::Refused(setup, _) => assert_eq!(
            setup,
            Setup::CreatingExit {
                epoll_fd: 5,
                api_evt: Handle { signal: Signal::Api, copy: 0 },
                acpi: true
            }
        ),
        _ => panic!("the set-up took a second demultiplexer"),
    }
}

#[test]
fn construction_without_tty_registers_three_descriptors() {
    let sim = Sim::started(false, true);
    assert_eq!(
        sim.asked,
        texts(&["register(Exit, 1)", "register(Reset, 2)", "register(Api, 3)"])
    );
    assert_eq!(sim.vmm.epoll().next_index(), 4);
    assert_eq!(sim.token_at(0), None);
    assert_eq!(sim.token_at(1), Some(EpollDispatch::Exit));
    assert_eq!(sim.token_at(2), Some(EpollDispatch::Reset));
    assert_eq!(sim.token_at(3), Some(EpollDispatch::Api));
    assert_eq!(sim.token_at(4), None);
    assert_eq!(sim.vmm.epoll().as_raw_fd(), 9);
    assert!(!sim.vmm.has_vm());
    assert_eq!(sim.vmm.phase(), &Phase::Waiting);
}

#[test]
fn construction_with_tty_registers_stdin_first() {
    let sim = Sim::started(true, true);
    assert_eq!(
        sim.asked,
        texts(&["register(Stdin, 1)", "register(Exit, 2)", "register(Reset, 3)", "register(Api, 4)"])
    );
    assert_eq!(sim.vmm.epoll().next_index(), 5);
    assert_eq!(sim.token_at(0), None);
    assert_eq!(sim.token_at(1), Some(EpollDispatch::Stdin));
    assert_eq!(sim.token_at(2), Some(EpollDispatch::Exit));
    assert_eq!(sim.token_at(3), Some(EpollDispatch::Reset));
    assert_eq!(sim.token_at(4), Some(EpollDispatch::Api));
    assert_eq!(sim.token_at(5), None);
}

#[test]
fn failed_registration_aborts_construction() {
    let mut sim = Sim::new(true, true);
    sim.register_error = Some((EpollDispatch::Reset, other(28)));
    assert_eq!(sim.drive(), Status::Stopped(Err(Error::Epoll(other(28)))));
    assert_eq!(sim.asked, texts(&["register(Stdin, 1)", "register(Exit, 2)", "register(Reset, 3)"]));
    assert!(sim.vmm.is_finished());
    assert_eq!(sim.token_at(3), None);
}

#[test]
fn boot_then_shutdown_via_api() {
    let mut sim = Sim::started(false, true);
    sim.send(ApiRequest::VmCreate(config(1), 1));
    assert_eq!(sim.drive(), Status::Waiting);
    assert_eq!(sim.replies, vec![(1, ok())]);
    sim.send(ApiRequest::VmBoot(2));
    assert_eq!(sim.drive(), Status::Waiting);
    assert_eq!(sim.replies, vec![(1, ok()), (2, ok())]);
    sim.exit_count += 1;
    assert_eq!(sim.drive(), Status::Stopped(Ok(())));
    assert_eq!(sim.vm_log(), texts(&["new(1)", "boot(1)", "shutdown(1)"]));
    assert_eq!(sim.vm_log().iter().filter(|call| call.starts_with("shutdown")).count(), 1);
    assert_eq!(sim.exit_count, 0);
    assert!(sim.vmm.is_finished());
}

#[test]
fn reboot_cycle() {
    let mut sim = Sim::started(false, true);
    sim.command(ApiRequest::VmCreate(config(7), 1));
    sim.command(ApiRequest::VmBoot(2));
    assert_eq!(sim.replies, vec![(1, ok()), (2, ok())]);
    let waits = sim.waits;
    sim.asked.clear();
    sim.reset_count += 1;
    assert_eq!(sim.drive(), Status::Waiting);
    assert_eq!(
        sim.vm_log(),
        texts(&["new(7)", "boot(7)", "get_config(7)", "shutdown(7)", "new(7)", "boot(7)"])
    );
    assert_eq!(
        sim.asked,
        texts(&[
            "wait",
            "drain(Reset)",
            "get_config",
            "shutdown",
            "clone(Exit)",
            "clone(Reset)",
            "create(7)",
            "boot",
        ])
    );
    assert_eq!(sim.waits, waits + 1);
    assert_eq!(sim.reset_count, 0);
    // The new VM holds the duplicates made for it, and the supervisor its own
    // three handles.
    let vm = sim.vmm.vm().expect("a VM");
    assert_eq!(vm.config, config(7));
    assert_eq!(vm.exit_evt, Handle { signal: Signal::Exit, copy: 3 });
    assert_eq!(vm.reset_evt, Handle { signal: Signal::Reset, copy: 4 });
    assert_eq!(sim.vmm.signal(Signal::Exit), &Handle { signal: Signal::Exit, copy: 0 });
    assert_eq!(sim.vmm.signal(Signal::Reset), &Handle { signal: Signal::Reset, copy: 0 });
    assert_eq!(sim.vmm.signal(Signal::Api), &Handle { signal: Signal::Api, copy: 0 });
    assert_eq!(sim.token_at(1), Some(EpollDispatch::Exit));
    assert_eq!(sim.token_at(2), Some(EpollDispatch::Reset));
    assert_eq!(sim.token_at(3), Some(EpollDispatch::Api));
    assert_eq!(sim.vmm.epoll().next_index(), 4);
    assert_eq!(sim.vmm.phase(), &Phase::Waiting);
    // A second reset goes the same way.
    sim.reset_count += 1;
    assert_eq!(sim.drive(), Status::Waiting);
    assert_eq!(sim.vm_log().len(), 10);
    assert_eq!(sim.vmm.vm().expect("a VM").exit_evt, Handle { signal: Signal::Exit, copy: 5 });
}

#[test]
fn interrupted_wait() {
    let mut sim = Sim::started(false, true);
    sim.interruptions = 1;
    sim.exit_count += 1;
    assert_eq!(sim.drive(), Status::Stopped(Ok(())));
    assert_eq!(sim.waits, 2);
    assert_eq!(
        sim.asked,
        texts(&[
            "register(Exit, 1)",
            "register(Reset, 2)",
            "register(Api, 3)",
            "wait",
            "wait",
            "drain(Exit)",
        ])
    );
}

#[test]
fn many_interrupted_waits_are_all_retried() {
    let mut sim = Sim::started(true, false);
    sim.interruptions = 50;
    assert_eq!(sim.drive(), Status::Waiting);
    assert_eq!(sim.waits, 50);
    assert_eq!(sim.vmm.phase(), &Phase::Waiting);
    assert!(!sim.vmm.is_finished());
}

#[test]
fn failed_wait_is_fatal() {
    let mut sim = Sim::started(false, true);
    sim.wait_error = Some(other(9));
    assert_eq!(sim.drive(), Status::Stopped(Err(Error::Epoll(other(9)))));
    assert!(sim.vmm.is_finished());
}

#[test]
fn vm_level_boot_failure() {
    let mut sim = Sim::started(false, true);
    sim.send(ApiRequest::VmBoot(1));
    assert_eq!(sim.drive(), Status::Waiting);
    assert_eq!(sim.replies, vec![]);
    assert_eq!(sim.vm_log(), texts(&[]));
    sim.send(ApiRequest::VmCreate(Config { name: 3, fail_new: true, ..Config::default() }, 2));
    assert_eq!(sim.drive(), Status::Waiting);
    assert_eq!(
        sim.replies,
        vec![(2, Err(ApiError::VmCreate("cannot create 3".to_string())))]
    );
    assert!(!sim.vmm.has_vm());
    assert!(!sim.vmm.is_finished());
    assert_eq!(sim.vmm.phase(), &Phase::Waiting);
}

#[test]
fn shutdown_without_vm_gets_no_reply() {
    let mut sim = Sim::started(false, true);
    sim.send(ApiRequest::VmShutdown(1));
    assert_eq!(sim.drive(), Status::Waiting);
    assert_eq!(sim.replies, vec![]);
    assert_eq!(sim.vm_log(), texts(&[]));
    assert_eq!(sim.api_count, 0);
}

#[test]
fn reboot_failure_is_fatal() {
    let mut sim = Sim::started(false, true);
    sim.command(ApiRequest::VmCreate(config(4), 1));
    sim.command(ApiRequest::VmBoot(2));
    // The configuration that the VM gives back no longer builds.
    sim.vmm.vm_mut().expect("a VM").config.fail_new = true;
    sim.reset_count += 1;
    assert_eq!(
        sim.drive(),
        Status::Stopped(Err(Error::VmCreate("cannot create 4".to_string())))
    );
    assert_eq!(
        sim.vm_log(),
        texts(&["new(4)", "boot(4)", "get_config(4)", "shutdown(4)", "new(4)"])
    );
    // The old VM, shut down, is still in its place.
    assert!(sim.vmm.has_vm());
    assert_eq!(sim.vmm.vm().expect("a VM").exit_evt, Handle { signal: Signal::Exit, copy: 1 });
}

#[test]
fn reboot_boot_failure_is_fatal() {
    let mut sim = Sim::started(false, true);
    sim.send(ApiRequest::VmCreate(config(4), 1));
    assert_eq!(sim.drive(), Status::Waiting);
    sim.vmm.vm_mut().expect("a VM").config.fail_boot = true;
    sim.reset_count += 1;
    assert_eq!(sim.drive(), Status::Stopped(Err(Error::VmBoot("cannot boot 4".to_string()))));
    assert_eq!(sim.vm_log(), texts(&["new(4)", "get_config(4)", "shutdown(4)", "new(4)", "boot(4)"]));
    assert_eq!(sim.vmm.vm().expect("a VM").exit_evt, Handle { signal: Signal::Exit, copy: 3 });
}

#[test]
fn reboot_shutdown_failure_is_fatal() {
    let mut sim = Sim::started(false, true);
    sim.send(ApiRequest::VmCreate(Config { name: 4, fail_shutdown: true, ..Config::default() }, 1));
    assert_eq!(sim.drive(), Status::Waiting);
    sim.reset_count += 1;
    assert_eq!(
        sim.drive(),
        Status::Stopped(Err(Error::VmShutdown("cannot shut down 4".to_string())))
    );
    assert_eq!(sim.vm_log(), texts(&["new(4)", "get_config(4)", "shutdown(4)"]));
}

#[test]
fn reboot_clone_failure_is_fatal() {
    let mut sim = Sim::started(false, true);
    sim.send(ApiRequest::VmCreate(config(4), 1));
    assert_eq!(sim.drive(), Status::Waiting);
    sim.clone_error = Some((Signal::Reset, other(24)));
    sim.reset_count += 1;
    assert_eq!(sim.drive(), Status::Stopped(Err(Error::EventFdClone(other(24)))));
    assert_eq!(sim.vm_log(), texts(&["new(4)", "get_config(4)", "shutdown(4)"]));
}

#[test]
fn stdin_forwarding() {
    let mut sim = Sim::started(true, true);
    sim.send(ApiRequest::VmCreate(config(2), 1));
    assert_eq!(sim.drive(), Status::Waiting);
    sim.stdin_bytes = 1;
    assert_eq!(sim.drive(), Status::Waiting);
    assert_eq!(sim.vm_log(), texts(&["new(2)", "handle_stdin(2)"]));
    sim.stdin_bytes = 1;
    assert_eq!(sim.drive(), Status::Waiting);
    sim.stdin_bytes = 3;
    assert_eq!(sim.drive(), Status::Waiting);
    assert_eq!(
        sim.vm_log(),
        texts(&["new(2)", "handle_stdin(2)", "handle_stdin(2)", "handle_stdin(2)"])
    );
}

#[test]
fn stdin_failure_is_fatal() {
    let mut sim = Sim::started(true, true);
    sim.send(ApiRequest::VmCreate(Config { name: 2, fail_stdin: true, ..Config::default() }, 1));
    assert_eq!(sim.drive(), Status::Waiting);
    sim.stdin_bytes = 1;
    assert_eq!(
        sim.drive(),
        Status::Stopped(Err(Error::Stdin("cannot read stdin for 2".to_string())))
    );
}

#[test]
fn stdin_without_vm_is_ignored() {
    let mut sim = Sim::started(true, true);
    let (mut vmm, _) = Supervisor::new::<String>(
        9,
        Handle { signal: Signal::Exit, copy: 0 },
        Handle { signal: Signal::Reset, copy: 0 },
        Handle { signal: Signal::Api, copy: 0 },
        true,
        true,
    );
    for _ in 0..4 {
        vmm.step(Outcome::Registered(Ok(()))).expect("accepted");
    }
    // Keyboard input alone, with no VM: the supervisor waits again.
    assert_eq!(
        vmm.step(Outcome::Ready(Ok(vec![1]))),
        Ok(Action::Wait { max_events: 100, timeout: -1 })
    );
    // Keyboard input and a command in one batch: only the command is attended to.
    assert_eq!(vmm.step(Outcome::Ready(Ok(vec![1, 4]))), Ok(Action::Drain(Signal::Api)));
    sim.stdin_bytes = 0;
    assert_eq!(sim.vm_log(), texts(&[]));
}

#[test]
fn every_command_gets_one_reply() {
    let mut sim = Sim::started(false, true);
    sim.command(ApiRequest::VmBoot(1));
    sim.command(ApiRequest::VmCreate(config(1), 2));
    sim.command(ApiRequest::VmBoot(3));
    sim.command(ApiRequest::VmReboot(4));
    sim.command(ApiRequest::VmShutdown(5));
    sim.command(ApiRequest::VmCreate(Config { name: 2, fail_new: true, ..Config::default() }, 6));
    sim.command(ApiRequest::VmCreate(Config { name: 3, fail_boot: true, ..Config::default() }, 7));
    sim.command(ApiRequest::VmBoot(8));
    assert_eq!(
        sim.replies,
        vec![
            (2, ok()),
            (3, ok()),
            (4, ok()),
            (5, ok()),
            (6, Err(ApiError::VmCreate("cannot create 2".to_string()))),
            (7, ok()),
            (8, Err(ApiError::VmBoot("cannot boot 3".to_string()))),
        ]
    );
    assert_eq!(
        sim.vm_log(),
        texts(&[
            "new(1)",
            "boot(1)",
            "get_config(1)",
            "shutdown(1)",
            "new(1)",
            "boot(1)",
            "shutdown(1)",
            "new(2)",
            "new(3)",
            "boot(3)",
        ])
    );
    assert_eq!(sim.commands.len(), 0);
    assert_eq!(sim.asked.iter().filter(|call| call.starts_with("reply")).count(), 7);
}

#[test]
fn one_command_is_taken_per_wake() {
    let mut sim = Sim::started(false, true);
    sim.send(ApiRequest::VmCreate(config(1), 1));
    sim.send(ApiRequest::VmBoot(2));
    // Both signals are read as one count, so only the first command is taken.
    assert_eq!(sim.drive(), Status::Waiting);
    assert_eq!(sim.replies, vec![(1, ok())]);
    assert_eq!(sim.commands.len(), 1);
    sim.api_count += 1;
    assert_eq!(sim.drive(), Status::Waiting);
    assert_eq!(sim.replies, vec![(1, ok()), (2, ok())]);
}

#[test]
fn signal_without_command_blocks_on_the_channel() {
    let mut sim = Sim::started(false, true);
    sim.api_count += 1;
    assert_eq!(sim.drive(), Status::Receiving);
    assert_eq!(sim.vmm.phase(), &Phase::Receiving);
    sim.commands.push_back(ApiRequest::VmCreate(config(1), 1));
    assert_eq!(sim.drive(), Status::Waiting);
    assert_eq!(sim.replies, vec![(1, ok())]);
}

#[test]
fn closed_channel_is_fatal() {
    let mut sim = Sim::started(false, true);
    sim.channel_closed = true;
    sim.api_count += 1;
    assert_eq!(sim.drive(), Status::Stopped(Err(Error::ApiRequestRecv)));
}

#[test]
fn undelivered_reply_is_fatal() {
    let mut sim = Sim::started(false, true);
    sim.reply_fails = true;
    sim.send(ApiRequest::VmCreate(config(1), 1));
    assert_eq!(sim.drive(), Status::Stopped(Err(Error::ApiResponseSend(ok()))));
    assert_eq!(sim.replies, vec![]);
    assert!(sim.vmm.has_vm());
}

#[test]
fn failed_drain_is_fatal() {
    let mut sim = Sim::started(false, true);
    sim.drain_error = Some((Signal::Api, other(11)));
    sim.send(ApiRequest::VmCreate(config(1), 1));
    assert_eq!(sim.drive(), Status::Stopped(Err(Error::EventFdRead(other(11)))));
    assert_eq!(sim.commands.len(), 1);

    let mut sim = Sim::started(false, true);
    sim.send(ApiRequest::VmCreate(config(1), 1));
    assert_eq!(sim.drive(), Status::Waiting);
    sim.drain_error = Some((Signal::Exit, other(12)));
    sim.exit_count += 1;
    assert_eq!(sim.drive(), Status::Stopped(Err(Error::EventFdRead(other(12)))));
    // The loop ended in an error, so the VM was not shut down.
    assert_eq!(sim.vm_log(), texts(&["new(1)"]));
}

#[test]
fn clone_failure_during_create_is_fatal_and_unanswered() {
    let mut sim = Sim::started(false, true);
    sim.clone_error = Some((Signal::Exit, other(24)));
    sim.send(ApiRequest::VmCreate(config(1), 1));
    assert_eq!(sim.drive(), Status::Stopped(Err(Error::EventFdClone(other(24)))));
    assert_eq!(sim.replies, vec![]);
    assert_eq!(sim.vm_log(), texts(&[]));
}

#[test]
fn create_replaces_an_existing_vm() {
    let mut sim = Sim::started(false, true);
    sim.send(ApiRequest::VmCreate(config(1), 1));
    assert_eq!(sim.drive(), Status::Waiting);
    sim.send(ApiRequest::VmCreate(config(2), 2));
    assert_eq!(sim.drive(), Status::Waiting);
    assert_eq!(sim.replies, vec![(1, ok()), (2, ok())]);
    // The first VM is replaced without being shut down.
    assert_eq!(sim.vm_log(), texts(&["new(1)", "new(2)"]));
    assert_eq!(sim.vmm.vm().expect("a VM").config, config(2));
}

#[test]
fn failed_create_keeps_the_existing_vm() {
    let mut sim = Sim::started(false, true);
    sim.send(ApiRequest::VmCreate(config(1), 1));
    assert_eq!(sim.drive(), Status::Waiting);
    sim.send(ApiRequest::VmCreate(Config { name: 2, fail_new: true, ..Config::default() }, 2));
    assert_eq!(sim.drive(), Status::Waiting);
    assert_eq!(sim.vmm.vm().expect("a VM").config, config(1));
    assert_eq!(
        sim.replies,
        vec![(1, ok()), (2, Err(ApiError::VmCreate("cannot create 2".to_string())))]
    );
}

#[test]
fn command_failures_are_answered_and_not_fatal() {
    let mut sim = Sim::started(false, true);
    sim.command(ApiRequest::VmCreate(
        Config { name: 1, fail_boot: true, fail_shutdown: true, ..Config::default() },
        1,
    ));
    sim.command(ApiRequest::VmBoot(2));
    sim.command(ApiRequest::VmShutdown(3));
    sim.command(ApiRequest::VmReboot(4));
    assert_eq!(
        sim.replies,
        vec![
            (1, ok()),
            (2, Err(ApiError::VmBoot("cannot boot 1".to_string()))),
            (3, Err(ApiError::VmShutdown("cannot shut down 1".to_string()))),
            (4, Err(ApiError::VmReboot)),
        ]
    );
    assert!(!sim.vmm.is_finished());
}

#[test]
fn reboot_command_hides_a_clone_failure() {
    let mut sim = Sim::started(false, true);
    sim.send(ApiRequest::VmCreate(config(1), 1));
    assert_eq!(sim.drive(), Status::Waiting);
    sim.clone_error = Some((Signal::Exit, other(24)));
    sim.send(ApiRequest::VmReboot(2));
    assert_eq!(sim.drive(), Status::Waiting);
    assert_eq!(sim.replies, vec![(1, ok()), (2, Err(ApiError::VmReboot))]);
    assert_eq!(sim.vm_log(), texts(&["new(1)", "get_config(1)", "shutdown(1)"]));
}

#[test]
fn reboot_command_without_vm_succeeds() {
    let mut sim = Sim::started(false, true);
    sim.send(ApiRequest::VmReboot(1));
    assert_eq!(sim.drive(), Status::Waiting);
    assert_eq!(sim.replies, vec![(1, ok())]);
    assert_eq!(sim.vm_log(), texts(&[]));
}

#[test]
fn reset_without_vm_waits_again() {
    let mut sim = Sim::started(false, true);
    sim.reset_count += 2;
    assert_eq!(sim.drive(), Status::Waiting);
    assert_eq!(sim.reset_count, 0);
    assert_eq!(sim.vm_log(), texts(&[]));
    assert!(!sim.vmm.is_finished());
}

#[test]
fn exit_without_vm_stops_at_once() {
    let mut sim = Sim::started(false, true);
    sim.exit_count += 1;
    assert_eq!(sim.drive(), Status::Stopped(Ok(())));
    assert_eq!(sim.vm_log(), texts(&[]));
}

#[test]
fn failed_final_shutdown_is_reported() {
    let mut sim = Sim::started(false, true);
    sim.send(ApiRequest::VmCreate(Config { name: 1, fail_shutdown: true, ..Config::default() }, 1));
    assert_eq!(sim.drive(), Status::Waiting);
    sim.exit_count += 1;
    assert_eq!(
        sim.drive(),
        Status::Stopped(Err(Error::VmShutdown("cannot shut down 1".to_string())))
    );
}

#[test]
fn reboot_without_acpi_is_a_shutdown() {
    let mut sim = Sim::started(false, false);
    assert!(!sim.vmm.acpi());
    sim.send(ApiRequest::VmCreate(config(1), 1));
    assert_eq!(sim.drive(), Status::Waiting);
    sim.reset_count += 1;
    assert_eq!(sim.drive(), Status::Waiting);
    assert_eq!(sim.vm_log(), texts(&["new(1)", "shutdown(1)"]));
    sim.send(ApiRequest::VmReboot(2));
    assert_eq!(sim.drive(), Status::Waiting);
    assert_eq!(sim.vm_log(), texts(&["new(1)", "shutdown(1)", "shutdown(1)"]));
    assert_eq!(sim.replies, vec![(1, ok()), (2, ok())]);
    assert!(sim.vmm.has_vm());
    assert_eq!(sim.copies, 2);
}

#[test]
fn exit_discards_the_rest_of_the_batch() {
    let mut sim = Sim::started(false, true);
    sim.send(ApiRequest::VmCreate(config(1), 1));
    sim.exit_count += 1;
    sim.reset_count += 1;
    // Exit is registered first, so it comes first in the batch.
    assert_eq!(sim.drive(), Status::Stopped(Ok(())));
    assert_eq!(sim.replies, vec![]);
    assert_eq!(sim.commands.len(), 1);
    assert_eq!(sim.reset_count, 1);
    assert_eq!(sim.api_count, 1);
}

#[test]
fn reset_discards_the_rest_of_the_batch_until_the_next_wait() {
    let mut sim = Sim::started(false, true);
    sim.send(ApiRequest::VmCreate(config(1), 1));
    sim.reset_count += 1;
    // Reset comes before the command in the batch: the command is left for
    // the next wait, where its signal is still up.
    assert_eq!(sim.drive(), Status::Waiting);
    assert_eq!(sim.replies, vec![(1, ok())]);
    assert_eq!(sim.waits, 2);
    assert_eq!(sim.vm_log(), texts(&["new(1)"]));
}
