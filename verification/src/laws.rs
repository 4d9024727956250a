//! What holds of every run of the supervisor.
//!
//! Each proof function here states one law over [`VmmView::step`] and
//! [`VmmView::run`], for every state and every outcome of the host's calls.

use crate::api::{ApiError, ApiRequest, ApiResponsePayload};
use crate::dispatch::{lookup, reserved, EpollDispatch};
use crate::error::{Error, IoError};
use crate::model::VmmView;
use crate::protocol::{
    Action, Event, ExitBehaviour, Phase, Signal, Task, EPOLL_EVENTS_LEN, WAIT_FOREVER,
};
use crate::setup::{Setup, SetupAction, SetupEvent, SetupPlan};
use vstd::prelude::*;

verus! {

impl<H, V, C, S> VmmView<H, V, C, S> {
    /// The supervisor after it was told `events` one after another, and what
    /// it asked for on the way. An event that is handed back asks for
    /// nothing.
    pub open spec fn run<E>(self, events: Seq<Event<H, V, C, E, S>>) -> (
        Self,
        Seq<Action<H, C, E, S>>,
    )
        decreases events.len(),
    {
        if events.len() == 0 {
            (self, Seq::empty())
        } else {
            let before = self.run(events.drop_last());
            let after = before.0.step(events.last());
            match after.1 {
                Ok(action) => (after.0, before.1.push(action)),
                Err(_) => (after.0, before.1),
            }
        }
    }

    /// Whether `event` is a command that the supervisor takes up and owes an
    /// answer to: any command but one to boot or shut down a VM that is not
    /// there.
    pub open spec fn takes_up<E>(self, event: Event<H, V, C, E, S>) -> bool {
        self.phase is Receiving && match event {
            Event::Received(Some(ApiRequest::VmBoot(_))) => self.vm is Some,
            Event::Received(Some(ApiRequest::VmShutdown(_))) => self.vm is Some,
            Event::Received(Some(_)) => true,
            _ => false,
        }
    }

    /// The number of commands that the supervisor takes up while it is told
    /// `events`.
    pub open spec fn taken_up<E>(self, events: Seq<Event<H, V, C, E, S>>) -> nat
        decreases events.len(),
    {
        if events.len() == 0 {
            0
        } else {
            let before = self.run(events.drop_last()).0;
            self.taken_up(events.drop_last()) + if before.takes_up(events.last()) {
                1nat
            } else {
                0nat
            }
        }
    }

    /// The number of answers that the supervisor owes: one while a command
    /// is in progress.
    pub open spec fn owing(self) -> nat {
        if self.phase.owes() is Some {
            1
        } else {
            0
        }
    }
}

/// The number of answers among `actions`.
pub open spec fn answers<H, C, E, S>(actions: Seq<Action<H, C, E, S>>) -> nat
    decreases actions.len(),
{
    if actions.len() == 0 {
        0
    } else {
        answers(actions.drop_last()) + if actions.last() is Reply {
            1nat
        } else {
            0nat
        }
    }
}

/// The number of times that `actions` stop the supervisor with an error.
pub open spec fn faults<H, C, E, S>(actions: Seq<Action<H, C, E, S>>) -> nat
    decreases actions.len(),
{
    if actions.len() == 0 {
        0
    } else {
        faults(actions.drop_last()) + if actions.last() matches Action::Finish(Err(_)) {
            1nat
        } else {
            0nat
        }
    }
}

/// Whether `event` is a wait that a signal interrupted.
pub open spec fn interrupted_wait<H, V, C, E, S>(event: Event<H, V, C, E, S>) -> bool {
    event matches Event::Ready(Err(e)) && e.interrupted()
}

/// A run that is told one more event goes one step further.
pub proof fn lemma_run_push<H, V, C, E, S>(
    s: VmmView<H, V, C, S>,
    events: Seq<Event<H, V, C, E, S>>,
    event: Event<H, V, C, E, S>,
)
    ensures
        s.run(events.push(event)).0 == s.run(events).0.step(event).0,
        s.run(events.push(event)).1 == match s.run(events).0.step(event).1 {
            Ok(action) => s.run(events).1.push(action),
            Err(_) => s.run(events).1,
        },
{
    assert(events.push(event).drop_last() =~= events);
}

/// Readiness events are attended to in the order of the batch.
///
/// There is a first pending event that calls for something, or none does.
/// Every event before it is skipped; it is attended to, and the events behind
/// it stay pending in their order. Where none calls for anything the batch is
/// used up and the supervisor waits again. The index of that first event, or
/// the number of pending events where there is none, is returned.
pub proof fn law_resume_in_order<H, V, C, E, S>(s: VmmView<H, V, C, S>) -> (i: int)
    ensures
        0 <= i <= s.pending.len(),
        forall|j: int| 0 <= j < i ==> !s.wakes(#[trigger] s.pending[j]),
        i < s.pending.len() ==> s.wakes(s.pending[i]) && s.resume::<E>() == (VmmView {
            pending: s.pending.skip(i + 1),
            ..s
        }).attend::<E>(lookup(s.table, s.pending[i]).unwrap()),
        i == s.pending.len() ==> s.resume::<E>() == (VmmView { pending: s.pending.skip(i), ..s }).wait::<
            E,
        >(),
    decreases s.pending.len(),
{
    if s.pending.len() == 0 {
        assert(s.pending.skip(0) =~= s.pending);
        0
    } else if s.wakes(s.pending[0]) {
        0
    } else {
        let rest = VmmView { pending: s.pending.skip(1), ..s };
        let k = law_resume_in_order::<H, V, C, E, S>(rest);
        assert(s.pending.skip(1).skip(k) =~= s.pending.skip(k + 1));
        assert forall|j: int| 0 <= j < k + 1 implies !s.wakes(#[trigger] s.pending[j]) by {
            if j > 0 {
                assert(s.pending[j] == rest.pending[j - 1]);
                assert(!rest.wakes(rest.pending[j - 1]));
            }
        }
        if k < rest.pending.len() {
            assert(rest.pending[k] == s.pending[k + 1]);
            assert(s.pending.skip(1).skip(k + 1) =~= s.pending.skip(k + 2));
        }
        k + 1
    }
}

/// Going on with the batch drains a signal, forwards keyboard input or
/// waits. It changes nothing of the supervisor but what is pending and what
/// it waits for, and leaves no answer owed.
pub proof fn law_resume_asks<H, V, C, E, S>(s: VmmView<H, V, C, S>)
    ensures
        ({
            let r = s.resume::<E>();
            &&& r.0 == VmmView { pending: r.0.pending, phase: r.0.phase, ..s }
            &&& r.0.phase.owes() is None
            &&& match r.1 {
                Action::Wait { max_events, timeout } => r.0.phase is Waiting
                    && r.0.pending.len() == 0 && max_events == EPOLL_EVENTS_LEN && timeout
                    == WAIT_FOREVER,
                Action::Drain(signal) => r.0.phase == Phase::<H, C, S>::Draining(signal),
                Action::HandleStdin => r.0.phase is ForwardingStdin && s.vm is Some,
                _ => false,
            }
        }),
    decreases s.pending.len(),
{
    if s.pending.len() > 0 && !s.wakes(s.pending[0]) {
        law_resume_asks::<H, V, C, E, S>(VmmView { pending: s.pending.skip(1), ..s });
    }
}

/// The set-up creates the demultiplexer, then the exit signal, then the reset
/// signal, and then looks at standard input. The supervisor is built from
/// exactly what these calls brought and from the command producer's signal
/// that the set-up was started with.
pub proof fn law_setup_builds_from_what_was_created<H, E>(
    api_evt: H,
    acpi: bool,
    epoll_fd: i32,
    exit_evt: H,
    reset_evt: H,
    stdin_is_tty: bool,
)
    ensures
        ({
            let start = Setup::init(api_evt, acpi);
            let has_demux = Setup::CreatingExit { epoll_fd, api_evt, acpi };
            let has_exit = Setup::CreatingReset { epoll_fd, exit_evt, api_evt, acpi };
            let has_reset = Setup::ProbingStdin { epoll_fd, exit_evt, reset_evt, api_evt, acpi };
            &&& start.1 == SetupAction::CreateDemux { cloexec: true }
            &&& start.0.plan::<E>(SetupEvent::DemuxCreated(Ok(epoll_fd))) == SetupPlan::<H, E>::Ask(
                has_demux,
                SetupAction::CreateSignal { which: Signal::Exit, nonblocking: true },
            )
            &&& has_demux.plan::<E>(SetupEvent::SignalCreated(Ok(exit_evt))) == SetupPlan::<
                H,
                E,
            >::Ask(has_exit, SetupAction::CreateSignal { which: Signal::Reset, nonblocking: true })
            &&& has_exit.plan::<E>(SetupEvent::SignalCreated(Ok(reset_evt))) == SetupPlan::<
                H,
                E,
            >::Ask(has_reset, SetupAction::ProbeStdin)
            &&& has_reset.plan::<E>(SetupEvent::StdinProbed(stdin_is_tty)) == SetupPlan::<
                H,
                E,
            >::Build { epoll_fd, exit_evt, reset_evt, api_evt, stdin_is_tty, acpi }
        }),
{
}

/// The set-up stops at the first host call that fails: a demultiplexer that
/// cannot be created ends it with [`Error::Epoll`], a signal that cannot be
/// created with [`Error::EventFdCreate`]. Nothing else ends it: looking at
/// standard input cannot fail, and every other outcome leads on.
pub proof fn law_setup_stops_at_first_failure<H, E>(setup: Setup<H>, event: SetupEvent<H>)
    ensures
        setup.plan::<E>(event) matches SetupPlan::Fail(err) ==> {
            ||| (event matches SetupEvent::DemuxCreated(Err(e)) && setup is CreatingDemux && err
                == Error::<E>::Epoll(e))
            ||| (event matches SetupEvent::SignalCreated(Err(e)) && (setup is CreatingExit
                || setup is CreatingReset) && err == Error::<E>::EventFdCreate(e))
        },
        event matches SetupEvent::DemuxCreated(Err(e)) ==> (setup is CreatingDemux
            ==> setup.plan::<E>(event) == SetupPlan::<H, E>::Fail(Error::Epoll(e))),
        event matches SetupEvent::SignalCreated(Err(e)) ==> (setup is CreatingExit
            || setup is CreatingReset ==> setup.plan::<E>(event) == SetupPlan::<H, E>::Fail(
            Error::EventFdCreate(e),
        )),
{
}

/// A supervisor that is built with a terminal for standard input registers
/// the keyboard first. It then registers the exit, reset and command
/// signals, in this order and under consecutive indices from 1, each index
/// leading back to its own token. The table then holds these four entries
/// behind the reserved one and nothing else, and the supervisor goes into its
/// first wait.
pub proof fn law_registrations_with_tty<H, V, C, E, S>(
    fd: i32,
    exit_evt: H,
    reset_evt: H,
    api_evt: H,
    acpi: bool,
)
    ensures
        ({
            let start = VmmView::<H, V, C, S>::init::<E>(fd, exit_evt, reset_evt, api_evt, true, acpi);
            let ok = Event::<H, V, C, E, S>::Registered(Ok(()));
            let end = start.0.run(seq![ok, ok, ok, ok]);
            &&& start.1 == Action::<H, C, E, S>::Register { token: EpollDispatch::Stdin, index: 1 }
            &&& end.1 == seq![
                Action::<H, C, E, S>::Register { token: EpollDispatch::Exit, index: 2 },
                Action::Register { token: EpollDispatch::Reset, index: 3 },
                Action::Register { token: EpollDispatch::Api, index: 4 },
                Action::Wait { max_events: EPOLL_EVENTS_LEN, timeout: WAIT_FOREVER },
            ]
            &&& end.0 == VmmView {
                table: seq![
                    None,
                    Some(EpollDispatch::Stdin),
                    Some(EpollDispatch::Exit),
                    Some(EpollDispatch::Reset),
                    Some(EpollDispatch::Api),
                ],
                phase: Phase::Waiting,
                ..start.0
            }
            &&& end.0.table.len() == 1 + 4
            &&& lookup(end.0.table, 0) is None
            &&& lookup(end.0.table, 1) == Some(EpollDispatch::Stdin)
            &&& lookup(end.0.table, 2) == Some(EpollDispatch::Exit)
            &&& lookup(end.0.table, 3) == Some(EpollDispatch::Reset)
            &&& lookup(end.0.table, 4) == Some(EpollDispatch::Api)
        }),
{
    let start = VmmView::<H, V, C, S>::init::<E>(fd, exit_evt, reset_evt, api_evt, true, acpi);
    let ok = Event::<H, V, C, E, S>::Registered(Ok(()));
    let e1 = seq![ok];
    let e2 = seq![ok, ok];
    let e3 = seq![ok, ok, ok];
    let e4 = seq![ok, ok, ok, ok];
    assert(e2 =~= e1.push(ok));
    assert(e3 =~= e2.push(ok));
    assert(e4 =~= e3.push(ok));
    lemma_run_push(start.0, Seq::empty(), ok);
    lemma_run_push(start.0, e1, ok);
    lemma_run_push(start.0, e2, ok);
    lemma_run_push(start.0, e3, ok);
    let end = start.0.run(e4);
    assert(end.0.table =~= seq![
        None,
        Some(EpollDispatch::Stdin),
        Some(EpollDispatch::Exit),
        Some(EpollDispatch::Reset),
        Some(EpollDispatch::Api),
    ]);
    assert(end.1 =~= seq![
        Action::<H, C, E, S>::Register { token: EpollDispatch::Exit, index: 2 },
        Action::Register { token: EpollDispatch::Reset, index: 3 },
        Action::Register { token: EpollDispatch::Api, index: 4 },
        Action::Wait { max_events: EPOLL_EVENTS_LEN, timeout: WAIT_FOREVER },
    ]);
}

/// A supervisor that is built without a terminal for standard input never
/// registers the keyboard. It registers the exit, reset and command signals,
/// in this order and under the indices 1, 2 and 3, each index leading back to
/// its own token. The table then holds these three entries behind the
/// reserved one and nothing else, and the supervisor goes into its first
/// wait.
pub proof fn law_registrations_without_tty<H, V, C, E, S>(
    fd: i32,
    exit_evt: H,
    reset_evt: H,
    api_evt: H,
    acpi: bool,
)
    ensures
        ({
            let start = VmmView::<H, V, C, S>::init::<E>(fd, exit_evt, reset_evt, api_evt, false, acpi);
            let ok = Event::<H, V, C, E, S>::Registered(Ok(()));
            let end = start.0.run(seq![ok, ok, ok]);
            &&& start.1 == Action::<H, C, E, S>::Register { token: EpollDispatch::Exit, index: 1 }
            &&& end.1 == seq![
                Action::<H, C, E, S>::Register { token: EpollDispatch::Reset, index: 2 },
                Action::Register { token: EpollDispatch::Api, index: 3 },
                Action::Wait { max_events: EPOLL_EVENTS_LEN, timeout: WAIT_FOREVER },
            ]
            &&& end.0 == VmmView {
                table: seq![
                    None,
                    Some(EpollDispatch::Exit),
                    Some(EpollDispatch::Reset),
                    Some(EpollDispatch::Api),
                ],
                phase: Phase::Waiting,
                ..start.0
            }
            &&& end.0.table.len() == 1 + 3
            &&& lookup(end.0.table, 0) is None
            &&& lookup(end.0.table, 1) == Some(EpollDispatch::Exit)
            &&& lookup(end.0.table, 2) == Some(EpollDispatch::Reset)
            &&& lookup(end.0.table, 3) == Some(EpollDispatch::Api)
            &&& forall|i: u64| lookup(end.0.table, i) != Some(EpollDispatch::Stdin)
        }),
{
    let start = VmmView::<H, V, C, S>::init::<E>(fd, exit_evt, reset_evt, api_evt, false, acpi);
    let ok = Event::<H, V, C, E, S>::Registered(Ok(()));
    let e1 = seq![ok];
    let e2 = seq![ok, ok];
    let e3 = seq![ok, ok, ok];
    assert(e2 =~= e1.push(ok));
    assert(e3 =~= e2.push(ok));
    lemma_run_push(start.0, Seq::empty(), ok);
    lemma_run_push(start.0, e1, ok);
    lemma_run_push(start.0, e2, ok);
    let end = start.0.run(e3);
    assert(end.0.table =~= seq![
        None,
        Some(EpollDispatch::Exit),
        Some(EpollDispatch::Reset),
        Some(EpollDispatch::Api),
    ]);
    assert(end.1 =~= seq![
        Action::<H, C, E, S>::Register { token: EpollDispatch::Reset, index: 2 },
        Action::Register { token: EpollDispatch::Api, index: 3 },
        Action::Wait { max_events: EPOLL_EVENTS_LEN, timeout: WAIT_FOREVER },
    ]);
}

/// A registration that fails stops the supervisor with
/// [`Error::Epoll`], and leaves the table as it was.
pub proof fn law_failed_registration_stops<H, V, C, E, S>(s: VmmView<H, V, C, S>, e: IoError)
    requires
        s.phase is Registering,
    ensures
        s.step::<E>(Event::Registered(Err(e))) == (
            (VmmView { phase: Phase::Finished, ..s }),
            Ok::<Action<H, C, E, S>, Event<H, V, C, E, S>>(Action::Finish(Err(Error::Epoll(e)))),
        ),
{
}

/// A new supervisor is well formed.
pub proof fn law_new_is_wf<H, V, C, E, S>(
    fd: i32,
    exit_evt: H,
    reset_evt: H,
    api_evt: H,
    stdin_is_tty: bool,
    acpi: bool,
)
    ensures
        VmmView::<H, V, C, S>::init::<E>(fd, exit_evt, reset_evt, api_evt, stdin_is_tty, acpi).0.wf(),
{
}

/// Every step keeps a well-formed supervisor well formed.
pub proof fn law_wf_is_kept<H, V, C, E, S>(s: VmmView<H, V, C, S>, event: Event<H, V, C, E, S>)
    requires
        s.wf(),
    ensures
        s.step(event).0.wf(),
{
    law_resume_asks::<H, V, C, E, S>(s);
    if let Event::Ready(Ok(events)) = event {
        law_resume_asks::<H, V, C, E, S>(VmmView { pending: events@, ..s });
    }
}

/// Every run keeps a well-formed supervisor well formed.
pub proof fn law_run_keeps_wf<H, V, C, E, S>(
    s: VmmView<H, V, C, S>,
    events: Seq<Event<H, V, C, E, S>>,
)
    requires
        s.wf(),
    ensures
        s.run(events).0.wf(),
    decreases events.len(),
{
    if events.len() > 0 {
        law_run_keeps_wf(s, events.drop_last());
        law_wf_is_kept(s.run(events.drop_last()).0, events.last());
    }
}

/// The VM is there whenever it is worked on.
///
/// Whenever a well-formed supervisor asks for the VM to hand over its
/// configuration, to boot, to shut down or to take keyboard input, there is a
/// VM, and it stays until the outcome has come back: a command to boot or to
/// shut down that follows a command to create finds the VM in place from its
/// first step to its last.
pub proof fn law_vm_is_there_when_worked_on<H, V, C, E, S>(
    s: VmmView<H, V, C, S>,
    event: Event<H, V, C, E, S>,
)
    requires
        s.wf(),
    ensures
        s.step(event).1 matches Ok(action) ==> {
            action is GetConfig || action is Boot || action is Shutdown || action is HandleStdin
                ==> s.step(event).0.vm is Some
        },
        s.phase is ReadingConfig || s.phase is Booting || s.phase is ShuttingDown
            || s.phase is ForwardingStdin ==> s.vm is Some && s.step(event).0.vm is Some,
{
    law_wf_is_kept(s, event);
    law_step_keeps_what_is_owned(s, event);
    law_resume_asks::<H, V, C, E, S>(s);
    if let Event::Ready(Ok(events)) = event {
        law_resume_asks::<H, V, C, E, S>(VmmView { pending: events@, ..s });
    }
}

/// No step takes anything from the supervisor.
///
/// The demultiplexer's descriptor, the three signals and the reboot
/// capability stay what they were. The dispatch table only grows at its end,
/// keeps its reserved entry, and changes only while descriptors are being
/// registered; a well-formed supervisor registers nothing under index 0. A VM
/// that is there is replaced at most, never dropped.
pub proof fn law_step_keeps_what_is_owned<H, V, C, E, S>(
    s: VmmView<H, V, C, S>,
    event: Event<H, V, C, E, S>,
)
    ensures
        ({
            let t = s.step(event).0;
            &&& t.fd == s.fd
            &&& t.exit_evt == s.exit_evt
            &&& t.reset_evt == s.reset_evt
            &&& t.api_evt == s.api_evt
            &&& t.acpi == s.acpi
            &&& s.table.is_prefix_of(t.table)
            &&& reserved(s.table) ==> reserved(t.table)
            &&& !(s.phase is Registering) ==> t.table == s.table
            &&& s.vm is Some ==> t.vm is Some
        }),
        s.wf() ==> !(s.step(event).1 matches Ok(Action::Register { index, .. }) && index == 0),
{
    law_resume_asks::<H, V, C, E, S>(s);
    if let Event::Ready(Ok(events)) = event {
        law_resume_asks::<H, V, C, E, S>(VmmView { pending: events@, ..s });
    }
}

/// No run takes anything from the supervisor: what
/// [`law_step_keeps_what_is_owned`] says of one step holds of any number of
/// them.
pub proof fn law_run_keeps_what_is_owned<H, V, C, E, S>(
    s: VmmView<H, V, C, S>,
    events: Seq<Event<H, V, C, E, S>>,
)
    ensures
        ({
            let t = s.run(events).0;
            &&& t.fd == s.fd
            &&& t.exit_evt == s.exit_evt
            &&& t.reset_evt == s.reset_evt
            &&& t.api_evt == s.api_evt
            &&& t.acpi == s.acpi
            &&& s.table.is_prefix_of(t.table)
            &&& reserved(s.table) ==> reserved(t.table)
            &&& s.vm is Some ==> t.vm is Some
        }),
    decreases events.len(),
{
    if events.len() > 0 {
        law_run_keeps_what_is_owned(s, events.drop_last());
        law_step_keeps_what_is_owned(s.run(events.drop_last()).0, events.last());
    }
}

/// Once there is a VM, there is one at every moment of every run: while a
/// later command is carried out, the VM that it works on is there throughout.
pub proof fn law_vm_is_there_throughout<H, V, C, E, S>(
    s: VmmView<H, V, C, S>,
    events: Seq<Event<H, V, C, E, S>>,
)
    requires
        s.vm is Some,
    ensures
        forall|n: int| 0 <= n <= events.len() ==> (#[trigger] s.run(events.take(n))).0.vm is Some,
{
    assert forall|n: int| 0 <= n <= events.len() implies (#[trigger] s.run(events.take(n))).0.vm
        is Some by {
        law_run_keeps_what_is_owned(s, events.take(n));
    }
}

/// A wait that a signal interrupted is made again, and changes nothing.
/// Any other failure of the wait stops the supervisor with [`Error::Epoll`].
pub proof fn law_interrupted_wait_is_retried<H, V, C, E, S>(s: VmmView<H, V, C, S>, e: IoError)
    requires
        s.phase is Waiting,
    ensures
        e.interrupted() ==> s.step::<E>(Event::Ready(Err(e))) == (
            s,
            Ok::<Action<H, C, E, S>, Event<H, V, C, E, S>>(
                Action::Wait { max_events: EPOLL_EVENTS_LEN, timeout: WAIT_FOREVER },
            ),
        ),
        !e.interrupted() ==> s.step::<E>(Event::Ready(Err(e))) == (
            (VmmView { phase: Phase::Finished, ..s }),
            Ok::<Action<H, C, E, S>, Event<H, V, C, E, S>>(Action::Finish(Err(Error::Epoll(e)))),
        ),
{
}

/// However often the wait is interrupted, the supervisor waits again each
/// time, stays as it was, and never stops.
pub proof fn law_interrupted_waits_never_stop<H, V, C, E, S>(
    s: VmmView<H, V, C, S>,
    events: Seq<Event<H, V, C, E, S>>,
)
    requires
        s.phase is Waiting,
        forall|i: int| 0 <= i < events.len() ==> interrupted_wait(#[trigger] events[i]),
    ensures
        s.run(events).0 == s,
        s.run(events).1.len() == events.len(),
        forall|i: int|
            0 <= i < events.len() ==> (#[trigger] s.run(events).1[i]) == (Action::<
                H,
                C,
                E,
                S,
            >::Wait { max_events: EPOLL_EVENTS_LEN, timeout: WAIT_FOREVER }),
    decreases events.len(),
{
    if events.len() > 0 {
        law_interrupted_waits_never_stop(s, events.drop_last());
        assert(interrupted_wait(events[events.len() - 1]));
    }
}

/// One signal on the exit handle ends the control loop within one wait.
///
/// Where the first event of a batch that calls for anything is the exit
/// signal, as it is where that signal alone woke the supervisor, the
/// supervisor drains it and then leaves the loop for a shutdown, whatever the
/// batch holds behind it: the VM, if there is one, is shut down, and without
/// a VM the supervisor stops at once.
pub proof fn law_exit_signal_ends_loop<H, V, C, E, S>(
    s: VmmView<H, V, C, S>,
    batch: Vec<u64>,
    first: int,
    count: u64,
)
    requires
        s.phase is Waiting,
        0 <= first < batch@.len(),
        forall|j: int| 0 <= j < first ==> !s.wakes(#[trigger] batch@[j]),
        lookup(s.table, batch@[first]) == Some(EpollDispatch::Exit),
    ensures
        ({
            let ready = Event::<H, V, C, E, S>::Ready(Ok(batch));
            let drained = Event::<H, V, C, E, S>::Drained(Ok(count));
            let left = VmmView { pending: Seq::empty(), ..s };
            &&& s.step(ready) == (
                VmmView {
                    pending: batch@.skip(first + 1),
                    phase: Phase::Draining(Signal::Exit),
                    ..s
                },
                Ok::<Action<H, C, E, S>, Event<H, V, C, E, S>>(Action::Drain(Signal::Exit)),
            )
            &&& s.run(seq![ready, drained]) == (
                left.leave::<E>(ExitBehaviour::Shutdown).0,
                seq![Action::Drain(Signal::Exit), left.leave::<E>(ExitBehaviour::Shutdown).1],
            )
            &&& s.vm is Some ==> left.leave::<E>(ExitBehaviour::Shutdown) == (
                VmmView { phase: Phase::ShuttingDown { task: Task::Exit, rebuild: None }, ..left },
                Action::<H, C, E, S>::Shutdown,
            )
            &&& s.vm is None ==> left.leave::<E>(ExitBehaviour::Shutdown) == (
                VmmView { phase: Phase::Finished, ..left },
                Action::<H, C, E, S>::Finish(Ok(())),
            )
        }),
{
    let ready = Event::<H, V, C, E, S>::Ready(Ok(batch));
    let drained = Event::<H, V, C, E, S>::Drained(Ok(count));
    let woken = VmmView { pending: batch@, ..s };
    let k = law_resume_in_order::<H, V, C, E, S>(woken);
    assert(woken.wakes(batch@[first]));
    if k < first {
        assert(!s.wakes(batch@[k]));
    }
    assert(k == first);
    assert(seq![ready, drained] =~= seq![ready].push(drained));
    lemma_run_push(s, Seq::empty(), ready);
    lemma_run_push(s, seq![ready], drained);
    let left = VmmView { pending: Seq::empty(), ..s };
    assert(s.run(seq![ready, drained]).1 =~= seq![
        Action::Drain(Signal::Exit),
        left.leave::<E>(ExitBehaviour::Shutdown).1,
    ]);
}

/// One signal on the reset handle ends the control loop within one wait.
///
/// Where the first event of a batch that calls for anything is the reset
/// signal, as it is where that signal alone woke the supervisor, the
/// supervisor drains it and then leaves the loop for a reset, whatever the
/// batch holds behind it: the reboot starts, and without a VM the supervisor
/// waits again at once.
pub proof fn law_reset_signal_ends_loop<H, V, C, E, S>(
    s: VmmView<H, V, C, S>,
    batch: Vec<u64>,
    first: int,
    count: u64,
)
    requires
        s.phase is Waiting,
        0 <= first < batch@.len(),
        forall|j: int| 0 <= j < first ==> !s.wakes(#[trigger] batch@[j]),
        lookup(s.table, batch@[first]) == Some(EpollDispatch::Reset),
    ensures
        ({
            let ready = Event::<H, V, C, E, S>::Ready(Ok(batch));
            let drained = Event::<H, V, C, E, S>::Drained(Ok(count));
            let left = VmmView { pending: Seq::empty(), ..s };
            &&& s.step(ready) == (
                VmmView {
                    pending: batch@.skip(first + 1),
                    phase: Phase::Draining(Signal::Reset),
                    ..s
                },
                Ok::<Action<H, C, E, S>, Event<H, V, C, E, S>>(Action::Drain(Signal::Reset)),
            )
            &&& s.run(seq![ready, drained]) == (
                left.leave::<E>(ExitBehaviour::Reset).0,
                seq![Action::Drain(Signal::Reset), left.leave::<E>(ExitBehaviour::Reset).1],
            )
            &&& left.leave::<E>(ExitBehaviour::Reset) == left.vm_reboot::<E>(Task::Reset)
            &&& s.vm is None ==> left.leave::<E>(ExitBehaviour::Reset) == (
                VmmView { phase: Phase::Waiting, ..left },
                Action::<H, C, E, S>::Wait { max_events: EPOLL_EVENTS_LEN, timeout: WAIT_FOREVER },
            )
            &&& s.vm is Some && s.acpi ==> left.leave::<E>(ExitBehaviour::Reset) == (
                VmmView { phase: Phase::ReadingConfig(Task::Reset), ..left },
                Action::<H, C, E, S>::GetConfig,
            )
            &&& s.vm is Some && !s.acpi ==> left.leave::<E>(ExitBehaviour::Reset) == (
                VmmView { phase: Phase::ShuttingDown { task: Task::Reset, rebuild: None }, ..left },
                Action::<H, C, E, S>::Shutdown,
            )
        }),
{
    let ready = Event::<H, V, C, E, S>::Ready(Ok(batch));
    let drained = Event::<H, V, C, E, S>::Drained(Ok(count));
    let woken = VmmView { pending: batch@, ..s };
    let k = law_resume_in_order::<H, V, C, E, S>(woken);
    assert(woken.wakes(batch@[first]));
    if k < first {
        assert(!s.wakes(batch@[k]));
    }
    assert(k == first);
    assert(seq![ready, drained] =~= seq![ready].push(drained));
    lemma_run_push(s, Seq::empty(), ready);
    lemma_run_push(s, seq![ready], drained);
    let left = VmmView { pending: Seq::empty(), ..s };
    assert(s.run(seq![ready, drained]).1 =~= seq![
        Action::Drain(Signal::Reset),
        left.leave::<E>(ExitBehaviour::Reset).1,
    ]);
}

/// A reset rebuilds the VM and boots it.
///
/// With a VM, and where a reboot rebuilds it: once the reset signal is
/// drained the supervisor asks the VM for its configuration, shuts it down,
/// duplicates the exit and the reset signal, builds a new VM from the same
/// configuration and the two duplicates, boots it, and waits again. If all of
/// that goes well the new VM has taken the place of the old one, and the
/// supervisor is otherwise what it was before the signal: the table and the
/// three signals are the same.
pub proof fn law_reset_rebuilds_and_boots<H, V, C, E, S>(
    s: VmmView<H, V, C, S>,
    count: u64,
    config: C,
    exit_clone: H,
    reset_clone: H,
    vm: V,
)
    requires
        s.phase == Phase::<H, C, S>::Draining(Signal::Reset),
        s.vm is Some,
        s.acpi,
    ensures
        s.run(
            seq![
                Event::<H, V, C, E, S>::Drained(Ok(count)),
                Event::Config(config),
                Event::VmDone(Ok(())),
                Event::Cloned(Ok(exit_clone)),
                Event::Cloned(Ok(reset_clone)),
                Event::VmCreated(Ok(vm)),
                Event::VmDone(Ok(())),
            ],
        ) == (
            (VmmView { vm: Some(vm), pending: Seq::empty(), phase: Phase::Waiting, ..s }),
            seq![
                Action::<H, C, E, S>::GetConfig,
                Action::Shutdown,
                Action::CloneSignal(Signal::Exit),
                Action::CloneSignal(Signal::Reset),
                Action::CreateVm { config, exit_evt: exit_clone, reset_evt: reset_clone },
                Action::Boot,
                Action::Wait { max_events: EPOLL_EVENTS_LEN, timeout: WAIT_FOREVER },
            ],
        ),
{
    let e1 = Event::<H, V, C, E, S>::Drained(Ok(count));
    let e2 = Event::<H, V, C, E, S>::Config(config);
    let e3 = Event::<H, V, C, E, S>::VmDone(Ok(()));
    let e4 = Event::<H, V, C, E, S>::Cloned(Ok(exit_clone));
    let e5 = Event::<H, V, C, E, S>::Cloned(Ok(reset_clone));
    let e6 = Event::<H, V, C, E, S>::VmCreated(Ok(vm));
    let e7 = Event::<H, V, C, E, S>::VmDone(Ok(()));
    assert(seq![e1, e2] =~= seq![e1].push(e2));
    assert(seq![e1, e2, e3] =~= seq![e1, e2].push(e3));
    assert(seq![e1, e2, e3, e4] =~= seq![e1, e2, e3].push(e4));
    assert(seq![e1, e2, e3, e4, e5] =~= seq![e1, e2, e3, e4].push(e5));
    assert(seq![e1, e2, e3, e4, e5, e6] =~= seq![e1, e2, e3, e4, e5].push(e6));
    assert(seq![e1, e2, e3, e4, e5, e6, e7] =~= seq![e1, e2, e3, e4, e5, e6].push(e7));
    lemma_run_push(s, Seq::empty(), e1);
    lemma_run_push(s, seq![e1], e2);
    lemma_run_push(s, seq![e1, e2], e3);
    lemma_run_push(s, seq![e1, e2, e3], e4);
    lemma_run_push(s, seq![e1, e2, e3, e4], e5);
    lemma_run_push(s, seq![e1, e2, e3, e4, e5], e6);
    lemma_run_push(s, seq![e1, e2, e3, e4, e5, e6], e7);
    let end = s.run(seq![e1, e2, e3, e4, e5, e6, e7]);
    assert(end.1 =~= seq![
        Action::<H, C, E, S>::GetConfig,
        Action::Shutdown,
        Action::CloneSignal(Signal::Exit),
        Action::CloneSignal(Signal::Reset),
        Action::CreateVm { config, exit_evt: exit_clone, reset_evt: reset_clone },
        Action::Boot,
        Action::Wait { max_events: EPOLL_EVENTS_LEN, timeout: WAIT_FOREVER },
    ]);
}

/// Where a reboot is only a shutdown, a reset shuts the VM down and leaves
/// it in its place: once the reset signal is drained and the shutdown went
/// well, the supervisor waits again.
pub proof fn law_reset_without_rebuild<H, V, C, E, S>(s: VmmView<H, V, C, S>, count: u64)
    requires
        s.phase == Phase::<H, C, S>::Draining(Signal::Reset),
        s.vm is Some,
        !s.acpi,
    ensures
        s.run(seq![Event::<H, V, C, E, S>::Drained(Ok(count)), Event::VmDone(Ok(()))]) == (
            (VmmView { pending: Seq::empty(), phase: Phase::Waiting, ..s }),
            seq![
                Action::<H, C, E, S>::Shutdown,
                Action::Wait { max_events: EPOLL_EVENTS_LEN, timeout: WAIT_FOREVER },
            ],
        ),
{
    let e1 = Event::<H, V, C, E, S>::Drained(Ok(count));
    let e2 = Event::<H, V, C, E, S>::VmDone(Ok(()));
    assert(seq![e1, e2] =~= seq![e1].push(e2));
    lemma_run_push(s, Seq::empty(), e1);
    lemma_run_push(s, seq![e1], e2);
    assert(s.run(seq![e1, e2]).1 =~= seq![
        Action::<H, C, E, S>::Shutdown,
        Action::Wait { max_events: EPOLL_EVENTS_LEN, timeout: WAIT_FOREVER },
    ]);
}

/// A reset that fails stops the supervisor with the error that it met, and
/// no VM is stored or dropped on the way: where the new VM cannot be built,
/// the old one, shut down, stays in its place.
pub proof fn law_failed_reset_stops<H, V, C, E, S>(
    s: VmmView<H, V, C, S>,
    event: Event<H, V, C, E, S>,
)
    requires
        s.phase.task() == Some(Task::<S>::Reset),
    ensures
        ({
            let stop = |err: Error<E>|
                (
                    VmmView { phase: Phase::Finished, ..s },
                    Ok::<Action<H, C, E, S>, Event<H, V, C, E, S>>(Action::Finish(Err(err))),
                );
            &&& event matches Event::VmDone(Err(e)) ==> {
                &&& s.phase is ShuttingDown ==> s.step(event) == stop(Error::VmShutdown(e))
                &&& s.phase is Booting ==> s.step(event) == stop(Error::VmBoot(e))
            }
            &&& event matches Event::Cloned(Err(e)) ==> {
                s.phase is CloningExit || s.phase is CloningReset ==> s.step(event) == stop(
                    Error::EventFdClone(e),
                )
            }
            &&& event matches Event::VmCreated(Err(e)) ==> {
                s.phase is CreatingVm ==> s.step(event) == stop(Error::VmCreate(e))
            }
        }),
{
}

/// A command to create a VM duplicates the exit and the reset signal,
/// builds the VM from the command's configuration and the two duplicates,
/// and answers.
///
/// Where the VM was built it takes the VM's place, whether there was one or
/// not, and the answer is success. Where it could not be built the answer is
/// the VM's failure, and what was there before stays.
pub proof fn law_create_command<H, V, C, E, S>(
    s: VmmView<H, V, C, S>,
    config: C,
    to: S,
    exit_clone: H,
    reset_clone: H,
    outcome: Result<V, E>,
)
    requires
        s.phase is Receiving,
    ensures
        s.run(
            seq![
                Event::<H, V, C, E, S>::Received(Some(ApiRequest::VmCreate(config, to))),
                Event::Cloned(Ok(exit_clone)),
                Event::Cloned(Ok(reset_clone)),
                Event::VmCreated(outcome),
            ],
        ) == (
            (VmmView {
                vm: match outcome {
                    Ok(vm) => Some(vm),
                    Err(_) => s.vm,
                },
                phase: Phase::Replying,
                ..s
            }),
            seq![
                Action::<H, C, E, S>::CloneSignal(Signal::Exit),
                Action::CloneSignal(Signal::Reset),
                Action::CreateVm { config, exit_evt: exit_clone, reset_evt: reset_clone },
                Action::Reply {
                    to,
                    response: match outcome {
                        Ok(_) => Ok(ApiResponsePayload::Empty),
                        Err(e) => Err(ApiError::VmCreate(e)),
                    },
                },
            ],
        ),
{
    let e1 = Event::<H, V, C, E, S>::Received(Some(ApiRequest::VmCreate(config, to)));
    let e2 = Event::<H, V, C, E, S>::Cloned(Ok(exit_clone));
    let e3 = Event::<H, V, C, E, S>::Cloned(Ok(reset_clone));
    let e4 = Event::<H, V, C, E, S>::VmCreated(outcome);
    assert(seq![e1, e2] =~= seq![e1].push(e2));
    assert(seq![e1, e2, e3] =~= seq![e1, e2].push(e3));
    assert(seq![e1, e2, e3, e4] =~= seq![e1, e2, e3].push(e4));
    lemma_run_push(s, Seq::empty(), e1);
    lemma_run_push(s, seq![e1], e2);
    lemma_run_push(s, seq![e1, e2], e3);
    lemma_run_push(s, seq![e1, e2, e3], e4);
    assert(s.run(seq![e1, e2, e3, e4]).1 =~= seq![
        Action::<H, C, E, S>::CloneSignal(Signal::Exit),
        Action::CloneSignal(Signal::Reset),
        Action::CreateVm { config, exit_evt: exit_clone, reset_evt: reset_clone },
        Action::Reply {
            to,
            response: match outcome {
                Ok(_) => Ok(ApiResponsePayload::Empty),
                Err(e) => Err(ApiError::VmCreate(e)),
            },
        },
    ]);
}

/// A command to boot the VM, or to shut it down, while there is a VM is
/// carried out on that VM and answered with what came of it. The VM is there
/// before, during and after.
pub proof fn law_command_on_the_vm<H, V, C, E, S>(
    s: VmmView<H, V, C, S>,
    to: S,
    outcome: Result<(), E>,
)
    requires
        s.phase is Receiving,
        s.vm is Some,
    ensures
        s.run(
            seq![
                Event::<H, V, C, E, S>::Received(Some(ApiRequest::VmBoot(to))),
                Event::VmDone(outcome),
            ],
        ) == (
            (VmmView { phase: Phase::Replying, ..s }),
            seq![
                Action::<H, C, E, S>::Boot,
                Action::Reply {
                    to,
                    response: match outcome {
                        Ok(_) => Ok(ApiResponsePayload::Empty),
                        Err(e) => Err(ApiError::VmBoot(e)),
                    },
                },
            ],
        ),
        s.run(
            seq![
                Event::<H, V, C, E, S>::Received(Some(ApiRequest::VmShutdown(to))),
                Event::VmDone(outcome),
            ],
        ) == (
            (VmmView { phase: Phase::Replying, ..s }),
            seq![
                Action::<H, C, E, S>::Shutdown,
                Action::Reply {
                    to,
                    response: match outcome {
                        Ok(_) => Ok(ApiResponsePayload::Empty),
                        Err(e) => Err(ApiError::VmShutdown(e)),
                    },
                },
            ],
        ),
        s.step::<E>(Event::Received(Some(ApiRequest::VmBoot(to)))).0.vm == s.vm,
        s.step::<E>(Event::Received(Some(ApiRequest::VmShutdown(to)))).0.vm == s.vm,
{
    let b1 = Event::<H, V, C, E, S>::Received(Some(ApiRequest::VmBoot(to)));
    let d1 = Event::<H, V, C, E, S>::Received(Some(ApiRequest::VmShutdown(to)));
    let e2 = Event::<H, V, C, E, S>::VmDone(outcome);
    assert(seq![b1, e2] =~= seq![b1].push(e2));
    assert(seq![d1, e2] =~= seq![d1].push(e2));
    lemma_run_push(s, Seq::empty(), b1);
    lemma_run_push(s, seq![b1], e2);
    lemma_run_push(s, Seq::empty(), d1);
    lemma_run_push(s, seq![d1], e2);
    assert(s.run(seq![b1, e2]).1 =~= seq![
        Action::<H, C, E, S>::Boot,
        Action::Reply {
            to,
            response: match outcome {
                Ok(_) => Ok(ApiResponsePayload::Empty),
                Err(e) => Err(ApiError::VmBoot(e)),
            },
        },
    ]);
    assert(s.run(seq![d1, e2]).1 =~= seq![
        Action::<H, C, E, S>::Shutdown,
        Action::Reply {
            to,
            response: match outcome {
                Ok(_) => Ok(ApiResponsePayload::Empty),
                Err(e) => Err(ApiError::VmShutdown(e)),
            },
        },
    ]);
}

/// A command to boot the VM, or to shut it down, while there is no VM is
/// dropped: the supervisor goes on with the batch as if there had been no
/// command, and no answer is ever given.
pub proof fn law_command_without_vm_is_dropped<H, V, C, E, S>(s: VmmView<H, V, C, S>, to: S)
    requires
        s.phase is Receiving,
        s.vm is None,
    ensures
        s.step::<E>(Event::Received(Some(ApiRequest::VmBoot(to)))) == (
            s.resume::<E>().0,
            Ok::<Action<H, C, E, S>, Event<H, V, C, E, S>>(s.resume::<E>().1),
        ),
        s.step::<E>(Event::Received(Some(ApiRequest::VmShutdown(to)))) == (
            s.resume::<E>().0,
            Ok::<Action<H, C, E, S>, Event<H, V, C, E, S>>(s.resume::<E>().1),
        ),
        !(s.resume::<E>().1 is Reply),
        s.resume::<E>().0.phase.owes() is None,
{
    law_resume_asks::<H, V, C, E, S>(s);
}

/// A command to reboot rebuilds the VM and boots it, as a reset does, and is
/// answered with success.
pub proof fn law_reboot_command<H, V, C, E, S>(
    s: VmmView<H, V, C, S>,
    to: S,
    config: C,
    exit_clone: H,
    reset_clone: H,
    vm: V,
)
    requires
        s.phase is Receiving,
        s.vm is Some,
        s.acpi,
    ensures
        s.run(
            seq![
                Event::<H, V, C, E, S>::Received(Some(ApiRequest::VmReboot(to))),
                Event::Config(config),
                Event::VmDone(Ok(())),
                Event::Cloned(Ok(exit_clone)),
                Event::Cloned(Ok(reset_clone)),
                Event::VmCreated(Ok(vm)),
                Event::VmDone(Ok(())),
            ],
        ) == (
            (VmmView { vm: Some(vm), phase: Phase::Replying, ..s }),
            seq![
                Action::<H, C, E, S>::GetConfig,
                Action::Shutdown,
                Action::CloneSignal(Signal::Exit),
                Action::CloneSignal(Signal::Reset),
                Action::CreateVm { config, exit_evt: exit_clone, reset_evt: reset_clone },
                Action::Boot,
                Action::Reply { to, response: Ok(ApiResponsePayload::Empty) },
            ],
        ),
{
    let e1 = Event::<H, V, C, E, S>::Received(Some(ApiRequest::VmReboot(to)));
    let e2 = Event::<H, V, C, E, S>::Config(config);
    let e3 = Event::<H, V, C, E, S>::VmDone(Ok(()));
    let e4 = Event::<H, V, C, E, S>::Cloned(Ok(exit_clone));
    let e5 = Event::<H, V, C, E, S>::Cloned(Ok(reset_clone));
    let e6 = Event::<H, V, C, E, S>::VmCreated(Ok(vm));
    let e7 = Event::<H, V, C, E, S>::VmDone(Ok(()));
    assert(seq![e1, e2] =~= seq![e1].push(e2));
    assert(seq![e1, e2, e3] =~= seq![e1, e2].push(e3));
    assert(seq![e1, e2, e3, e4] =~= seq![e1, e2, e3].push(e4));
    assert(seq![e1, e2, e3, e4, e5] =~= seq![e1, e2, e3, e4].push(e5));
    assert(seq![e1, e2, e3, e4, e5, e6] =~= seq![e1, e2, e3, e4, e5].push(e6));
    assert(seq![e1, e2, e3, e4, e5, e6, e7] =~= seq![e1, e2, e3, e4, e5, e6].push(e7));
    lemma_run_push(s, Seq::empty(), e1);
    lemma_run_push(s, seq![e1], e2);
    lemma_run_push(s, seq![e1, e2], e3);
    lemma_run_push(s, seq![e1, e2, e3], e4);
    lemma_run_push(s, seq![e1, e2, e3, e4], e5);
    lemma_run_push(s, seq![e1, e2, e3, e4, e5], e6);
    lemma_run_push(s, seq![e1, e2, e3, e4, e5, e6], e7);
    assert(s.run(seq![e1, e2, e3, e4, e5, e6, e7]).1 =~= seq![
        Action::<H, C, E, S>::GetConfig,
        Action::Shutdown,
        Action::CloneSignal(Signal::Exit),
        Action::CloneSignal(Signal::Reset),
        Action::CreateVm { config, exit_evt: exit_clone, reset_evt: reset_clone },
        Action::Boot,
        Action::Reply { to, response: Ok(ApiResponsePayload::Empty) },
    ]);
}

/// Whatever goes wrong while a command to reboot is carried out, the command
/// is answered with [`ApiError::VmReboot`] and the supervisor goes on. No VM
/// is stored or dropped by the failure.
pub proof fn law_failed_reboot_is_answered<H, V, C, E, S>(
    s: VmmView<H, V, C, S>,
    to: S,
    event: Event<H, V, C, E, S>,
)
    requires
        s.phase.task() == Some(Task::Reboot(to)),
        s.accepts(event),
        event matches Event::VmDone(Err(_)) || event matches Event::Cloned(Err(_))
            || event matches Event::VmCreated(Err(_)),
    ensures
        s.step(event) == (
            (VmmView { phase: Phase::Replying, ..s }),
            Ok::<Action<H, C, E, S>, Event<H, V, C, E, S>>(
                Action::Reply { to, response: Err(ApiError::VmReboot) },
            ),
        ),
{
}

/// A VM is only ever given duplicates of the supervisor's signals that the
/// host has just made.
///
/// Whenever the supervisor asks for a VM to be built, the event before was
/// the duplicate of the reset signal that it hands on, and the duplicate of
/// the exit signal that it hands on is the one it was holding since the event
/// that brought it. Its own three handles are not touched.
pub proof fn law_vm_gets_fresh_duplicates<H, V, C, E, S>(
    s: VmmView<H, V, C, S>,
    event: Event<H, V, C, E, S>,
)
    ensures
        s.step(event).1 matches Ok(Action::CreateVm { config, exit_evt, reset_evt }) ==> {
            &&& s.phase matches Phase::CloningReset { config: c, exit_evt: held, .. }
            &&& c == config
            &&& held == exit_evt
            &&& event == Event::<H, V, C, E, S>::Cloned(Ok(reset_evt))
        },
        s.step(event).0.phase matches Phase::CloningReset { exit_evt, config, .. } ==> {
            ||| s.step(event).0.phase == s.phase
            ||| s.phase matches Phase::CloningExit { config: c, .. } && c == config && event
                == Event::<H, V, C, E, S>::Cloned(Ok(exit_evt))
        },
        s.step(event).0.signal(Signal::Exit) == s.signal(Signal::Exit),
        s.step(event).0.signal(Signal::Reset) == s.signal(Signal::Reset),
        s.step(event).0.signal(Signal::Api) == s.signal(Signal::Api),
{
    law_step_keeps_what_is_owned(s, event);
    law_resume_asks::<H, V, C, E, S>(s);
    if let Event::Ready(Ok(events)) = event {
        law_resume_asks::<H, V, C, E, S>(VmmView { pending: events@, ..s });
    }
}

/// An answer goes to the command that is owed one, and to no other.
///
/// Whenever the supervisor asks for an answer to be delivered, it is the
/// answer to the command in progress, or to the command that the event has
/// just brought, and nothing is owed afterwards. While an answer is owed and
/// not yet asked for, it stays owed to the same sender, unless the supervisor
/// stops with an error.
pub proof fn law_answers_are_owed<H, V, C, E, S>(
    s: VmmView<H, V, C, S>,
    event: Event<H, V, C, E, S>,
)
    ensures
        s.step(event).1 matches Ok(Action::Reply { to, .. }) ==> {
            &&& s.step(event).0.phase.owes() is None
            &&& {
                ||| s.phase.owes() == Some(to)
                ||| (event matches Event::Received(Some(request)) && s.phase is Receiving
                    && request.answered_on() == to)
            }
        },
        s.phase.owes() is Some ==> {
            ||| s.step(event).0.phase.owes() == s.phase.owes()
            ||| s.step(event).1 is Ok && s.step(event).1->Ok_0 is Reply
            ||| s.step(event).1 matches Ok(Action::Finish(Err(_)))
        },
        s.step(event).0.phase.owes() matches Some(to) ==> {
            ||| s.phase.owes() == Some(to)
            ||| (event matches Event::Received(Some(request)) && s.takes_up(event)
                && request.answered_on() == to)
        },
{
    law_resume_asks::<H, V, C, E, S>(s);
    if let Event::Ready(Ok(events)) = event {
        law_resume_asks::<H, V, C, E, S>(VmmView { pending: events@, ..s });
    }
}

/// One step keeps the account of answers: what was owed before, and one
/// more if the event is a command that is taken up, is what is answered by
/// this step and what is owed after it; only a stop with an error can leave
/// one answer out.
pub proof fn law_step_accounts_for_answers<H, V, C, E, S>(
    s: VmmView<H, V, C, S>,
    event: Event<H, V, C, E, S>,
)
    ensures
        ({
            let t = s.step(event);
            let took: nat = if s.takes_up(event) {
                1
            } else {
                0
            };
            let answered: nat = if t.1 is Ok && t.1->Ok_0 is Reply {
                1
            } else {
                0
            };
            let fault: nat = if t.1 matches Ok(Action::Finish(Err(_))) {
                1
            } else {
                0
            };
            answered + t.0.owing() <= s.owing() + took <= answered + t.0.owing() + fault
        }),
{
    law_resume_asks::<H, V, C, E, S>(s);
    if let Event::Ready(Ok(events)) = event {
        law_resume_asks::<H, V, C, E, S>(VmmView { pending: events@, ..s });
    }
}

/// Every command that is taken up is answered exactly once.
///
/// Over any run, the answers given and the answer still owed at the end are
/// never more than the commands taken up and the answer owed at the start: no
/// command is answered twice, and nothing is answered that was not asked.
/// They are never fewer either, unless the supervisor stopped with an error.
/// So in a run without such a stop that ends with nothing owed, there are as
/// many answers as commands taken up; a command to boot or shut down a VM that
/// is not there is not taken up, and is not answered.
pub proof fn law_every_command_is_answered_once<H, V, C, E, S>(
    s: VmmView<H, V, C, S>,
    events: Seq<Event<H, V, C, E, S>>,
)
    ensures
        ({
            let end = s.run(events);
            answers(end.1) + end.0.owing() <= s.owing() + s.taken_up(events) <= answers(end.1)
                + end.0.owing() + faults(end.1)
        }),
    decreases events.len(),
{
    if events.len() > 0 {
        let before = s.run(events.drop_last());
        law_every_command_is_answered_once(s, events.drop_last());
        law_step_accounts_for_answers(before.0, events.last());
        let after = before.0.step(events.last());
        if let Ok(action) = after.1 {
            assert(before.1.push(action).drop_last() =~= before.1);
        }
    }
}

/// A supervisor that has stopped stays stopped: it hands every event back
/// and asks for nothing more.
pub proof fn law_finished_is_final<H, V, C, E, S>(
    s: VmmView<H, V, C, S>,
    event: Event<H, V, C, E, S>,
)
    requires
        s.phase is Finished,
    ensures
        s.step(event) == (s, Err::<Action<H, C, E, S>, Event<H, V, C, E, S>>(event)),
{
}

/// Whenever the supervisor asks to stop, it has stopped.
pub proof fn law_finish_stops<H, V, C, E, S>(s: VmmView<H, V, C, S>, event: Event<H, V, C, E, S>)
    ensures
        s.step(event).1 matches Ok(Action::Finish(_)) ==> s.step(event).0.phase is Finished,
        s.step(event).0.phase is Finished ==> s.phase is Finished || s.step(event).1 matches Ok(
            Action::Finish(_),
        ),
{
    law_resume_asks::<H, V, C, E, S>(s);
    if let Event::Ready(Ok(events)) = event {
        law_resume_asks::<H, V, C, E, S>(VmmView { pending: events@, ..s });
    }
}

} // verus!
