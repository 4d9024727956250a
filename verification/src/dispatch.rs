//! The dispatch table of the readiness demultiplexer.
//!
//! Every descriptor registered with the demultiplexer is given a dense index,
//! which the kernel hands back as the user data of each readiness event. The
//! table maps that index to the reason the supervisor was woken.

use crate::protocol::Signal;
use vstd::prelude::*;

verus! {

/// Why the supervisor woke.
#[derive(Debug, Clone, Copy, PartialEq, Eq, Structural)]
pub enum EpollDispatch {
    /// The guest asked to be shut down.
    Exit,
    /// The guest asked to be reset.
    Reset,
    /// The host keyboard has input for the guest console.
    Stdin,
    /// A management command is waiting on the command channel.
    Api,
}

impl EpollDispatch {
    /// The signal whose descriptor is registered under this token. The
    /// keyboard is no signal of the supervisor's.
    pub open spec fn spec_signal(self) -> Option<Signal> {
        match self {
            EpollDispatch::Exit => Some(Signal::Exit),
            EpollDispatch::Reset => Some(Signal::Reset),
            EpollDispatch::Api => Some(Signal::Api),
            EpollDispatch::Stdin => None,
        }
    }

    /// The signal whose descriptor is registered under this token. The
    /// keyboard is no signal of the supervisor's.
    #[verifier::when_used_as_spec(spec_signal)]
    pub fn signal(self) -> (signal: Option<Signal>)
        ensures
            signal == self.spec_signal(),
    {
        match self {
            EpollDispatch::Exit => Some(Signal::Exit),
            EpollDispatch::Reset => Some(Signal::Reset),
            EpollDispatch::Api => Some(Signal::Api),
            EpollDispatch::Stdin => None,
        }
    }
}

/// The token found under `index` in a dispatch table, if any.
///
/// An index outside the table, and the reserved index 0, carry no token.
pub open spec fn lookup(table: Seq<Option<EpollDispatch>>, index: u64) -> Option<EpollDispatch> {
    if index < table.len() {
        table[index as int]
    } else {
        None
    }
}

/// Whether entry 0 of a dispatch table is there and holds no token.
///
/// Index 0 is a sentinel: registrations start at 1, so no readiness event is
/// ever dispatched through it.
pub open spec fn reserved(table: Seq<Option<EpollDispatch>>) -> bool {
    table.len() >= 1 && table[0] is None
}

/// A demultiplexer descriptor together with its dispatch table.
///
/// The table is append-only: a registration adds one entry at the end, and
/// nothing is ever removed or moved. Entry 0 is reserved at construction.
pub struct EpollContext {
    raw_fd: i32,
    dispatch_table: Vec<Option<EpollDispatch>>,
}

impl View for EpollContext {
    type V = Seq<Option<EpollDispatch>>;

    /// The dispatch table, by registration index.
    closed spec fn view(&self) -> Seq<Option<EpollDispatch>> {
        self.dispatch_table@
    }
}

impl EpollContext {
    /// The demultiplexer's descriptor.
    pub closed spec fn fd(&self) -> i32 {
        self.raw_fd
    }

    /// Wraps a freshly created demultiplexer descriptor and seeds the table
    /// with the reserved entry.
    pub fn new(raw_fd: i32) -> (ctx: EpollContext)
        ensures
            ctx.fd() == raw_fd,
            ctx@ == seq![None::<EpollDispatch>],
            reserved(ctx@),
    {
        // Large enough for the reserved entry and the exit, reset, stdin and
        // API registrations.
        let mut dispatch_table = Vec::with_capacity(5);
        dispatch_table.push(None);
        EpollContext { raw_fd, dispatch_table }
    }

    /// The descriptor to wait on.
    pub fn as_raw_fd(&self) -> (fd: i32)
        ensures
            fd == self.fd(),
    {
        self.raw_fd
    }

    /// The index that the next registration will be made under.
    pub fn next_index(&self) -> (index: u64)
        ensures
            index == self@.len(),
            reserved(self@) ==> index >= 1,
    {
        self.dispatch_table.len() as u64
    }

    /// Records that a descriptor was registered for `token`, and returns the
    /// index under which its readiness events will arrive.
    pub fn add_event(&mut self, token: EpollDispatch) -> (index: u64)
        ensures
            final(self)@ == old(self)@.push(Some(token)),
            final(self).fd() == old(self).fd(),
            index == old(self)@.len(),
            lookup(final(self)@, index) == Some(token),
            reserved(old(self)@) ==> reserved(final(self)@) && index >= 1,
    {
        let index = self.dispatch_table.len() as u64;
        self.dispatch_table.push(Some(token));
        index
    }

    /// Records that the host's standard input was registered.
    pub fn add_stdin(&mut self) -> (index: u64)
        ensures
            final(self)@ == old(self)@.push(Some(EpollDispatch::Stdin)),
            final(self).fd() == old(self).fd(),
            index == old(self)@.len(),
            lookup(final(self)@, index) == Some(EpollDispatch::Stdin),
            reserved(old(self)@) ==> reserved(final(self)@) && index >= 1,
    {
        self.add_event(EpollDispatch::Stdin)
    }

    /// The token that a readiness event carrying `index` stands for.
    pub fn dispatch(&self, index: u64) -> (token: Option<EpollDispatch>)
        ensures
            token == lookup(self@, index),
            reserved(self@) && index == 0 ==> token is None,
    {
        if index < self.dispatch_table.len() as u64 {
            self.dispatch_table[index as usize]
        } else {
            None
        }
    }
}

} // verus!
