//! Control core of a virtual machine monitor, written without I/O.
//!
//! The supervisor owns the lifecycle of one guest VM and reacts to four event
//! sources: the guest's exit and reset signals, the host keyboard, and
//! management commands. Everything the supervisor *decides* lives here and is
//! verified; everything it has to ask the host for (waiting on descriptors,
//! draining counters, building and booting the VM, answering a command) is
//! handed out as an [`Action`] and comes back as an [`Event`].
//!
//! - [`dispatch`]: the demultiplexer's dispatch table.
//! - [`api`], [`error`]: commands, their answers, and the supervisor's
//!   errors.
//! - [`protocol`]: the actions, the events, and the phases between them.
//! - [`setup`]: building the supervisor.
//! - [`model`]: the supervisor as a state machine, over which the contracts
//!   are stated.
//! - [`vmm`]: the supervisor itself.
//! - [`laws`]: what holds of every run.
//!
//! A host drives the supervisor like this: it starts a [`Setup`] and makes
//! the call that each [`SetupAction`] stands for until the set-up hands over
//! a [`Vmm`] and its first [`Action`]; then it makes the call that each
//! action stands for and tells [`Vmm::step`] the outcome, until the action is
//! to [`Finish`](Action::Finish).

pub mod api;
pub mod dispatch;
pub mod error;
pub mod laws;
pub mod model;
pub mod protocol;
pub mod setup;
pub mod vmm;

pub use api::{ApiError, ApiRequest, ApiResponse, ApiResponsePayload};
pub use dispatch::{EpollContext, EpollDispatch};
pub use error::{Error, IoError, IoErrorKind};
pub use model::VmmView;
pub use protocol::{Action, Event, ExitBehaviour, Phase, Signal, Task};
pub use setup::{Setup, SetupAction, SetupEvent, SetupPlan, SetupStep};
pub use vmm::Vmm;
