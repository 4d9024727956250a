//! Management commands and their answers.

use vstd::prelude::*;

verus! {

/// What a successful command answers with.
#[derive(Debug, Clone, Copy, PartialEq, Eq, Structural)]
pub enum ApiResponsePayload {
    /// Nothing beyond success.
    Empty,
}

/// Why a command failed. `E` is the VM's own error type.
#[derive(Debug, PartialEq, Eq)]
pub enum ApiError<E> {
    /// The VM could not be created.
    VmCreate(E),
    /// The VM could not be booted.
    VmBoot(E),
    /// The VM could not be shut down.
    VmShutdown(E),
    /// The VM could not be rebooted. The cause stays with the supervisor.
    VmReboot,
}

/// The answer to a command.
pub type ApiResponse<E> = Result<ApiResponsePayload, ApiError<E>>;

/// A management command. `C` is the VM configuration and `S` the one-shot
/// sender on which the command's answer is delivered.
#[derive(Debug, PartialEq, Eq)]
pub enum ApiRequest<C, S> {
    /// Create a VM from a configuration.
    VmCreate(C, S),
    /// Boot the VM.
    VmBoot(S),
    /// Shut the VM down.
    VmShutdown(S),
    /// Shut the VM down, rebuild it from its configuration and boot it.
    VmReboot(S),
}

impl<C, S> ApiRequest<C, S> {
    /// The sender on which the command is answered.
    pub open spec fn answered_on(self) -> S {
        match self {
            ApiRequest::VmCreate(_, to) => to,
            ApiRequest::VmBoot(to) => to,
            ApiRequest::VmShutdown(to) => to,
            ApiRequest::VmReboot(to) => to,
        }
    }
}

} // verus!
