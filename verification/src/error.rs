//! The errors of the supervisor.

use crate::api::{ApiError, ApiResponse};
use vstd::prelude::*;

verus! {

/// What the supervisor looks at in a failed host call.
#[derive(Debug, Clone, Copy, PartialEq, Eq, Structural)]
pub enum IoErrorKind {
    /// The call was interrupted by a signal before anything happened.
    Interrupted,
    /// Any other failure.
    Other,
}

/// A failed host call: its kind, and the operating system's error code where
/// there is one.
#[derive(Debug, Clone, Copy, PartialEq, Eq)]
pub struct IoError {
    pub kind: IoErrorKind,
    pub code: Option<i32>,
}

impl IoError {
    /// Whether the call may simply be made again.
    pub open spec fn interrupted(&self) -> bool {
        self.kind is Interrupted
    }

    /// Whether the call may simply be made again.
    #[verifier::when_used_as_spec(interrupted)]
    pub fn is_interrupted(&self) -> (b: bool)
        ensures
            b == self.interrupted(),
    {
        match self.kind {
            IoErrorKind::Interrupted => true,
            IoErrorKind::Other => false,
        }
    }
}

/// Errors associated with VMM management. `E` is the VM's own error type.
#[derive(Debug, PartialEq, Eq)]
pub enum Error<E> {
    /// API request receive error: the command channel is closed.
    ApiRequestRecv,
    /// API response receive error: the sender of a command waited in vain.
    ApiResponseRecv,
    /// API request send error: the supervisor is gone.
    ApiRequestSend,
    /// API response send error; holds the response that could not be
    /// delivered.
    ApiResponseSend(ApiResponse<E>),
    /// Cannot create a VM from the API
    ApiVmCreate(ApiError<E>),
    /// Cannot boot a VM from the API
    ApiVmBoot(ApiError<E>),
    /// Cannot shut a VM down from the API
    ApiVmShutdown(ApiError<E>),
    /// Cannot reboot a VM from the API
    ApiVmReboot(ApiError<E>),
    /// Cannot bind to the UNIX domain socket path
    Bind(IoError),
    /// Cannot clone EventFd.
    EventFdClone(IoError),
    /// Cannot create EventFd.
    EventFdCreate(IoError),
    /// Cannot read from EventFd.
    EventFdRead(IoError),
    /// Cannot write to EventFd.
    EventFdWrite(IoError),
    /// Cannot create epoll context.
    Epoll(IoError),
    /// Cannot create HTTP thread
    HttpThreadSpawn(IoError),
    /// Cannot handle the VM STDIN stream
    Stdin(E),
    /// Cannot create a VM
    VmCreate(E),
    /// Cannot boot a VM
    VmBoot(E),
    /// Cannot shut a VM down
    VmShutdown(E),
    /// Cannot create VMM thread
    VmmThreadSpawn(IoError),
}

/// What a VM-level failure is reported as to the sender of a command, if it is
/// reported there at all.
///
/// A failure to create, boot or shut down the VM is the command's answer.
/// Every other error is a failure of the host, which no answer can describe.
pub open spec fn api_error<E>(err: Error<E>) -> Option<ApiError<E>> {
    match err {
        Error::VmCreate(e) => Some(ApiError::VmCreate(e)),
        Error::VmBoot(e) => Some(ApiError::VmBoot(e)),
        Error::VmShutdown(e) => Some(ApiError::VmShutdown(e)),
        _ => None,
    }
}

impl<E> Error<E> {
    /// Turns a VM-level failure into the answer to the command that met it,
    /// and hands every other error back.
    pub fn into_api_error(self) -> (r: Result<ApiError<E>, Error<E>>)
        ensures
            match api_error(self) {
                Some(answer) => r == Ok::<ApiError<E>, Error<E>>(answer),
                None => r == Err::<ApiError<E>, Error<E>>(self),
            },
    {
        match self {
            Error::VmCreate(e) => Ok(ApiError::VmCreate(e)),
            Error::VmBoot(e) => Ok(ApiError::VmBoot(e)),
            Error::VmShutdown(e) => Ok(ApiError::VmShutdown(e)),
            other => Err(other),
        }
    }
}

} // verus!
