//! The failures the service can report.

use vstd::prelude::*;
use vstd::std_specs::convert::FromSpecImpl;

verus! {

/// What can go wrong with the window-event hook. Where the operating system
/// refused a request, the variant carries its error code.
#[derive(Debug, Clone, Copy, PartialEq, Eq, Structural)]
pub enum WindowsHookError {
    /// The operating system refused to install the hook.
    SetWinEventHook(i32),
    /// The operating system failed to remove the hook.
    UnhookWinEvent(i32),
    /// There is no hook to remove: `register` has to come first.
    NoHookToUnRegister,
    /// A hook is already installed; it has to be removed before another one
    /// is asked for.
    HookAlreadyRegistered,
}

/// Every failure of the service.
#[derive(Debug, Clone, PartialEq, Eq)]
pub enum VividError {
    /// An input or output operation failed; the text is the system's message.
    IoError(String),
    /// The configuration could not be written out.
    SerializeError(String),
    /// The configuration could not be read.
    DeserializeError(String),
    /// The window-event hook failed.
    WindowsHookError(WindowsHookError),
    /// The message loop failed, with the operating system's error code.
    WindowsMessageLoopError(i32),
    /// Another operating system call failed, with its error code.
    WindowsOtherError(i32),
    /// Both vendors' drivers are present, and nothing tells which one to use.
    DualDriversDetected,
    /// No supported GPU was found.
    NoGpuDetected,
    /// No display matches the primary monitor.
    NoDisplayDetected,
    /// The configuration has not been loaded yet.
    NoConfigurationLoaded,
    /// The process with this id could not be inspected.
    ProcessNotAvailable(usize),
    /// The Nvidia driver reported this status.
    NvAPIError(i32),
    /// The backend does not implement the operation.
    Unimplemented,
    /// Any other failure, by its message.
    Other(String),
}

pub type VividResult<T> = Result<T, VividError>;

impl VividError {
    /// The failure of the message loop that goes with the operating system's
    /// error code `os_error`.
    pub fn message_loop_error(os_error: i32) -> (e: Self)
        ensures
            e == VividError::WindowsMessageLoopError(os_error),
    {
        VividError::WindowsMessageLoopError(os_error)
    }

    /// The failure of an operating system call that goes with the error code
    /// `os_error`.
    pub fn windows_error(os_error: i32) -> (e: Self)
        ensures
            e == VividError::WindowsOtherError(os_error),
    {
        VividError::WindowsOtherError(os_error)
    }
}

impl From<WindowsHookError> for VividError {
    fn from(e: WindowsHookError) -> (r: VividError) {
        VividError::WindowsHookError(e)
    }
}

impl FromSpecImpl<WindowsHookError> for VividError {
    open spec fn obeys_from_spec() -> bool {
        true
    }

    open spec fn from_spec(e: WindowsHookError) -> VividError {
        VividError::WindowsHookError(e)
    }
}

} // verus!
