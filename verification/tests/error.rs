use vivid::error::{VividError, VividResult, WindowsHookError};

#[test]
fn a_hook_error_becomes_a_service_error() {
    let error: VividError = WindowsHookError::SetWinEventHook(5).into();
    assert_eq!(error, VividError::WindowsHookError(WindowsHookError::SetWinEventHook(5)));
    assert_eq!(
        VividError::from(WindowsHookError::NoHookToUnRegister),
        VividError::WindowsHookError(WindowsHookError::NoHookToUnRegister)
    );
}

#[test]
fn a_hook_error_passes_through_the_question_mark() {
    fn fails() -> VividResult<()> {
        Err(WindowsHookError::UnhookWinEvent(6))?
    }
    assert_eq!(fails(), Err(VividError::WindowsHookError(WindowsHookError::UnhookWinEvent(6))));
}

#[test]
fn errors_of_the_operating_system_keep_their_code() {
    assert_eq!(VividError::message_loop_error(1400), VividError::WindowsMessageLoopError(1400));
    assert_eq!(VividError::windows_error(-3), VividError::WindowsOtherError(-3));
    assert_ne!(VividError::windows_error(2), VividError::message_loop_error(2));
}
