use vivid::config::{Config, Program};
use vivid::error::{VividError, WindowsHookError};
use vivid::foreground_callback::{handler, NotificationState, PolicyReply, PolicyStep};
use vivid::foreground_watch::ForegroundWatcherEvent;

const STATES: [NotificationState; 7] = [
    NotificationState::NotPresent,
    NotificationState::Busy,
    NotificationState::RunningD3dFullScreen,
    NotificationState::PresentationMode,
    NotificationState::AcceptsNotifications,
    NotificationState::QuietTime,
    NotificationState::App,
];

fn config() -> Config {
    Config::new(
        50,
        None,
        vec![
            Program {
                exe_name: "Code.exe".to_string(),
                vibrance: 90,
                fullscreen_only: None,
                resolution: None,
            },
            Program {
                exe_name: "game.exe".to_string(),
                vibrance: 80,
                fullscreen_only: Some(true),
                resolution: None,
            },
        ],
    )
}

fn foreground(process_exe: &str) -> ForegroundWatcherEvent {
    ForegroundWatcherEvent {
        hwnd: 0x77,
        process_id: 1000,
        process_exe: process_exe.to_string(),
        process_path: format!("C:\\apps\\{}", process_exe),
    }
}

/// Runs the policy to its end and returns every vibrance it asked to set.
fn run(
    process_exe: &str,
    vibrance: &mut u8,
    state: Option<NotificationState>,
) -> (Vec<u8>, usize, Result<(), VividError>) {
    let mut sets = Vec::new();
    let mut queries = 0;
    let mut step = handler(&config(), &foreground(process_exe));
    loop {
        let reply = match step {
            PolicyStep::ReadVibrance { .. } => PolicyReply::Vibrance(Ok(*vibrance)),
            PolicyStep::QueryFullscreen { .. } => {
                queries += 1;
                PolicyReply::Fullscreen(state)
            }
            PolicyStep::SetVibrance { target } => {
                sets.push(target);
                *vibrance = target;
                PolicyReply::Applied(Ok(target))
            }
            PolicyStep::Done(result) => return (sets, queries, result),
        };
        step = step.advance(reply);
    }
}

#[test]
fn notification_states_by_their_codes() {
    assert_eq!(NotificationState::from_code(1), Some(NotificationState::NotPresent));
    assert_eq!(NotificationState::from_code(2), Some(NotificationState::Busy));
    assert_eq!(NotificationState::from_code(3), Some(NotificationState::RunningD3dFullScreen));
    assert_eq!(NotificationState::from_code(4), Some(NotificationState::PresentationMode));
    assert_eq!(NotificationState::from_code(5), Some(NotificationState::AcceptsNotifications));
    assert_eq!(NotificationState::from_code(6), Some(NotificationState::QuietTime));
    assert_eq!(NotificationState::from_code(7), Some(NotificationState::App));
    assert_eq!(NotificationState::from_code(0), None);
    assert_eq!(NotificationState::from_code(8), None);
    assert_eq!(NotificationState::from_code(-1), None);
    assert_eq!(NotificationState::from_code(i32::MAX), None);
    assert_eq!(NotificationState::from_code(i32::MIN), None);
}

#[test]
fn the_states_that_show_a_fullscreen_mode() {
    assert!(NotificationState::RunningD3dFullScreen.is_fullscreen());
    assert!(NotificationState::PresentationMode.is_fullscreen());
    assert!(!NotificationState::NotPresent.is_fullscreen());
    assert!(!NotificationState::Busy.is_fullscreen());
    assert!(!NotificationState::AcceptsNotifications.is_fullscreen());
    assert!(!NotificationState::QuietTime.is_fullscreen());
    assert!(!NotificationState::App.is_fullscreen());
}

#[test]
fn the_first_step_reads_the_vibrance() {
    assert_eq!(
        handler(&config(), &foreground("Code.exe")),
        PolicyStep::ReadVibrance { target: 90, fullscreen_only: false }
    );
    assert_eq!(
        handler(&config(), &foreground("game.exe")),
        PolicyStep::ReadVibrance { target: 80, fullscreen_only: true }
    );
    assert_eq!(
        handler(&config(), &foreground("explorer.exe")),
        PolicyStep::ReadVibrance { target: 50, fullscreen_only: false }
    );
}

#[test]
fn a_configured_program_gets_its_vibrance() {
    let mut vibrance = 50;
    assert_eq!(run("Code.exe", &mut vibrance, None), (vec![90], 0, Ok(())));
    assert_eq!(vibrance, 90);
}

#[test]
fn another_program_gets_the_desktop_vibrance() {
    let mut vibrance = 90;
    assert_eq!(run("explorer.exe", &mut vibrance, None), (vec![50], 0, Ok(())));
    assert_eq!(vibrance, 50);
}

#[test]
fn a_vibrance_that_is_already_there_is_not_set() {
    let mut vibrance = 90;
    assert_eq!(run("Code.exe", &mut vibrance, None), (Vec::new(), 0, Ok(())));
    let mut vibrance = 50;
    assert_eq!(run("explorer.exe", &mut vibrance, None), (Vec::new(), 0, Ok(())));
}

#[test]
fn the_same_program_twice_sets_the_vibrance_once() {
    let mut vibrance = 50;
    let first = run("Code.exe", &mut vibrance, None);
    let second = run("Code.exe", &mut vibrance, None);
    assert_eq!(first.0.len() + second.0.len(), 1);
    assert_eq!(first, (vec![90], 0, Ok(())));
    assert_eq!(second, (Vec::new(), 0, Ok(())));

    let mut vibrance = 50;
    let first = run("game.exe", &mut vibrance, Some(NotificationState::PresentationMode));
    let second = run("game.exe", &mut vibrance, Some(NotificationState::PresentationMode));
    assert_eq!(first, (vec![80], 1, Ok(())));
    assert_eq!(second, (Vec::new(), 1, Ok(())));
}

#[test]
fn a_fullscreen_program_outside_fullscreen_is_left_alone() {
    for state in STATES {
        if state.is_fullscreen() {
            continue;
        }
        let mut vibrance = 50;
        assert_eq!(run("game.exe", &mut vibrance, Some(state)), (Vec::new(), 1, Ok(())));
        assert_eq!(vibrance, 50);
    }
}

#[test]
fn a_fullscreen_program_in_fullscreen_gets_its_vibrance() {
    for state in [NotificationState::RunningD3dFullScreen, NotificationState::PresentationMode] {
        let mut vibrance = 50;
        assert_eq!(run("game.exe", &mut vibrance, Some(state)), (vec![80], 1, Ok(())));
        assert_eq!(vibrance, 80);
    }
}

#[test]
fn a_failed_query_does_not_confirm_fullscreen() {
    let mut vibrance = 50;
    assert_eq!(run("game.exe", &mut vibrance, None), (Vec::new(), 1, Ok(())));
    assert_eq!(vibrance, 50);
}

#[test]
fn the_gate_step_by_step() {
    let step = handler(&config(), &foreground("game.exe"));
    let step = step.advance(PolicyReply::Vibrance(Ok(50)));
    assert_eq!(step, PolicyStep::QueryFullscreen { previous: 50, target: 80 });
    let step = step.advance(PolicyReply::Fullscreen(Some(NotificationState::AcceptsNotifications)));
    assert_eq!(step, PolicyStep::Done(Ok(())));

    let step = PolicyStep::QueryFullscreen { previous: 80, target: 80 };
    let step = step.advance(PolicyReply::Fullscreen(Some(NotificationState::PresentationMode)));
    assert_eq!(step, PolicyStep::Done(Ok(())));

    let step = PolicyStep::QueryFullscreen { previous: 0, target: 100 };
    let step = step.advance(PolicyReply::Fullscreen(Some(NotificationState::RunningD3dFullScreen)));
    assert_eq!(step, PolicyStep::SetVibrance { target: 100 });
}

#[test]
fn a_failed_read_ends_the_policy() {
    for process_exe in ["Code.exe", "game.exe", "explorer.exe"] {
        let step = handler(&config(), &foreground(process_exe));
        assert_eq!(
            step.advance(PolicyReply::Vibrance(Err(VividError::NoDisplayDetected))),
            PolicyStep::Done(Err(VividError::NoDisplayDetected))
        );
    }
}

#[test]
fn a_failed_write_ends_the_policy() {
    let step = PolicyStep::SetVibrance { target: 90 };
    assert_eq!(
        step.advance(PolicyReply::Applied(Err(VividError::NvAPIError(-6)))),
        PolicyStep::Done(Err(VividError::NvAPIError(-6)))
    );
    let step = PolicyStep::SetVibrance { target: 90 };
    assert_eq!(step.advance(PolicyReply::Applied(Ok(12))), PolicyStep::Done(Ok(())));
}

#[test]
fn an_answer_that_was_not_asked_for_changes_nothing() {
    let read = || PolicyStep::ReadVibrance { target: 90, fullscreen_only: true };
    assert_eq!(read().advance(PolicyReply::Fullscreen(None)), read());
    assert_eq!(read().advance(PolicyReply::Applied(Ok(90))), read());
    let query = || PolicyStep::QueryFullscreen { previous: 1, target: 2 };
    assert_eq!(query().advance(PolicyReply::Vibrance(Ok(2))), query());
    assert_eq!(query().advance(PolicyReply::Applied(Err(VividError::NoGpuDetected))), query());
    let set = || PolicyStep::SetVibrance { target: 2 };
    assert_eq!(set().advance(PolicyReply::Vibrance(Ok(2))), set());
    assert_eq!(
        set().advance(PolicyReply::Fullscreen(Some(NotificationState::PresentationMode))),
        set()
    );
}

#[test]
fn a_policy_that_has_ended_stays_ended() {
    let failed = || {
        PolicyStep::Done(Err(VividError::WindowsHookError(WindowsHookError::UnhookWinEvent(3))))
    };
    assert_eq!(failed().advance(PolicyReply::Vibrance(Ok(2))), failed());
    assert_eq!(failed().advance(PolicyReply::Fullscreen(None)), failed());
    assert_eq!(failed().advance(PolicyReply::Applied(Ok(1))), failed());
    let done = || PolicyStep::Done(Ok(()));
    assert_eq!(done().advance(PolicyReply::Vibrance(Err(VividError::NoGpuDetected))), done());
    assert_eq!(done().advance(PolicyReply::Applied(Err(VividError::NoGpuDetected))), done());
}
