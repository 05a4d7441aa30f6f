//! The vibrance policy: what a change of the foreground window calls for.
//!
//! The policy does not talk to the GPU or to the operating system itself. It
//! proceeds in steps: each step names what has to be asked of them, and the
//! answer leads to the next step.

use crate::config::{Config, ConfigView};
use crate::error::{VividError, VividResult};
use crate::foreground_watch::ForegroundWatcherEvent;
use vstd::prelude::*;

verus! {

/// What the operating system reports of the user's notification state.
#[derive(Debug, Clone, Copy, PartialEq, Eq, Structural)]
pub enum NotificationState {
    /// A screen saver is displayed, the machine is locked, or a fast user
    /// switch is in progress.
    NotPresent,
    /// A full-screen application is running, or presentation settings are
    /// applied.
    Busy,
    /// A full-screen Direct3D application is running in exclusive mode.
    RunningD3dFullScreen,
    /// The user has activated presentation settings.
    PresentationMode,
    /// None of the other states holds.
    AcceptsNotifications,
    /// The quiet time after a fresh install is in effect.
    QuietTime,
    /// A store application is running.
    App,
}

impl NotificationState {
    /// The state that the system's number `code` stands for.
    pub open spec fn spec_from_code(code: i32) -> Option<NotificationState> {
        if code == 1 {
            Some(NotificationState::NotPresent)
        } else if code == 2 {
            Some(NotificationState::Busy)
        } else if code == 3 {
            Some(NotificationState::RunningD3dFullScreen)
        } else if code == 4 {
            Some(NotificationState::PresentationMode)
        } else if code == 5 {
            Some(NotificationState::AcceptsNotifications)
        } else if code == 6 {
            Some(NotificationState::QuietTime)
        } else if code == 7 {
            Some(NotificationState::App)
        } else {
            None
        }
    }

    /// Whether the state shows an exclusive full-screen or a presentation
    /// mode to be active.
    pub open spec fn spec_is_fullscreen(self) -> bool {
        self is RunningD3dFullScreen || self is PresentationMode
    }

    /// The state that the system's number `code` stands for, if it stands
    /// for one.
    pub fn from_code(code: i32) -> (state: Option<NotificationState>)
        ensures
            state == Self::spec_from_code(code),
    {
        if code == 1 {
            Some(NotificationState::NotPresent)
        } else if code == 2 {
            Some(NotificationState::Busy)
        } else if code == 3 {
            Some(NotificationState::RunningD3dFullScreen)
        } else if code == 4 {
            Some(NotificationState::PresentationMode)
        } else if code == 5 {
            Some(NotificationState::AcceptsNotifications)
        } else if code == 6 {
            Some(NotificationState::QuietTime)
        } else if code == 7 {
            Some(NotificationState::App)
        } else {
            None
        }
    }

    #[verifier::when_used_as_spec(spec_is_fullscreen)]
    pub fn is_fullscreen(self) -> (fullscreen: bool)
        ensures
            fullscreen == self.spec_is_fullscreen(),
    {
        match self {
            NotificationState::RunningD3dFullScreen | NotificationState::PresentationMode => true,
            _ => false,
        }
    }
}

/// Whether the answer to a query of the notification state confirms a
/// full-screen mode. A query that failed (`None`) confirms nothing.
pub open spec fn fullscreen_confirmed(state: Option<NotificationState>) -> bool {
    match state {
        Some(state) => state.spec_is_fullscreen(),
        None => false,
    }
}

/// What the caller has to do next for the policy.
#[derive(Debug, PartialEq, Eq)]
pub enum PolicyStep {
    /// Read the current vibrance from the GPU. The foreground program calls
    /// for `target`, in full-screen mode only if `fullscreen_only`.
    ReadVibrance { target: u8, fullscreen_only: bool },
    /// Ask the operating system for the notification state. The vibrance is
    /// `previous` now, and in full-screen mode it is to be `target`.
    QueryFullscreen { previous: u8, target: u8 },
    /// Set the vibrance to `target`.
    SetVibrance { target: u8 },
    /// Nothing is left to do: the policy has ended with this result.
    Done(VividResult<()>),
}

/// An answer to a step of the policy.
#[derive(Debug, PartialEq, Eq)]
pub enum PolicyReply {
    /// The vibrance that was read, or why it could not be.
    Vibrance(VividResult<u8>),
    /// The notification state, or `None` where the query failed.
    Fullscreen(Option<NotificationState>),
    /// What setting the vibrance returned.
    Applied(VividResult<u8>),
}

/// The first step for a foreground program named `exe`.
pub open spec fn first_step(config: ConfigView, exe: Seq<char>) -> PolicyStep {
    PolicyStep::ReadVibrance { target: config.policy(exe).0, fullscreen_only: config.policy(exe).1 }
}

/// The step that follows `step` once it was answered with `reply`. An answer
/// that `step` did not ask for leaves it as it is.
pub open spec fn next_step(step: PolicyStep, reply: PolicyReply) -> PolicyStep {
    match (step, reply) {
        (PolicyStep::ReadVibrance { .. }, PolicyReply::Vibrance(Err(error))) => PolicyStep::Done(
            Err(error),
        ),
        (
            PolicyStep::ReadVibrance { target, fullscreen_only },
            PolicyReply::Vibrance(Ok(previous)),
        ) => {
            if fullscreen_only {
                PolicyStep::QueryFullscreen { previous, target }
            } else if target != previous {
                PolicyStep::SetVibrance { target }
            } else {
                PolicyStep::Done(Ok(()))
            }
        },
        (PolicyStep::QueryFullscreen { previous, target }, PolicyReply::Fullscreen(state)) => {
            if fullscreen_confirmed(state) && target != previous {
                PolicyStep::SetVibrance { target }
            } else {
                PolicyStep::Done(Ok(()))
            }
        },
        (PolicyStep::SetVibrance { .. }, PolicyReply::Applied(Ok(_))) => PolicyStep::Done(Ok(())),
        (PolicyStep::SetVibrance { .. }, PolicyReply::Applied(Err(error))) => PolicyStep::Done(
            Err(error),
        ),
        (step, _) => step,
    }
}

/// The vibrance that the policy has set for a foreground program named `exe`,
/// if it has it set at all, where the vibrance is `previous` and a query of
/// the notification state is answered with `state`.
///
/// The program's vibrance is set where it differs from the current one and,
/// for a program restricted to full-screen mode, a full-screen mode is
/// confirmed.
pub open spec fn applied_vibrance(
    config: ConfigView,
    exe: Seq<char>,
    previous: u8,
    state: Option<NotificationState>,
) -> Option<u8> {
    let (target, fullscreen_only) = config.policy(exe);
    if (fullscreen_only ==> fullscreen_confirmed(state)) && target != previous {
        Some(target)
    } else {
        None
    }
}

/// The step that the policy has reached once the vibrance was read as
/// `previous` and, where the policy asked for the notification state, that
/// query was answered with `state`.
pub open spec fn step_after_queries(
    config: ConfigView,
    exe: Seq<char>,
    previous: u8,
    state: Option<NotificationState>,
) -> PolicyStep {
    let read = next_step(first_step(config, exe), PolicyReply::Vibrance(Ok(previous)));
    if read is QueryFullscreen {
        next_step(read, PolicyReply::Fullscreen(state))
    } else {
        read
    }
}

/// The steps carry out `applied_vibrance`: once the queries are answered, the
/// policy asks to set exactly the vibrance that `applied_vibrance` names, and
/// ends without setting any where it names none. The notification state is
/// asked for exactly where the program is restricted to full-screen mode.
pub proof fn lemma_steps_follow_policy(
    config: ConfigView,
    exe: Seq<char>,
    previous: u8,
    state: Option<NotificationState>,
)
    ensures
        next_step(first_step(config, exe), PolicyReply::Vibrance(Ok(previous))) is QueryFullscreen
            <==> config.policy(exe).1,
        step_after_queries(config, exe, previous, state) == match applied_vibrance(
            config,
            exe,
            previous,
            state,
        ) {
            Some(target) => PolicyStep::SetVibrance { target },
            None => PolicyStep::Done(Ok(())),
        },
{
}

/// A program restricted to full-screen mode does not have its vibrance set
/// while no full-screen mode is confirmed, however much the vibrances differ.
pub proof fn lemma_fullscreen_gate(
    config: ConfigView,
    exe: Seq<char>,
    previous: u8,
    state: Option<NotificationState>,
)
    requires
        config.policy(exe).1,
        !fullscreen_confirmed(state),
    ensures
        applied_vibrance(config, exe, previous, state) is None,
        step_after_queries(config, exe, previous, state) == PolicyStep::Done(Ok(())),
{
}

/// Where the policy has set the vibrance for a program, so that the display
/// now has it, the policy sets none when the same program comes to the
/// foreground again, whatever the notification state is by then.
pub proof fn lemma_policy_idempotent(
    config: ConfigView,
    exe: Seq<char>,
    previous: u8,
    first: Option<NotificationState>,
    second: Option<NotificationState>,
)
    ensures
        applied_vibrance(config, exe, previous, first) matches Some(applied) ==> {
            &&& applied_vibrance(config, exe, applied, second) is None
            &&& step_after_queries(config, exe, applied, second) == PolicyStep::Done(Ok(()))
        },
{
}

/// Starts the policy for the change of foreground `args`: the first step
/// asks for the current vibrance and holds what the program calls for.
pub fn handler(config: &Config, args: &ForegroundWatcherEvent) -> (step: PolicyStep)
    ensures
        step == first_step(config@, args.process_exe@),
{
    let (target, fullscreen_only) = config.policy(args.process_exe.as_str());
    PolicyStep::ReadVibrance { target, fullscreen_only }
}

impl PolicyStep {
    /// The step that follows once this one was answered with `reply`.
    pub fn advance(self, reply: PolicyReply) -> (next: PolicyStep)
        ensures
            next == next_step(self, reply),
    {
        match (self, reply) {
            (PolicyStep::ReadVibrance { .. }, PolicyReply::Vibrance(Err(error))) => {
                PolicyStep::Done(Err(error))
            },
            (
                PolicyStep::ReadVibrance { target, fullscreen_only },
                PolicyReply::Vibrance(Ok(previous)),
            ) => {
                if fullscreen_only {
                    PolicyStep::QueryFullscreen { previous, target }
                } else if target != previous {
                    PolicyStep::SetVibrance { target }
                } else {
                    PolicyStep::Done(Ok(()))
                }
            },
            (PolicyStep::QueryFullscreen { previous, target }, PolicyReply::Fullscreen(state)) => {
                let confirmed = match state {
                    Some(state) => state.is_fullscreen(),
                    None => false,
                };
                if confirmed && target != previous {
                    PolicyStep::SetVibrance { target }
                } else {
                    PolicyStep::Done(Ok(()))
                }
            },
            (PolicyStep::SetVibrance { .. }, PolicyReply::Applied(Ok(_))) => PolicyStep::Done(
                Ok(()),
            ),
            (PolicyStep::SetVibrance { .. }, PolicyReply::Applied(Err(error))) => PolicyStep::Done(
                Err(error),
            ),
            (step, _) => step,
        }
    }
}

} // verus!
