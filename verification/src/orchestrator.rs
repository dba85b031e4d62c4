//! The install run as a state machine: which stage follows which outcome, and
//! what the observer is told on the way.
use vstd::prelude::*;
use crate::archive::ExtractError;
use crate::download::DownloadError;
use crate::launch::LaunchError;
use crate::presence::PresenceResult;
use crate::registrar::PathError;

verus! {

/// One step of the install run.
#[derive(Clone, Copy, Debug, PartialEq, Eq, Structural)]
pub enum Stage {
    CheckingTool,
    DownloadingTool,
    ExtractingTool,
    RegisteringPath,
    DownloadingSecondary,
    VerifyingSecondary,
    ExtractingSecondary,
    LaunchingSecondary,
}

/// What made a stage fail.
#[derive(Clone, Copy, Debug, PartialEq, Eq, Structural)]
pub enum Cause {
    Download(DownloadError),
    Extract(ExtractError),
    Path(PathError),
    Launch(LaunchError),
}

/// Where the run stands.
#[derive(Clone, Copy, Debug, PartialEq, Eq, Structural)]
pub enum RunState {
    /// The given stage is to be carried out next.
    Running(Stage),
    /// The secondary product was launched.
    Done,
    /// The given stage failed; nothing after it was attempted.
    Failed(Stage, Cause),
}

/// What carrying out a stage came to.
#[derive(Clone, Copy, Debug)]
pub enum Outcome {
    Presence(PresenceResult),
    Downloaded(Result<u64, DownloadError>),
    Verified(Result<(), ExtractError>),
    Extracted(Result<(), ExtractError>),
    Registered(Result<(), PathError>),
    Launched(Result<(), LaunchError>),
}

/// The terminal outcome of a run.
#[derive(Clone, Copy, Debug, PartialEq, Eq, Structural)]
pub enum InstallResult {
    Success,
    Failure { stage: Stage, cause: Cause },
}

impl RunState {
    /// The run has ended, one way or the other.
    pub open spec fn is_terminal(self) -> bool {
        !(self is Running)
    }

    /// Whether the run has ended.
    pub fn ended(&self) -> (b: bool)
        ensures
            b == self.is_terminal(),
    {
        match self {
            RunState::Running(_) => false,
            _ => true,
        }
    }

    /// The terminal outcome, once the run has ended.
    pub fn result(&self) -> (r: Option<InstallResult>)
        ensures
            r == match *self {
                RunState::Running(_) => None,
                RunState::Done => Some(InstallResult::Success),
                RunState::Failed(stage, cause) => Some(InstallResult::Failure { stage, cause }),
            },
    {
        match self {
            RunState::Running(_) => None,
            RunState::Done => Some(InstallResult::Success),
            RunState::Failed(stage, cause) => Some(
                InstallResult::Failure { stage: *stage, cause: *cause },
            ),
        }
    }
}

/// The state in which every run starts.
pub open spec fn initial_state() -> RunState {
    RunState::Running(Stage::CheckingTool)
}

/// The state that follows when `stage` has succeeded. A tool found present
/// is dealt with in `next_state`.
pub open spec fn after_success(stage: Stage) -> RunState {
    match stage {
        Stage::CheckingTool => RunState::Running(Stage::DownloadingTool),
        Stage::DownloadingTool => RunState::Running(Stage::ExtractingTool),
        Stage::ExtractingTool => RunState::Running(Stage::RegisteringPath),
        Stage::RegisteringPath => RunState::Running(Stage::DownloadingSecondary),
        Stage::DownloadingSecondary => RunState::Running(Stage::VerifyingSecondary),
        Stage::VerifyingSecondary => RunState::Running(Stage::ExtractingSecondary),
        Stage::ExtractingSecondary => RunState::Running(Stage::LaunchingSecondary),
        Stage::LaunchingSecondary => RunState::Done,
    }
}

/// The outcome is one that the stage produces.
pub open spec fn belongs_to(stage: Stage, outcome: Outcome) -> bool {
    match (stage, outcome) {
        (Stage::CheckingTool, Outcome::Presence(_)) => true,
        (Stage::DownloadingTool, Outcome::Downloaded(_)) => true,
        (Stage::ExtractingTool, Outcome::Extracted(_)) => true,
        (Stage::RegisteringPath, Outcome::Registered(_)) => true,
        (Stage::DownloadingSecondary, Outcome::Downloaded(_)) => true,
        (Stage::VerifyingSecondary, Outcome::Verified(_)) => true,
        (Stage::ExtractingSecondary, Outcome::Extracted(_)) => true,
        (Stage::LaunchingSecondary, Outcome::Launched(_)) => true,
        _ => false,
    }
}

/// The failure that the outcome reports, if it reports one. An absent tool is
/// no failure.
pub open spec fn failure_of(outcome: Outcome) -> Option<Cause> {
    match outcome {
        Outcome::Presence(_) => None,
        Outcome::Downloaded(Err(e)) => Some(Cause::Download(e)),
        Outcome::Verified(Err(e)) => Some(Cause::Extract(e)),
        Outcome::Extracted(Err(e)) => Some(Cause::Extract(e)),
        Outcome::Registered(Err(e)) => Some(Cause::Path(e)),
        Outcome::Launched(Err(e)) => Some(Cause::Launch(e)),
        _ => None,
    }
}

/// The state that follows `state` on `outcome`.
///
/// A run that has ended stays as it is, and so does a run that is handed an
/// outcome of another stage. A failure ends the run in `Failed` with the
/// stage that was running. A tool found present skips its download and
/// extraction. Every other success leads to the next stage in order.
pub open spec fn next_state(state: RunState, outcome: Outcome) -> RunState {
    match state {
        RunState::Running(stage) => if !belongs_to(stage, outcome) {
            state
        } else {
            match failure_of(outcome) {
                Some(cause) => RunState::Failed(stage, cause),
                None => match outcome {
                    Outcome::Presence(PresenceResult::Present) => RunState::Running(
                        Stage::RegisteringPath,
                    ),
                    _ => after_success(stage),
                },
            }
        },
        _ => state,
    }
}

/// The state in which every run starts.
pub fn start() -> (state: RunState)
    ensures
        state == initial_state(),
{
    RunState::Running(Stage::CheckingTool)
}

/// The cause of failure that an outcome carries, if any.
fn cause_of(outcome: Outcome) -> (r: Option<Cause>)
    ensures
        r == failure_of(outcome),
{
    match outcome {
        Outcome::Presence(_) => None,
        Outcome::Downloaded(Err(e)) => Some(Cause::Download(e)),
        Outcome::Verified(Err(e)) => Some(Cause::Extract(e)),
        Outcome::Extracted(Err(e)) => Some(Cause::Extract(e)),
        Outcome::Registered(Err(e)) => Some(Cause::Path(e)),
        Outcome::Launched(Err(e)) => Some(Cause::Launch(e)),
        _ => None,
    }
}

/// Whether the outcome is one that the stage produces.
fn produced_by(stage: Stage, outcome: Outcome) -> (b: bool)
    ensures
        b == belongs_to(stage, outcome),
{
    match (stage, outcome) {
        (Stage::CheckingTool, Outcome::Presence(_)) => true,
        (Stage::DownloadingTool, Outcome::Downloaded(_)) => true,
        (Stage::ExtractingTool, Outcome::Extracted(_)) => true,
        (Stage::RegisteringPath, Outcome::Registered(_)) => true,
        (Stage::DownloadingSecondary, Outcome::Downloaded(_)) => true,
        (Stage::VerifyingSecondary, Outcome::Verified(_)) => true,
        (Stage::ExtractingSecondary, Outcome::Extracted(_)) => true,
        (Stage::LaunchingSecondary, Outcome::Launched(_)) => true,
        _ => false,
    }
}

/// The state that follows when the stage has succeeded.
fn successor(stage: Stage) -> (state: RunState)
    ensures
        state == after_success(stage),
{
    match stage {
        Stage::CheckingTool => RunState::Running(Stage::DownloadingTool),
        Stage::DownloadingTool => RunState::Running(Stage::ExtractingTool),
        Stage::ExtractingTool => RunState::Running(Stage::RegisteringPath),
        Stage::RegisteringPath => RunState::Running(Stage::DownloadingSecondary),
        Stage::DownloadingSecondary => RunState::Running(Stage::VerifyingSecondary),
        Stage::VerifyingSecondary => RunState::Running(Stage::ExtractingSecondary),
        Stage::ExtractingSecondary => RunState::Running(Stage::LaunchingSecondary),
        Stage::LaunchingSecondary => RunState::Done,
    }
}

/// Moves the run on by one outcome.
///
/// Besides following `next_state`: a run that has ended does not move, a
/// failure names the stage that was running, and `Done` is reached only from
/// a successful launch.
pub fn advance(state: RunState, outcome: Outcome) -> (next: RunState)
    ensures
        next == next_state(state, outcome),
        state.is_terminal() ==> next == state,
        !state.is_terminal() && next is Failed ==> state == RunState::Running(next->Failed_0),
        !state.is_terminal() && next is Done ==> state == RunState::Running(
            Stage::LaunchingSecondary,
        ) && outcome matches Outcome::Launched(Ok(_)),
{
    match state {
        RunState::Running(stage) => {
            if !produced_by(stage, outcome) {
                return state;
            }
            match cause_of(outcome) {
                Some(cause) => RunState::Failed(stage, cause),
                None => match outcome {
                    Outcome::Presence(PresenceResult::Present) => RunState::Running(
                        Stage::RegisteringPath,
                    ),
                    _ => successor(stage),
                },
            }
        },
        _ => state,
    }
}

} // verus!
