//! What the observer is told: a label for every stage, a sentence for every
//! failure, and the events that carry them.
use vstd::prelude::*;
use vstd::string::StringExecFns;
use crate::archive::ExtractError;
use crate::download::DownloadError;
use crate::launch::LaunchError;
use crate::orchestrator::{advance, next_state, Cause, Outcome, RunState, Stage};
use crate::progress::Progress;
use crate::registrar::PathError;

verus! {

/// The status that means that the resource does not exist.
pub const NOT_FOUND: u16 = 404;

/// What the observer is told: a description and a percentage.
#[derive(Clone, Debug, PartialEq, Eq)]
pub struct ProgressEvent {
    pub stage: String,
    pub percent: u8,
}

/// The decimal digit for a value below ten.
pub open spec fn digit(value: nat) -> char
    recommends
        value < 10,
{
    if value == 0 {
        '0'
    } else if value == 1 {
        '1'
    } else if value == 2 {
        '2'
    } else if value == 3 {
        '3'
    } else if value == 4 {
        '4'
    } else if value == 5 {
        '5'
    } else if value == 6 {
        '6'
    } else if value == 7 {
        '7'
    } else if value == 8 {
        '8'
    } else {
        '9'
    }
}

/// The decimal numeral of `value`, without leading zeros.
pub open spec fn decimal(value: nat) -> Seq<char>
    decreases value,
{
    if value < 10 {
        seq![digit(value)]
    } else {
        decimal(value / 10).push(digit(value % 10))
    }
}

/// The label under which a stage is reported.
pub open spec fn stage_label(stage: Stage) -> Seq<char> {
    match stage {
        Stage::CheckingTool => "checking tool"@,
        Stage::DownloadingTool => "downloading tool"@,
        Stage::ExtractingTool => "extracting tool"@,
        Stage::RegisteringPath => "registering path"@,
        Stage::DownloadingSecondary => "downloading secondary package"@,
        Stage::VerifyingSecondary => "verifying secondary package"@,
        Stage::ExtractingSecondary => "extracting secondary package"@,
        Stage::LaunchingSecondary => "launching secondary package"@,
    }
}

/// The sentence that describes a cause of failure. A status is given by its
/// number, and "not found" is told apart from the other statuses.
pub open spec fn cause_text(cause: Cause) -> Seq<char> {
    match cause {
        Cause::Download(DownloadError::HttpStatus(code)) => if code == NOT_FOUND {
            "HTTP status "@ + decimal(code as nat) + " (not found)"@
        } else {
            "HTTP status "@ + decimal(code as nat)
        },
        Cause::Download(DownloadError::EmptyBody) => "empty response body"@,
        Cause::Download(DownloadError::Transport) => "network failure"@,
        Cause::Download(DownloadError::Io) => "cannot write the downloaded file"@,
        Cause::Extract(ExtractError::Invalid) => "invalid or empty archive"@,
        Cause::Extract(ExtractError::UnsafePath) => "archive entry escapes the install directory"@,
        Cause::Extract(ExtractError::EntryRead) => "archive entry cannot be read"@,
        Cause::Extract(ExtractError::Io) => "cannot write an extracted file"@,
        Cause::Path(PathError::StoreUnavailable) => "search path store unavailable"@,
        Cause::Launch(LaunchError::ExecutableNotFound) => "no executable found"@,
        Cause::Launch(LaunchError::SpawnFailed) => "cannot start the executable"@,
    }
}

/// The message for a failed stage: its label, then the cause.
pub open spec fn failure_text(stage: Stage, cause: Cause) -> Seq<char> {
    stage_label(stage) + " failed: "@ + cause_text(cause)
}

/// The description of a state.
pub open spec fn state_text(state: RunState) -> Seq<char> {
    match state {
        RunState::Running(stage) => stage_label(stage),
        RunState::Done => "done"@,
        RunState::Failed(stage, cause) => failure_text(stage, cause),
    }
}

/// The percentage announced on entering a state: a stage starts at zero, and
/// only a finished run stands at 100.
pub open spec fn entry_percent(state: RunState) -> nat {
    match state {
        RunState::Done => 100,
        _ => 0,
    }
}

/// The decimal digit for a value below ten.
fn digit_char(value: u16) -> (c: char)
    requires
        value < 10,
    ensures
        c == digit(value as nat),
{
    if value == 0 {
        '0'
    } else if value == 1 {
        '1'
    } else if value == 2 {
        '2'
    } else if value == 3 {
        '3'
    } else if value == 4 {
        '4'
    } else if value == 5 {
        '5'
    } else if value == 6 {
        '6'
    } else if value == 7 {
        '7'
    } else if value == 8 {
        '8'
    } else {
        '9'
    }
}

/// Appends the decimal numeral of `value` to `out`.
pub fn push_decimal(out: &mut String, value: u16)
    ensures
        final(out)@ == old(out)@ + decimal(value as nat),
    decreases value,
{
    if value >= 10 {
        push_decimal(out, value / 10);
    }
    out.push(digit_char(value % 10));
    assert(out@ =~= old(out)@ + decimal(value as nat));
}

/// The label under which a stage is reported.
pub fn label(stage: Stage) -> (s: String)
    ensures
        s@ == stage_label(stage),
{
    match stage {
        Stage::CheckingTool => String::from_str("checking tool"),
        Stage::DownloadingTool => String::from_str("downloading tool"),
        Stage::ExtractingTool => String::from_str("extracting tool"),
        Stage::RegisteringPath => String::from_str("registering path"),
        Stage::DownloadingSecondary => String::from_str("downloading secondary package"),
        Stage::VerifyingSecondary => String::from_str("verifying secondary package"),
        Stage::ExtractingSecondary => String::from_str("extracting secondary package"),
        Stage::LaunchingSecondary => String::from_str("launching secondary package"),
    }
}

/// The sentence that describes a cause of failure.
pub fn describe_cause(cause: Cause) -> (s: String)
    ensures
        s@ == cause_text(cause),
{
    match cause {
        Cause::Download(DownloadError::HttpStatus(code)) => {
            let mut s = String::from_str("HTTP status ");
            push_decimal(&mut s, code);
            if code == NOT_FOUND {
                s.append(" (not found)");
            }
            s
        },
        Cause::Download(DownloadError::EmptyBody) => String::from_str("empty response body"),
        Cause::Download(DownloadError::Transport) => String::from_str("network failure"),
        Cause::Download(DownloadError::Io) => String::from_str("cannot write the downloaded file"),
        Cause::Extract(ExtractError::Invalid) => String::from_str("invalid or empty archive"),
        Cause::Extract(ExtractError::UnsafePath) => String::from_str(
            "archive entry escapes the install directory",
        ),
        Cause::Extract(ExtractError::EntryRead) => String::from_str("archive entry cannot be read"),
        Cause::Extract(ExtractError::Io) => String::from_str("cannot write an extracted file"),
        Cause::Path(PathError::StoreUnavailable) => String::from_str(
            "search path store unavailable",
        ),
        Cause::Launch(LaunchError::ExecutableNotFound) => String::from_str("no executable found"),
        Cause::Launch(LaunchError::SpawnFailed) => String::from_str("cannot start the executable"),
    }
}

/// The message for a failed stage.
pub fn describe_failure(stage: Stage, cause: Cause) -> (s: String)
    ensures
        s@ == failure_text(stage, cause),
{
    let mut s = label(stage);
    s.append(" failed: ");
    let text = describe_cause(cause);
    s.append(text.as_str());
    s
}

/// The event that announces a state.
pub fn announce(state: RunState) -> (event: ProgressEvent)
    ensures
        event.stage@ == state_text(state),
        event.percent == entry_percent(state),
{
    match state {
        RunState::Running(stage) => ProgressEvent { stage: label(stage), percent: 0 },
        RunState::Done => ProgressEvent { stage: String::from_str("done"), percent: 100 },
        RunState::Failed(stage, cause) => ProgressEvent {
            stage: describe_failure(stage, cause),
            percent: 0,
        },
    }
}

/// The event that reports progress within a stage: the stage's label and
/// the reading's percentage, which is held to 100 at most.
pub fn stage_event(stage: Stage, progress: Progress) -> (event: ProgressEvent)
    ensures
        event.stage@ == stage_label(stage),
        event.percent == if progress.value() > 100 {
            100
        } else {
            progress.value()
        },
{
    let percent = progress.percent();
    ProgressEvent { stage: label(stage), percent: if percent > 100 { 100 } else { percent } }
}

/// Moves the run on by one outcome and announces the state entered.
///
/// There is an event exactly when the state has changed; it describes the
/// new state.
pub fn step(state: RunState, outcome: Outcome) -> (r: (RunState, Option<ProgressEvent>))
    ensures
        r.0 == next_state(state, outcome),
        r.1 is Some <==> r.0 != state,
        r.1 is Some ==> r.1->0.stage@ == state_text(r.0) && r.1->0.percent == entry_percent(r.0),
{
    let next = advance(state, outcome);
    if next == state {
        (next, None)
    } else {
        (next, Some(announce(next)))
    }
}

} // verus!
