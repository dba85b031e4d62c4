//! Classifying the outcome of probing for an installed tool.
use vstd::prelude::*;
use crate::text::{contains, str_contains};

verus! {

/// Whether the tool is installed and answers.
#[derive(Clone, Copy, Debug, PartialEq, Eq, Structural)]
pub enum PresenceResult {
    Present,
    Absent,
}

/// What came of running the tool with its version argument.
#[derive(Clone, Debug, PartialEq, Eq)]
pub enum Probe {
    /// The process could not be started.
    SpawnFailed,
    /// The process ran to its end.
    Exited { success: bool, stdout: String },
}

/// The probe shows a working tool: the process exited successfully and its
/// output holds the version marker.
pub open spec fn shows_tool(probe: Probe, marker: Seq<char>) -> bool {
    match probe {
        Probe::SpawnFailed => false,
        Probe::Exited { success, stdout } => success && contains(stdout@, marker),
    }
}

/// Classifies a probe. A tool that cannot be started, exits with a failure or
/// prints no version marker is absent; none of these is an error.
pub fn check(probe: &Probe, marker: &str) -> (r: PresenceResult)
    ensures
        r == PresenceResult::Present <==> shows_tool(*probe, marker@),
        r == PresenceResult::Absent <==> !shows_tool(*probe, marker@),
{
    match probe {
        Probe::SpawnFailed => PresenceResult::Absent,
        Probe::Exited { success, stdout } => {
            if *success && str_contains(stdout.as_str(), marker) {
                PresenceResult::Present
            } else {
                PresenceResult::Absent
            }
        },
    }
}

} // verus!
