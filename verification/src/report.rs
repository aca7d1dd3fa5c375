//! What the user is told when the network is not ready.

use vstd::prelude::*;
use vstd::string::*;
use crate::orchestrator::ExecutionStatus;
use crate::text::{join, joined};

verus! {

/// The diagnostics as one line of detail: joined by `", "`; none where there
/// are no diagnostics.
pub open spec fn failure_detail(errors: Seq<Seq<char>>) -> Option<Seq<char>> {
    if errors.len() > 0 {
        Some(joined(errors, ", "@))
    } else {
        None
    }
}

/// The lines that tell the user that the network is not ready: three lines of
/// advice, and the detail on a fourth where there is one and the output is
/// verbose.
pub open spec fn not_ready_lines(verbose: bool, detail: Option<Seq<char>>) -> Seq<Seq<char>> {
    let advice = seq![
        "Network not ready - this may be a first-time Wi-Fi connection"@,
        "  Close any macOS network popup windows and try again"@,
        "  Or wait a few seconds for the network to stabilize"@,
    ];
    match detail {
        Some(text) => if verbose {
            advice.push("  Detail: "@ + text)
        } else {
            advice
        },
        None => advice,
    }
}

/// Ends a run whose network is not ready: the status, and the diagnostics as
/// one line of detail for the user.
pub fn finish_network_not_ready(errors: &Vec<String>) -> (end: (ExecutionStatus, Option<String>))
    ensures
        end.0 == ExecutionStatus::NetworkNotReady,
        end.1.deep_view() == failure_detail(errors.deep_view()),
{
    if errors.len() > 0 {
        (ExecutionStatus::NetworkNotReady, Some(join(errors, ", ")))
    } else {
        (ExecutionStatus::NetworkNotReady, None)
    }
}

/// The lines that tell the user that the network is not ready.
pub fn network_not_ready_lines(verbose: bool, detail: Option<&str>) -> (lines: Vec<String>)
    ensures
        lines.deep_view() == not_ready_lines(
            verbose,
            match detail {
                Some(text) => Some(text@),
                None => None,
            },
        ),
{
    let mut lines: Vec<String> = Vec::new();
    lines.push(String::from_str("Network not ready - this may be a first-time Wi-Fi connection"));
    lines.push(String::from_str("  Close any macOS network popup windows and try again"));
    lines.push(String::from_str("  Or wait a few seconds for the network to stabilize"));
    let ghost advice = lines.deep_view();
    assert(advice =~= seq![
        "Network not ready - this may be a first-time Wi-Fi connection"@,
        "  Close any macOS network popup windows and try again"@,
        "  Or wait a few seconds for the network to stabilize"@,
    ]);
    if verbose {
        if let Some(text) = detail {
            let mut line = String::from_str("  Detail: ");
            line.append(text);
            lines.push(line);
            assert(lines.deep_view() =~= advice.push("  Detail: "@ + text@));
        }
    }
    lines
}

} // verus!
