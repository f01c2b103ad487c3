//! The fixed report the program gives once both routines have run: the
//! download outcome first, then the child's decoded standard output, then
//! its decoded standard error — and the exit code the program finishes with.

use vstd::prelude::*;
use vstd::string::StringSliceAdditionalSpecFns;
use crate::command;
use crate::command::CommandOutput;
use crate::download::DownloadError;
use crate::text;

verus! {

pub open spec fn success_line_spec(handle_text: Seq<u8>) -> Seq<u8> {
    "n is ".spec_bytes() + handle_text
}

pub open spec fn error_line_spec(message: Seq<u8>) -> Seq<u8> {
    "Error: ".spec_bytes() + message
}

/// The line reporting a download outcome: the success line carrying the
/// file handle's debug text, or the error line carrying the failure's text.
pub open spec fn outcome_line_spec(outcome: Result<Vec<u8>, DownloadError>) -> Seq<u8> {
    match outcome {
        Ok(handle_text) => success_line_spec(handle_text@),
        Err(error) => error_line_spec(error.message@),
    }
}

/// Build the one line that reports the download outcome.
pub fn download_outcome_line(outcome: &Result<Vec<u8>, DownloadError>) -> (line: Vec<u8>)
    ensures
        line@ == outcome_line_spec(*outcome),
{
    match outcome {
        Ok(handle_text) => text::prefixed_line("n is ", handle_text),
        Err(error) => text::prefixed_line("Error: ", &error.message),
    }
}

/// Everything the program reports at the end, in print order, and the exit
/// code it finishes with.
#[derive(Debug, PartialEq)]
pub struct ProgramReport {
    pub lines: Vec<Vec<u8>>,
    pub exit_code: i32,
}

/// The final report: the download outcome line first, then the child's
/// decoded standard output, then its decoded standard error. The exit code
/// is zero whatever the download outcome and whatever the child's exit
/// code: failures are reported through printed text alone.
pub fn program_report(
    outcome: Result<Vec<u8>, DownloadError>,
    output: &CommandOutput,
) -> (report: ProgramReport)
    ensures
        report.lines@.len() == 3,
        report.lines@[0]@ == outcome_line_spec(outcome),
        report.lines@[1]@ == text::lossy_utf8_of(output.stdout@),
        report.lines@[2]@ == text::lossy_utf8_of(output.stderr@),
        report.exit_code == 0,
{
    let mut lines: Vec<Vec<u8>> = Vec::new();
    lines.push(download_outcome_line(&outcome));
    let mut command_lines = command::command_report(output);
    lines.append(&mut command_lines);
    ProgramReport { lines, exit_code: 0 }
}

} // verus!
