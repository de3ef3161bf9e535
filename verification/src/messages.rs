//! The diagnostics the bridge hands to its caller, one per way a request can
//! fail.  Each is a plain string; the spec function beside each builder says
//! what it holds, character for character.

use vstd::prelude::*;
use vstd::string::*;
use crate::trusted::{path_debug_text, render_path};

verus! {

/// The request payload could not be encoded as JSON.
pub open spec fn serialization_failure_text(detail: Seq<char>) -> Seq<char> {
    "JSON serialization error: "@ + detail
}

/// The working directory could not be determined.
pub open spec fn cwd_failure_text(detail: Seq<char>) -> Seq<char> {
    "Failed to get current directory: "@ + detail
}

/// The interpreter could not be started; names the script and the directory
/// it was to run in, each as a quoted path.
pub open spec fn launch_failure_text(
    detail: Seq<char>,
    script: Seq<char>,
    cwd: Seq<char>,
) -> Seq<char> {
    "Failed to execute node: "@ + detail + "\nScript: "@ + path_debug_text(script) + "\nCWD: "@
        + path_debug_text(cwd)
}

/// The script ran and exited with failure; names the script as a quoted path
/// before what it wrote to its error and output streams.
pub open spec fn script_failure_text(
    script: Seq<char>,
    stderr: Seq<char>,
    stdout: Seq<char>,
) -> Seq<char> {
    "Node script failed:\nScript: "@ + path_debug_text(script) + "\nSTDERR: "@ + stderr
        + "\nSTDOUT: "@ + stdout
}

/// The script succeeded but its output is not a JSON array; carries the
/// parser's diagnostic and the output as it was read.
pub open spec fn parse_failure_text(detail: Seq<char>, output: Seq<char>) -> Seq<char> {
    "Failed to parse JSON: "@ + detail + "\nOutput: "@ + output
}

/// Words the diagnostic for a payload that could not be encoded as JSON.
pub fn serialization_failure(detail: &str) -> (message: String)
    ensures
        message@ == serialization_failure_text(detail@),
{
    let mut message = String::from_str("JSON serialization error: ");
    message.append(detail);
    message
}

/// Words the diagnostic for a working directory that could not be determined.
pub fn cwd_failure(detail: &str) -> (message: String)
    ensures
        message@ == cwd_failure_text(detail@),
{
    let mut message = String::from_str("Failed to get current directory: ");
    message.append(detail);
    message
}

/// Words the diagnostic for an interpreter that could not be started.
pub fn launch_failure(detail: &str, script: &str, cwd: &str) -> (message: String)
    ensures
        message@ == launch_failure_text(detail@, script@, cwd@),
{
    let script_shown = render_path(script);
    let cwd_shown = render_path(cwd);
    let mut message = String::from_str("Failed to execute node: ");
    message.append(detail);
    message.append("\nScript: ");
    message.append(script_shown.as_str());
    message.append("\nCWD: ");
    message.append(cwd_shown.as_str());
    message
}

/// Words the diagnostic for a script that exited with failure.
pub fn script_failure(script: &str, stderr: &str, stdout: &str) -> (message: String)
    ensures
        message@ == script_failure_text(script@, stderr@, stdout@),
{
    let script_shown = render_path(script);
    let mut message = String::from_str("Node script failed:\nScript: ");
    message.append(script_shown.as_str());
    message.append("\nSTDERR: ");
    message.append(stderr);
    message.append("\nSTDOUT: ");
    message.append(stdout);
    message
}

/// Words the diagnostic for output that is not a JSON array.
pub fn parse_failure(detail: &str, output: &str) -> (message: String)
    ensures
        message@ == parse_failure_text(detail@, output@),
{
    let mut message = String::from_str("Failed to parse JSON: ");
    message.append(detail);
    message.append("\nOutput: ");
    message.append(output);
    message
}

} // verus!
