//! What came of running a script, and the reply the bridge makes of it.

use vstd::prelude::*;
use vstd::string::*;
use vstd::utf8::{decode_utf8, valid_utf8};
use crate::call::{ScriptCall, ScriptCallView};
use crate::messages::{
    launch_failure, launch_failure_text, parse_failure, parse_failure_text, script_failure,
    script_failure_text,
};
use crate::trusted::{
    decode_utf8_lossy, json_array_items, json_array_refusal, parse_json_array, utf8_lossy_text,
};

verus! {

/// How an attempt to run a script ended.
#[derive(Debug)]
pub enum RunOutcome {
    /// The interpreter could not be started; `reason` is the host's account
    /// of why.
    NotStarted { reason: String },
    /// The process ran until it exited.  `success` tells whether its exit
    /// status reports success; the two streams are the bytes it wrote.
    Finished { success: bool, stdout: Vec<u8>, stderr: Vec<u8> },
}

/// A [`RunOutcome`] as plain text and bytes.
pub enum RunOutcomeView {
    NotStarted { reason: Seq<char> },
    Finished { success: bool, stdout: Seq<u8>, stderr: Seq<u8> },
}

impl View for RunOutcome {
    type V = RunOutcomeView;

    open spec fn view(&self) -> RunOutcomeView {
        match *self {
            RunOutcome::NotStarted { reason } => RunOutcomeView::NotStarted { reason: reason@ },
            RunOutcome::Finished { success, stdout, stderr } => RunOutcomeView::Finished {
                success,
                stdout: stdout@,
                stderr: stderr@,
            },
        }
    }
}

/// The text a stream of bytes is read as: the text it encodes where it is
/// valid UTF-8, and else the permissive reading that puts U+FFFD in place of
/// what is not.
pub open spec fn stream_text(bytes: Seq<u8>) -> Seq<char> {
    if valid_utf8(bytes) {
        decode_utf8(bytes)
    } else {
        utf8_lossy_text(bytes)
    }
}

/// A reply of text, success or failure, by its characters.
pub open spec fn text_reply(reply: Result<String, String>) -> Result<Seq<char>, Seq<char>> {
    match reply {
        Ok(text) => Ok(text@),
        Err(message) => Err(message@),
    }
}

/// A reply of JSON values, success or failure, by its items or the
/// characters of its message.
pub open spec fn items_reply(reply: Result<Vec<serde_json::Value>, String>) -> Result<
    Seq<serde_json::Value>,
    Seq<char>,
> {
    match reply {
        Ok(items) => Ok(items@),
        Err(message) => Err(message@),
    }
}

/// The reply to a creation request whose script call ended in `outcome`.
///
/// A script that reports success is taken at its word: its output, read as
/// text, is the reply as it stands.
pub open spec fn create_reply_text(call: ScriptCallView, outcome: RunOutcomeView) -> Result<
    Seq<char>,
    Seq<char>,
> {
    match outcome {
        RunOutcomeView::NotStarted { reason } => Err(
            launch_failure_text(reason, call.script, call.cwd),
        ),
        RunOutcomeView::Finished { success, stdout, stderr } => if success {
            Ok(stream_text(stdout))
        } else {
            Err(script_failure_text(call.script, stream_text(stderr), stream_text(stdout)))
        },
    }
}

/// What reading `output` as a JSON array gives: the items of the array where
/// it is one, and where it is not the parse failure that carries the
/// parser's words and `output` itself.
pub open spec fn listing_of(output: Seq<char>) -> Result<Seq<serde_json::Value>, Seq<char>> {
    match json_array_items(output) {
        Some(items) => Ok(items),
        None => Err(parse_failure_text(json_array_refusal(output), output)),
    }
}

/// The reply to a listing or search request whose script call ended in
/// `outcome`.
pub open spec fn list_reply_items(call: ScriptCallView, outcome: RunOutcomeView) -> Result<
    Seq<serde_json::Value>,
    Seq<char>,
> {
    match outcome {
        RunOutcomeView::NotStarted { reason } => Err(
            launch_failure_text(reason, call.script, call.cwd),
        ),
        RunOutcomeView::Finished { success, stdout, stderr } => if success {
            listing_of(stream_text(stdout))
        } else {
            Err(script_failure_text(call.script, stream_text(stderr), stream_text(stdout)))
        },
    }
}

/// Reads a stream of bytes as text.
pub fn read_stream(bytes: &[u8]) -> (text: String)
    ensures
        text@ == stream_text(bytes@),
{
    decode_utf8_lossy(bytes)
}

/// Makes the reply to a creation request out of how its script call ended.
pub fn create_reply(call: &ScriptCall, outcome: RunOutcome) -> (reply: Result<String, String>)
    ensures
        text_reply(reply) == create_reply_text(call@, outcome@),
{
    match outcome {
        RunOutcome::NotStarted { reason } => Err(
            launch_failure(reason.as_str(), call.script.as_str(), call.cwd.as_str()),
        ),
        RunOutcome::Finished { success, stdout, stderr } => {
            if success {
                Ok(read_stream(stdout.as_slice()))
            } else {
                let errors = read_stream(stderr.as_slice());
                let output = read_stream(stdout.as_slice());
                Err(script_failure(call.script.as_str(), errors.as_str(), output.as_str()))
            }
        },
    }
}

/// Reads the output of a listing script as a JSON array of values.
///
/// Output that is not one JSON array, and nothing else, is an error that
/// carries the parser's diagnostic and the output itself; it is never read
/// as an empty list.
pub fn read_listing(output: &str) -> (reply: Result<Vec<serde_json::Value>, String>)
    ensures
        items_reply(reply) == listing_of(output@),
{
    match parse_json_array(output) {
        Ok(items) => Ok(items),
        Err(words) => Err(parse_failure(words.as_str(), output)),
    }
}

/// Makes the reply to a listing or search request out of how its script call
/// ended.
pub fn list_reply(call: &ScriptCall, outcome: RunOutcome) -> (reply: Result<
    Vec<serde_json::Value>,
    String,
>)
    ensures
        items_reply(reply) == list_reply_items(call@, outcome@),
{
    match outcome {
        RunOutcome::NotStarted { reason } => Err(
            launch_failure(reason.as_str(), call.script.as_str(), call.cwd.as_str()),
        ),
        RunOutcome::Finished { success, stdout, stderr } => {
            if success {
                let output = read_stream(stdout.as_slice());
                read_listing(output.as_str())
            } else {
                let errors = read_stream(stderr.as_slice());
                let output = read_stream(stdout.as_slice());
                Err(script_failure(call.script.as_str(), errors.as_str(), output.as_str()))
            }
        },
    }
}

} // verus!
