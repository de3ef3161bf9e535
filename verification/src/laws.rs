//! What holds of every request, stated over the spec functions that the
//! contracts of the bridge are written in.

use vstd::prelude::*;
use vstd::utf8::{encode_utf8, encode_utf8_decode_utf8, encode_utf8_valid_utf8};
use crate::call::{list_call_view, search_call_view, ScriptCall, ScriptCallView};
use crate::db::{creation_round_trip, may_end_in};
use crate::messages::{launch_failure_text, parse_failure_text, script_failure_text};
use crate::outcome::{
    create_reply_text, list_reply_items, stream_text, text_reply, RunOutcome,
    RunOutcomeView,
};
use crate::text::{
    lemma_occurs_at_end, lemma_occurs_between, lemma_occurs_in_transitive, occurs_in,
};
use crate::trusted::{json_array_items, json_array_refusal, path_debug_text};

verus! {

/// The diagnostic for an interpreter that could not be started holds the
/// host's reason, the script's path and the working directory, the two paths
/// as rendered.
pub proof fn lemma_launch_failure_parts(detail: Seq<char>, script: Seq<char>, cwd: Seq<char>)
    ensures
        occurs_in(detail, launch_failure_text(detail, script, cwd)),
        occurs_in(path_debug_text(script), launch_failure_text(detail, script, cwd)),
        occurs_in(path_debug_text(cwd), launch_failure_text(detail, script, cwd)),
{
    let head = "Failed to execute node: "@;
    let mid = "\nScript: "@;
    let sep = "\nCWD: "@;
    let shown = path_debug_text(script);
    let dir = path_debug_text(cwd);
    let message = launch_failure_text(detail, script, cwd);
    assert(message =~= head + detail + (mid + shown + sep + dir));
    lemma_occurs_between(head, detail, mid + shown + sep + dir);
    assert(message =~= (head + detail + mid) + shown + (sep + dir));
    lemma_occurs_between(head + detail + mid, shown, sep + dir);
    lemma_occurs_at_end(head + detail + mid + shown + sep, dir);
}

/// The diagnostic for a script that exited with failure holds the script's
/// path as rendered, and both streams.
pub proof fn lemma_script_failure_parts(script: Seq<char>, stderr: Seq<char>, stdout: Seq<char>)
    ensures
        occurs_in(path_debug_text(script), script_failure_text(script, stderr, stdout)),
        occurs_in(stderr, script_failure_text(script, stderr, stdout)),
        occurs_in(stdout, script_failure_text(script, stderr, stdout)),
{
    let head = "Node script failed:\nScript: "@;
    let shown = path_debug_text(script);
    let mid = "\nSTDERR: "@;
    let sep = "\nSTDOUT: "@;
    let message = script_failure_text(script, stderr, stdout);
    assert(message =~= head + shown + (mid + stderr + sep + stdout));
    lemma_occurs_between(head, shown, mid + stderr + sep + stdout);
    assert(message =~= (head + shown + mid) + stderr + (sep + stdout));
    lemma_occurs_between(head + shown + mid, stderr, sep + stdout);
    lemma_occurs_at_end(head + shown + mid + stderr + sep, stdout);
}

/// The diagnostic for output that is not a JSON array holds the parser's
/// words and the output itself.
pub proof fn lemma_parse_failure_parts(detail: Seq<char>, output: Seq<char>)
    ensures
        occurs_in(detail, parse_failure_text(detail, output)),
        occurs_in(output, parse_failure_text(detail, output)),
{
    let head = "Failed to parse JSON: "@;
    let sep = "\nOutput: "@;
    lemma_occurs_between(head, detail, sep + output);
    assert(parse_failure_text(detail, output) =~= head + detail + (sep + output));
    lemma_occurs_at_end(head + detail + sep, output);
}

/// Text that a script prints as UTF-8 is read back as that very text.
pub proof fn lemma_printed_text_is_read_back(text: Seq<char>)
    ensures
        stream_text(encode_utf8(text)) == text,
{
    encode_utf8_valid_utf8(text);
    encode_utf8_decode_utf8(text);
}

/// A creation request whose script call was made either succeeds with the
/// script's output, read as text and otherwise untouched, or fails with a
/// message that shows the script's path as rendered.  Wherever that
/// rendering keeps the path as it is between its quotes, the message holds
/// the path itself.
pub proof fn lemma_create_replies_with_output_or_names_script(
    call: ScriptCallView,
    outcome: RunOutcomeView,
)
    ensures
        match create_reply_text(call, outcome) {
            Ok(text) => outcome matches RunOutcomeView::Finished { success, stdout, .. } && success
                && text == stream_text(stdout),
            Err(message) => {
                &&& occurs_in(path_debug_text(call.script), message)
                &&& occurs_in(call.script, path_debug_text(call.script)) ==> occurs_in(
                    call.script,
                    message,
                )
            },
        },
{
    let shown = path_debug_text(call.script);
    match outcome {
        RunOutcomeView::NotStarted { reason } => {
            lemma_launch_failure_parts(reason, call.script, call.cwd);
        },
        RunOutcomeView::Finished { success, stdout, stderr } => {
            lemma_script_failure_parts(call.script, stream_text(stderr), stream_text(stdout));
        },
    }
    if create_reply_text(call, outcome) is Err && occurs_in(call.script, shown) {
        lemma_occurs_in_transitive(call.script, shown, create_reply_text(call, outcome)->Err_0);
    }
}

/// A creation request that got as far as running its script either returns
/// the output, read as text, of a run that ended in success, or fails with a
/// message that shows the script's path as rendered.  Wherever that
/// rendering keeps the path as it is between its quotes, the message holds
/// the path itself.
pub proof fn lemma_creation_returns_output_or_names_script<R: FnOnce(&ScriptCall) -> RunOutcome>(
    call: ScriptCallView,
    run: R,
    reply: Result<String, String>,
)
    requires
        creation_round_trip(call, run, reply),
    ensures
        match reply {
            Ok(text) => exists|stdout: Vec<u8>, stderr: Vec<u8>| #[trigger]
                may_end_in(run, call, RunOutcome::Finished { success: true, stdout, stderr })
                    && text@ == stream_text(stdout@),
            Err(message) => {
                &&& occurs_in(path_debug_text(call.script), message@)
                &&& occurs_in(call.script, path_debug_text(call.script)) ==> occurs_in(
                    call.script,
                    message@,
                )
            },
        },
{
    let outcome = choose|outcome: RunOutcome| #[trigger]
        may_end_in(run, call, outcome) && text_reply(reply) == create_reply_text(
            call,
            outcome@,
        );
    lemma_create_replies_with_output_or_names_script(call, outcome@);
    match outcome {
        RunOutcome::Finished { success, stdout, stderr } => {
            if success {
                assert(may_end_in(run, call, RunOutcome::Finished { success: true, stdout, stderr }));
            }
        },
        RunOutcome::NotStarted { .. } => {},
    }
}

/// A creation script that prints a text and exits with success makes the
/// request return that text, whatever it is: nothing checks that it is JSON.
pub proof fn lemma_creation_returns_what_was_printed(
    call: ScriptCallView,
    printed: Seq<char>,
    stderr: Seq<u8>,
)
    ensures
        create_reply_text(
            call,
            RunOutcomeView::Finished { success: true, stdout: encode_utf8(printed), stderr },
        ) == Ok::<Seq<char>, Seq<char>>(printed),
{
    lemma_printed_text_is_read_back(printed);
}

/// A script that exits with failure makes every request fail with the same
/// message, which shows the script's path as rendered and holds everything
/// the script wrote to its error stream and to its output stream, whether
/// or not either is empty.
pub proof fn lemma_failed_script_reports_both_streams(
    call: ScriptCallView,
    stdout: Seq<u8>,
    stderr: Seq<u8>,
)
    ensures
        create_reply_text(call, RunOutcomeView::Finished { success: false, stdout, stderr })
            matches Err(message) && list_reply_items(
            call,
            RunOutcomeView::Finished { success: false, stdout, stderr },
        ) == Err::<Seq<serde_json::Value>, Seq<char>>(message) && occurs_in(
            path_debug_text(call.script),
            message,
        ) && occurs_in(stream_text(stderr), message) && occurs_in(stream_text(stdout), message),
{
    lemma_script_failure_parts(call.script, stream_text(stderr), stream_text(stdout));
}

/// A script that writes a text to its error stream and exits with failure
/// makes every request fail with a message that holds that text.
pub proof fn lemma_failed_script_error_text_is_reported(
    call: ScriptCallView,
    stdout: Seq<u8>,
    complaint: Seq<char>,
)
    ensures
        create_reply_text(
            call,
            RunOutcomeView::Finished { success: false, stdout, stderr: encode_utf8(complaint) },
        ) matches Err(message) && occurs_in(complaint, message),
        list_reply_items(
            call,
            RunOutcomeView::Finished { success: false, stdout, stderr: encode_utf8(complaint) },
        ) matches Err(message) && occurs_in(complaint, message),
{
    lemma_printed_text_is_read_back(complaint);
    lemma_failed_script_reports_both_streams(call, stdout, encode_utf8(complaint));
}

/// An interpreter that cannot be started makes every request fail with the
/// same message, which holds the host's reason and shows the script's path
/// and the working directory as rendered.
pub proof fn lemma_failed_launch_names_script_and_directory(
    call: ScriptCallView,
    reason: Seq<char>,
)
    ensures
        create_reply_text(call, RunOutcomeView::NotStarted { reason }) matches Err(message)
            && list_reply_items(call, RunOutcomeView::NotStarted { reason }) == Err::<
            Seq<serde_json::Value>,
            Seq<char>,
        >(message) && occurs_in(reason, message) && occurs_in(
            path_debug_text(call.script),
            message,
        ) && occurs_in(path_debug_text(call.cwd), message),
{
    lemma_launch_failure_parts(reason, call.script, call.cwd);
}

/// A listing or search request returns items only when its script succeeded
/// and printed one JSON array, and then exactly the items of that array.
/// Output of a successful script that is not a JSON array is the parse
/// failure that holds the parser's words and the output: it never passes for
/// an empty list, nor for any other.
pub proof fn lemma_listing_is_the_parsed_array(call: ScriptCallView, outcome: RunOutcomeView)
    ensures
        list_reply_items(call, outcome) matches Ok(found) ==> (outcome
            matches RunOutcomeView::Finished { success, stdout, .. } && success
            && json_array_items(stream_text(stdout)) == Some(found)),
        outcome matches RunOutcomeView::Finished { success, stdout, .. } ==> (success
            && json_array_items(stream_text(stdout)) is None ==> (list_reply_items(call, outcome)
            matches Err(message) && message == parse_failure_text(
            json_array_refusal(stream_text(stdout)),
            stream_text(stdout),
        ) && occurs_in(json_array_refusal(stream_text(stdout)), message) && occurs_in(
            stream_text(stdout),
            message,
        ))),
{
    match outcome {
        RunOutcomeView::Finished { success, stdout, .. } => {
            lemma_parse_failure_parts(json_array_refusal(stream_text(stdout)), stream_text(stdout));
        },
        RunOutcomeView::NotStarted { .. } => {},
    }
}

/// Searching runs the very script that listing runs, in the same directory
/// and with the same interpreter.  The two calls differ in their arguments
/// alone: listing passes the script and nothing more, searching passes the
/// query after it, also when the query is empty.
pub proof fn lemma_search_runs_the_listing_script(cwd: Seq<char>, query: Seq<char>)
    ensures
        search_call_view(cwd, query).script == list_call_view(cwd).script,
        search_call_view(cwd, query).program == list_call_view(cwd).program,
        search_call_view(cwd, query).cwd == list_call_view(cwd).cwd,
        list_call_view(cwd).arguments() == seq![list_call_view(cwd).script],
        search_call_view(cwd, query).arguments() == seq![list_call_view(cwd).script, query],
{
}

/// The query goes to the script and to nothing else: whatever the queries,
/// two searches and a listing whose runs end alike make the same reply.
pub proof fn lemma_query_leaves_the_reply_alone(
    cwd: Seq<char>,
    first: Seq<char>,
    second: Seq<char>,
    outcome: RunOutcomeView,
)
    ensures
        list_reply_items(search_call_view(cwd, first), outcome) == list_reply_items(
            list_call_view(cwd),
            outcome,
        ),
        list_reply_items(search_call_view(cwd, first), outcome) == list_reply_items(
            search_call_view(cwd, second),
            outcome,
        ),
{
}

} // verus!
