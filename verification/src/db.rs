//! The three requests of the bridge, each a single round trip: plan the
//! script call, have the host run it, and make the reply of what came back.
//!
//! Starting a process and asking for the working directory are the host's
//! business.  Each request therefore takes the working directory as the host
//! resolved it, and a `run` capability that starts one script call and waits
//! for it to end.  Whatever `run` promises of its outcome carries over to
//! the reply.
//!
//! Nothing is asked of `run` but that it can be handed the one call that
//! the request plans.  A request whose plan is an error has no call that it
//! may hand to `run`: it returns the error and starts nothing.

use vstd::prelude::*;
use crate::call::{
    create_call_view, list_call_view, plan_creation, plan_listing, plan_search, search_call_view,
    ScriptCall, ScriptCallView,
};
use crate::input::PazienteInput;
use crate::messages::cwd_failure_text;
use crate::outcome::{
    create_reply, create_reply_text, items_reply, list_reply, list_reply_items, text_reply,
    RunOutcome,
};

verus! {

/// `run` can be handed the call `call`.
pub open spec fn accepts<R: FnOnce(&ScriptCall) -> RunOutcome>(run: R, call: ScriptCallView) -> bool {
    forall|made: &ScriptCall| made@ == call ==> call_requires(run, (made,))
}

/// `outcome` is a way for `run` to end when it is handed the call `call`.
pub open spec fn may_end_in<R: FnOnce(&ScriptCall) -> RunOutcome>(
    run: R,
    call: ScriptCallView,
    outcome: RunOutcome,
) -> bool {
    exists|made: ScriptCall| made@ == call && call_ensures(run, (&made,), outcome)
}

/// `reply` is what a creation request makes of one run of `call`.
pub open spec fn creation_round_trip<R: FnOnce(&ScriptCall) -> RunOutcome>(
    call: ScriptCallView,
    run: R,
    reply: Result<String, String>,
) -> bool {
    exists|outcome: RunOutcome| #[trigger]
        may_end_in(run, call, outcome) && text_reply(reply) == create_reply_text(call, outcome@)
}

/// `reply` is what a listing or search request makes of one run of `call`.
pub open spec fn listing_round_trip<R: FnOnce(&ScriptCall) -> RunOutcome>(
    call: ScriptCallView,
    run: R,
    reply: Result<Vec<serde_json::Value>, String>,
) -> bool {
    exists|outcome: RunOutcome| #[trigger]
        may_end_in(run, call, outcome) && items_reply(reply) == list_reply_items(call, outcome@)
}

/// `reply` is the reply to a creation request for the record whose JSON form
/// is `json`: the working directory's failure where it is unknown, else what
/// comes of one run of the creation call.
pub open spec fn sends_record<R: FnOnce(&ScriptCall) -> RunOutcome>(
    json: Seq<char>,
    cwd: Result<String, String>,
    run: R,
    reply: Result<String, String>,
) -> bool {
    match cwd {
        Err(reason) => reply matches Err(message) && message@ == cwd_failure_text(reason@),
        Ok(dir) => creation_round_trip(create_call_view(dir@, json), run, reply),
    }
}

/// Stores a new patient record and returns what the creation script printed.
///
/// `cwd` is the host's working directory, or the host's account of why it
/// could not be determined.  The record is encoded first; what follows is
/// [`send_record`] on the encoded record.
pub fn create_patient<R>(p: PazienteInput, cwd: Result<String, String>, run: R) -> (reply: Result<
    String,
    String,
>) where R: FnOnce(&ScriptCall) -> RunOutcome
    requires
        cwd matches Ok(dir) ==> forall|json: Seq<char>| #[trigger]
            accepts(run, create_call_view(dir@, json)),
    ensures
        sends_record(p@.json_text(), cwd, run, reply),
{
    match p.to_json() {
        Ok(json) => send_record(json, cwd, run),
        Err(message) => Err(message),
    }
}

/// Stores the record whose JSON form is `json` and returns what the creation
/// script printed.
///
/// With the working directory known, `run` is called once, on the creation
/// call for `json`.  The script's output is returned as text, unexamined.
pub fn send_record<R>(json: String, cwd: Result<String, String>, run: R) -> (reply: Result<
    String,
    String,
>) where R: FnOnce(&ScriptCall) -> RunOutcome
    requires
        cwd matches Ok(dir) ==> accepts(run, create_call_view(dir@, json@)),
    ensures
        sends_record(json@, cwd, run, reply),
{
    match plan_creation(json, cwd) {
        Ok(call) => {
            let outcome = run(&call);
            assert(may_end_in(run, call@, outcome));
            create_reply(&call, outcome)
        },
        Err(message) => Err(message),
    }
}

/// Lists every patient record.
///
/// With the working directory known, `run` is called once, on the listing
/// call.  The script's output must be a JSON array; its items are the reply.
pub fn get_pazienti<R>(cwd: Result<String, String>, run: R) -> (reply: Result<
    Vec<serde_json::Value>,
    String,
>) where R: FnOnce(&ScriptCall) -> RunOutcome
    requires
        cwd matches Ok(dir) ==> accepts(run, list_call_view(dir@)),
    ensures
        match cwd {
            Err(reason) => reply matches Err(message) && message@ == cwd_failure_text(reason@),
            Ok(dir) => listing_round_trip(list_call_view(dir@), run, reply),
        },
{
    match plan_listing(cwd) {
        Ok(call) => {
            let outcome = run(&call);
            assert(may_end_in(run, call@, outcome));
            list_reply(&call, outcome)
        },
        Err(message) => Err(message),
    }
}

/// Searches the patient records for `query`.
///
/// Runs the listing script with `query` as one more argument, whatever the
/// query holds, and reads the output as [`get_pazienti`] does.
pub fn search_patient<R>(query: String, cwd: Result<String, String>, run: R) -> (reply: Result<
    Vec<serde_json::Value>,
    String,
>) where R: FnOnce(&ScriptCall) -> RunOutcome
    requires
        cwd matches Ok(dir) ==> accepts(run, search_call_view(dir@, query@)),
    ensures
        match cwd {
            Err(reason) => reply matches Err(message) && message@ == cwd_failure_text(reason@),
            Ok(dir) => listing_round_trip(search_call_view(dir@, query@), run, reply),
        },
{
    match plan_search(query, cwd) {
        Ok(call) => {
            let outcome = run(&call);
            assert(may_end_in(run, call@, outcome));
            list_reply(&call, outcome)
        },
        Err(message) => Err(message),
    }
}

} // verus!
