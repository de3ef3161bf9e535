//! What the bridge asks the host to run: one interpreter process per request,
//! started on a script under the working directory.
//!
//! Whether there is anything to run is settled here, before any process is
//! started: a request plans either the one call to start or, where the
//! working directory is unknown, the error to return at once.

use vstd::prelude::*;
use vstd::string::*;
use crate::messages::{cwd_failure, cwd_failure_text};
use crate::text::{join_path, joined_path};

verus! {

/// The interpreter that runs every script, looked up on the search path.
pub const INTERPRETER: &'static str = "node";

/// The directory, under the working directory, that holds the scripts.
pub const SCRIPTS_DIR: &'static str = "api";

/// The script that stores a new patient record.
pub const CREATE_SCRIPT: &'static str = "createPatient.js";

/// The script that lists patient records; with one more argument it searches
/// them instead.
pub const LIST_SCRIPT: &'static str = "getPatient.js";

/// One process to start: the program, the script it runs, the one argument
/// that may follow the script, and the directory to start it in.
#[derive(Debug)]
pub struct ScriptCall {
    pub program: String,
    pub script: String,
    pub argument: Option<String>,
    pub cwd: String,
}

/// A [`ScriptCall`] as plain text fields.
pub struct ScriptCallView {
    pub program: Seq<char>,
    pub script: Seq<char>,
    pub argument: Option<Seq<char>>,
    pub cwd: Seq<char>,
}

impl View for ScriptCall {
    type V = ScriptCallView;

    open spec fn view(&self) -> ScriptCallView {
        ScriptCallView {
            program: self.program@,
            script: self.script@,
            argument: self.argument.deep_view(),
            cwd: self.cwd@,
        }
    }
}

impl ScriptCallView {
    /// The arguments the program is started with: the script, then the one
    /// argument if there is one.
    pub open spec fn arguments(self) -> Seq<Seq<char>> {
        match self.argument {
            Some(argument) => seq![self.script, argument],
            None => seq![self.script],
        }
    }
}

/// The path of the script `name` for a host working in `cwd`.
pub open spec fn script_path_text(cwd: Seq<char>, name: Seq<char>) -> Seq<char> {
    joined_path(joined_path(cwd, SCRIPTS_DIR@), name)
}

/// The call that stores the record whose JSON form is `json`.
pub open spec fn create_call_view(cwd: Seq<char>, json: Seq<char>) -> ScriptCallView {
    ScriptCallView {
        program: INTERPRETER@,
        script: script_path_text(cwd, CREATE_SCRIPT@),
        argument: Some(json),
        cwd,
    }
}

/// The call that lists every record.
pub open spec fn list_call_view(cwd: Seq<char>) -> ScriptCallView {
    ScriptCallView {
        program: INTERPRETER@,
        script: script_path_text(cwd, LIST_SCRIPT@),
        argument: None,
        cwd,
    }
}

/// The call that searches the records for `query`.
pub open spec fn search_call_view(cwd: Seq<char>, query: Seq<char>) -> ScriptCallView {
    ScriptCallView {
        program: INTERPRETER@,
        script: script_path_text(cwd, LIST_SCRIPT@),
        argument: Some(query),
        cwd,
    }
}

/// Computes the path of the script `name` for a host working in `cwd`.
pub fn script_path(cwd: &str, name: &str) -> (path: String)
    ensures
        path@ == script_path_text(cwd@, name@),
{
    let dir = join_path(cwd, SCRIPTS_DIR);
    join_path(dir.as_str(), name)
}

/// Builds the call that stores the record whose JSON form is `json`.
pub fn create_call(cwd: String, json: String) -> (call: ScriptCall)
    ensures
        call@ == create_call_view(cwd@, json@),
{
    let script = script_path(cwd.as_str(), CREATE_SCRIPT);
    ScriptCall { program: String::from_str(INTERPRETER), script, argument: Some(json), cwd }
}

/// Builds the call that lists every record.
pub fn list_call(cwd: String) -> (call: ScriptCall)
    ensures
        call@ == list_call_view(cwd@),
{
    let script = script_path(cwd.as_str(), LIST_SCRIPT);
    ScriptCall { program: String::from_str(INTERPRETER), script, argument: None, cwd }
}

/// Builds the call that searches the records for `query`.
///
/// The query is passed on as it is, empty or not: it is the presence of the
/// argument that tells the script to search.
pub fn search_call(cwd: String, query: String) -> (call: ScriptCall)
    ensures
        call@ == search_call_view(cwd@, query@),
{
    let script = script_path(cwd.as_str(), LIST_SCRIPT);
    ScriptCall { program: String::from_str(INTERPRETER), script, argument: Some(query), cwd }
}

/// Plans the creation of the record whose JSON form is `json`: the creation
/// call where the working directory is known, and where it is not the
/// directory's failure, with nothing to start.
///
/// `cwd` is the host's working directory, or the host's account of why it
/// could not be determined.
pub fn plan_creation(json: String, cwd: Result<String, String>) -> (plan: Result<
    ScriptCall,
    String,
>)
    ensures
        match cwd {
            Ok(dir) => plan matches Ok(call) && call@ == create_call_view(dir@, json@),
            Err(reason) => plan matches Err(message) && message@ == cwd_failure_text(reason@),
        },
{
    match cwd {
        Ok(dir) => Ok(create_call(dir, json)),
        Err(reason) => Err(cwd_failure(reason.as_str())),
    }
}

/// Plans the listing of every record: the listing call where the working
/// directory is known, and where it is not the directory's failure, with
/// nothing to start.
pub fn plan_listing(cwd: Result<String, String>) -> (plan: Result<ScriptCall, String>)
    ensures
        match cwd {
            Ok(dir) => plan matches Ok(call) && call@ == list_call_view(dir@),
            Err(reason) => plan matches Err(message) && message@ == cwd_failure_text(reason@),
        },
{
    match cwd {
        Ok(dir) => Ok(list_call(dir)),
        Err(reason) => Err(cwd_failure(reason.as_str())),
    }
}

/// Plans the search of the records for `query`: the search call where the
/// working directory is known, and where it is not the directory's failure,
/// with nothing to start.
pub fn plan_search(query: String, cwd: Result<String, String>) -> (plan: Result<
    ScriptCall,
    String,
>)
    ensures
        match cwd {
            Ok(dir) => plan matches Ok(call) && call@ == search_call_view(dir@, query@),
            Err(reason) => plan matches Err(message) && message@ == cwd_failure_text(reason@),
        },
{
    match cwd {
        Ok(dir) => Ok(search_call(dir, query)),
        Err(reason) => Err(cwd_failure(reason.as_str())),
    }
}

impl ScriptCall {
    /// The arguments to start the program with, in order.
    pub fn arguments(&self) -> (arguments: Vec<String>)
        ensures
            arguments.deep_view() == self@.arguments(),
    {
        let mut arguments: Vec<String> = Vec::new();
        arguments.push(self.script.clone());
        match &self.argument {
            Some(argument) => {
                arguments.push(argument.clone());
            },
            None => {},
        }
        assert(arguments.deep_view() =~= self@.arguments());
        arguments
    }
}

} // verus!
