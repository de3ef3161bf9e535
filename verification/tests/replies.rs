use pazienti::call::{create_call, list_call, search_call, ScriptCall};
use pazienti::messages::{
    cwd_failure, launch_failure, parse_failure, script_failure, serialization_failure,
};
use pazienti::outcome::{create_reply, list_reply, read_listing, read_stream, RunOutcome};
use serde_json::{Number, Value};

fn creation() -> ScriptCall {
    create_call("/srv/app".to_string(), "{}".to_string())
}

fn listing() -> ScriptCall {
    list_call("/srv/app".to_string())
}

fn printed(stdout: &str) -> RunOutcome {
    RunOutcome::Finished { success: true, stdout: stdout.as_bytes().to_vec(), stderr: Vec::new() }
}

fn failed(stdout: &str, stderr: &str) -> RunOutcome {
    RunOutcome::Finished {
        success: false,
        stdout: stdout.as_bytes().to_vec(),
        stderr: stderr.as_bytes().to_vec(),
    }
}

fn parser_words(text: &str) -> String {
    serde_json::from_str::<Vec<Value>>(text).unwrap_err().to_string()
}

#[test]
fn each_message_word_for_word() {
    assert_eq!(serialization_failure("bad key"), "JSON serialization error: bad key");
    assert_eq!(cwd_failure("No such file"), "Failed to get current directory: No such file");
    assert_eq!(
        launch_failure("not found", "/w/api/createPatient.js", "/w"),
        "Failed to execute node: not found\nScript: \"/w/api/createPatient.js\"\nCWD: \"/w\""
    );
    assert_eq!(
        script_failure("/w/api/createPatient.js", "E", "O"),
        "Node script failed:\nScript: \"/w/api/createPatient.js\"\nSTDERR: E\nSTDOUT: O"
    );
    assert_eq!(parse_failure("D", "O"), "Failed to parse JSON: D\nOutput: O");
}

#[test]
fn messages_with_empty_parts() {
    assert_eq!(script_failure("", "", ""), "Node script failed:\nScript: \"\"\nSTDERR: \nSTDOUT: ");
    assert_eq!(launch_failure("", "", ""), "Failed to execute node: \nScript: \"\"\nCWD: \"\"");
    assert_eq!(parse_failure("", ""), "Failed to parse JSON: \nOutput: ");
    assert_eq!(cwd_failure(""), "Failed to get current directory: ");
    assert_eq!(serialization_failure(""), "JSON serialization error: ");
}

#[test]
fn paths_are_shown_quoted_and_escaped() {
    let message = script_failure("/srv/my \"app\"/api/createPatient.js", "", "");
    assert_eq!(
        message,
        "Node script failed:\nScript: \"/srv/my \\\"app\\\"/api/createPatient.js\"\nSTDERR: \nSTDOUT: "
    );
    let message = launch_failure("x", "/a\\b", "/tab\there");
    assert_eq!(message, "Failed to execute node: x\nScript: \"/a\\\\b\"\nCWD: \"/tab\\there\"");
}

#[test]
fn read_stream_keeps_valid_text_and_replaces_the_rest() {
    assert_eq!(read_stream(b""), "");
    assert_eq!(read_stream("{\"id\":1}\"".as_bytes()), "{\"id\":1}\"");
    assert_eq!(read_stream("perché 日本 \u{1f600}".as_bytes()), "perché 日本 \u{1f600}");
    assert_eq!(read_stream(&[b'a', 0xff, b'b']), "a\u{fffd}b");
    assert_eq!(read_stream(&[0xe6, 0x97]), "\u{fffd}");
    assert_eq!(read_stream(&[0xc0, 0x80]), "\u{fffd}\u{fffd}");
}

#[test]
fn create_reply_is_the_output_as_printed() {
    assert_eq!(create_reply(&creation(), printed("{\"id\":7}\n")), Ok("{\"id\":7}\n".to_string()));
    assert_eq!(create_reply(&creation(), printed("")), Ok(String::new()));
    assert_eq!(create_reply(&creation(), printed("not json at all")), Ok("not json at all".to_string()));
}

#[test]
fn create_reply_ignores_stderr_of_a_successful_script() {
    let outcome = RunOutcome::Finished {
        success: true,
        stdout: b"ok".to_vec(),
        stderr: b"warning: deprecated".to_vec(),
    };
    assert_eq!(create_reply(&creation(), outcome), Ok("ok".to_string()));
}

#[test]
fn create_reply_replaces_what_is_not_utf8() {
    let outcome = RunOutcome::Finished {
        success: true,
        stdout: vec![b'a', 0xff, b'b', 0xc3, 0xa8, 0xc3],
        stderr: Vec::new(),
    };
    assert_eq!(create_reply(&creation(), outcome), Ok("a\u{fffd}bè\u{fffd}".to_string()));
}

#[test]
fn create_reply_of_a_failed_script() {
    assert_eq!(
        create_reply(&creation(), failed("partial", "boom")),
        Err("Node script failed:\nScript: \"/srv/app/api/createPatient.js\"\nSTDERR: boom\nSTDOUT: partial"
            .to_string())
    );
}

#[test]
fn create_reply_of_a_failed_script_decodes_both_streams() {
    let outcome = RunOutcome::Finished { success: false, stdout: vec![0x80], stderr: vec![b'e', 0xfe] };
    assert_eq!(
        create_reply(&creation(), outcome),
        Err("Node script failed:\nScript: \"/srv/app/api/createPatient.js\"\nSTDERR: e\u{fffd}\nSTDOUT: \u{fffd}"
            .to_string())
    );
}

#[test]
fn create_reply_when_the_interpreter_did_not_start() {
    let outcome = RunOutcome::NotStarted { reason: "No such file or directory (os error 2)".to_string() };
    assert_eq!(
        create_reply(&creation(), outcome),
        Err("Failed to execute node: No such file or directory (os error 2)\n\
             Script: \"/srv/app/api/createPatient.js\"\nCWD: \"/srv/app\""
            .to_string())
    );
}

#[test]
fn read_listing_takes_an_array() {
    assert_eq!(read_listing("[]"), Ok(Vec::new()));
    assert_eq!(
        read_listing(" [1, \"a\", null, true] \n"),
        Ok(vec![
            Value::Number(Number::from(1)),
            Value::String("a".to_string()),
            Value::Null,
            Value::Bool(true),
        ])
    );
}

#[test]
fn read_listing_refuses_what_is_not_an_array() {
    for text in ["", "not json", "{\"id\":1}", "null", "[1,", "[1] x", "\"[]\"", "42"] {
        assert_eq!(
            read_listing(text),
            Err(format!("Failed to parse JSON: {}\nOutput: {}", parser_words(text), text))
        );
    }
}

#[test]
fn read_listing_names_the_place_of_the_error() {
    assert_eq!(
        read_listing("[1"),
        Err("Failed to parse JSON: EOF while parsing a list at line 1 column 2\nOutput: [1".to_string())
    );
    assert_eq!(
        read_listing(""),
        Err("Failed to parse JSON: EOF while parsing a value at line 1 column 0\nOutput: ".to_string())
    );
}

#[test]
fn list_reply_is_the_items_of_the_array() {
    let mut first = serde_json::Map::new();
    first.insert("id".to_string(), Value::Number(Number::from(1)));
    let mut second = serde_json::Map::new();
    second.insert("id".to_string(), Value::Number(Number::from(2)));
    second.insert("note".to_string(), Value::Null);
    assert_eq!(
        list_reply(&listing(), printed("[{\"id\":1},{\"id\":2,\"note\":null}]")),
        Ok(vec![Value::Object(first), Value::Object(second)])
    );
}

#[test]
fn list_reply_of_an_empty_array_is_empty() {
    assert_eq!(list_reply(&listing(), printed("[]\n")), Ok(Vec::new()));
}

#[test]
fn list_reply_never_takes_bad_output_for_an_empty_list() {
    for text in ["", "\n", "   ", "oops", "{}", "[1,2", "[] []", "\"a\"", "7", "true", "null"] {
        let reply = list_reply(&listing(), printed(text));
        assert_eq!(
            reply,
            Err(format!("Failed to parse JSON: {}\nOutput: {}", parser_words(text), text))
        );
    }
}

#[test]
fn list_reply_parses_the_decoded_output() {
    let outcome = RunOutcome::Finished {
        success: true,
        stdout: vec![b'[', b'"', 0xff, b'"', b']'],
        stderr: Vec::new(),
    };
    assert_eq!(list_reply(&listing(), outcome), Ok(vec![Value::String("\u{fffd}".to_string())]));
}

#[test]
fn list_reply_of_a_failed_script_names_the_script() {
    assert_eq!(
        list_reply(&listing(), failed("[]", "db locked")),
        Err("Node script failed:\nScript: \"/srv/app/api/getPatient.js\"\nSTDERR: db locked\nSTDOUT: []"
            .to_string())
    );
    assert_eq!(
        list_reply(&listing(), failed("", "")),
        Err("Node script failed:\nScript: \"/srv/app/api/getPatient.js\"\nSTDERR: \nSTDOUT: "
            .to_string())
    );
}

#[test]
fn list_reply_when_the_interpreter_did_not_start() {
    let outcome = RunOutcome::NotStarted { reason: "permission denied".to_string() };
    assert_eq!(
        list_reply(&listing(), outcome),
        Err("Failed to execute node: permission denied\n\
             Script: \"/srv/app/api/getPatient.js\"\nCWD: \"/srv/app\""
            .to_string())
    );
    let outcome = RunOutcome::NotStarted { reason: String::new() };
    assert_eq!(
        list_reply(&listing(), outcome),
        Err("Failed to execute node: \nScript: \"/srv/app/api/getPatient.js\"\nCWD: \"/srv/app\""
            .to_string())
    );
}

#[test]
fn the_query_does_not_touch_the_reply() {
    let outcomes: [fn() -> RunOutcome; 5] = [
        || printed("[1,2,3]"),
        || printed("not an array"),
        || printed(""),
        || failed("out", "err"),
        || RunOutcome::NotStarted { reason: "no node".to_string() },
    ];
    for outcome in outcomes {
        let listed = list_reply(&listing(), outcome());
        let first = list_reply(&search_call("/srv/app".to_string(), "Rossi".to_string()), outcome());
        let second = list_reply(&search_call("/srv/app".to_string(), String::new()), outcome());
        assert_eq!(first, listed);
        assert_eq!(second, listed);
    }
}
