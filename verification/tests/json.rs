use command_gateway::gateway::relay_command_plan;
use command_gateway::json::escape_string;
use command_gateway::json::relay_payload;

#[test]
fn plain_command_is_framed_verbatim() {
    let plan = relay_command_plan("10.0.0.7", "ls -la");
    assert_eq!(plan.url, "http://10.0.0.7:3000/exec");
    assert_eq!(plan.payload, "{\"command\":\"ls -la\"}");
}

#[test]
fn empty_command_gives_an_empty_field() {
    assert_eq!(relay_payload(""), "{\"command\":\"\"}");
}

#[test]
fn quotes_and_backslashes_are_escaped() {
    assert_eq!(escape_string("say \"hi\" \\ now"), "say \\\"hi\\\" \\\\ now");
    assert_eq!(relay_payload("echo \"x\""), "{\"command\":\"echo \\\"x\\\"\"}");
}

#[test]
fn control_characters_take_their_escapes() {
    assert_eq!(escape_string("a\tb\nc\rd"), "a\\tb\\nc\\rd");
    assert_eq!(escape_string("\u{08}\u{0c}\u{1f}\u{01}"), "\\b\\f\\u001f\\u0001");
}

#[test]
fn payload_round_trips_through_a_json_parser() {
    let cases = [
        "ls -la",
        "echo \"quoted\" and \\backslash\\",
        "line1\nline2\ttabbed\r",
        "unicode: hello world and a snowman \u{2603}",
        "",
        "ctrl \u{01}\u{1f} end",
    ];
    for command in cases {
        let payload = relay_payload(command);
        let value: serde_json::Value =
            serde_json::from_str(&payload).expect("payload must be valid JSON");
        assert_eq!(value["command"].as_str().unwrap(), command);
    }
}
