use ai_edit::process::{arguments, read_output, PiError, RunEnd, PROGRAM, SYSTEM_PROMPT, TIMEOUT_SECONDS};
use ai_edit::response::{
    embedded_object, has_crossed_braces, parse_response, reply_text, run_result,
};
use serde::de::{Deserialize, Deserializer, Error, IgnoredAny, MapAccess, SeqAccess, Visitor};

/// An object with the member `replacement`, or an array with that one element.
struct PiResponse {
    replacement: String,
}

struct PiResponseVisitor;

impl<'de> Visitor<'de> for PiResponseVisitor {
    type Value = PiResponse;

    fn expecting(&self, f: &mut std::fmt::Formatter<'_>) -> std::fmt::Result {
        f.write_str("struct PiResponse")
    }

    fn visit_seq<A: SeqAccess<'de>>(self, mut seq: A) -> Result<PiResponse, A::Error> {
        match seq.next_element::<String>()? {
            Some(replacement) => Ok(PiResponse { replacement }),
            None => Err(A::Error::invalid_length(0, &"struct PiResponse with 1 element")),
        }
    }

    fn visit_map<A: MapAccess<'de>>(self, mut map: A) -> Result<PiResponse, A::Error> {
        let mut replacement: Option<String> = None;
        while let Some(key) = map.next_key::<String>()? {
            if key != "replacement" {
                map.next_value::<IgnoredAny>()?;
            } else if replacement.is_some() {
                return Err(A::Error::duplicate_field("replacement"));
            } else {
                replacement = Some(map.next_value()?);
            }
        }
        match replacement {
            Some(replacement) => Ok(PiResponse { replacement }),
            None => Err(A::Error::missing_field("replacement")),
        }
    }
}

impl<'de> Deserialize<'de> for PiResponse {
    fn deserialize<D: Deserializer<'de>>(deserializer: D) -> Result<Self, D::Error> {
        deserializer.deserialize_struct("PiResponse", &["replacement"], PiResponseVisitor)
    }
}

fn decode(text: &str) -> Result<String, String> {
    match serde_json::from_str::<PiResponse>(text) {
        Ok(response) => Ok(response.replacement),
        Err(e) => Err(e.to_string()),
    }
}

fn parse(output: &str) -> Result<String, PiError> {
    let whole = decode(reply_text(output)).ok();
    let part = if whole.is_none() {
        assert!(!has_crossed_braces(output));
        match embedded_object(output) {
            Ok(object) => decode(object),
            Err(_) => Err(String::new()),
        }
    } else {
        Err(String::new())
    };
    parse_response(output, whole, part)
}

#[test]
fn parses_json_response() {
    let response = parse(r#"{"replacement":"fn answer() {\n    42\n}"}"#).unwrap();

    assert_eq!(response, "fn answer() {\n    42\n}");
}

#[test]
fn parses_json_response_wrapped_in_markdown() {
    let response = parse("```json\n{\"replacement\":\"let result = 42;\"}\n```").unwrap();

    assert_eq!(response, "let result = 42;");
}

#[test]
fn parses_response_between_white_space() {
    assert_eq!(parse("\u{a0}\n {\"replacement\":\"x\"}\t\u{3000}").unwrap(), "x");
}

#[test]
fn replacement_comes_back_verbatim() {
    let replacements =
        ["", " \n x \t", "}{", "fn f() { g(\"{}\") }", "\\\"\u{0}\u{7f}é😀", "```json\n{}\n```"];
    let surroundings = [
        ("", ""),
        (" \n", "\u{3000}"),
        ("```json\n", "\n```"),
        ("Sure } [\"\\", "[ { \"]"),
        ("[\"", "\"]"),
        ("[", "]"),
    ];
    for replacement in replacements {
        let literal = serde_json::to_string(replacement).unwrap();
        for (before, after) in surroundings {
            let output = format!("{before}{{\"replacement\":{literal}}}{after}");
            assert_eq!(parse(&output).unwrap(), replacement);
        }
    }
}

#[test]
fn parses_response_in_an_array() {
    assert_eq!(parse("[\"}{ {\"]").unwrap(), "}{ {");
}

#[test]
fn parses_response_with_other_members() {
    assert_eq!(parse("{\"note\":{\"a\":[1]},\"replacement\":\"x\"}").unwrap(), "x");
}

#[test]
fn wrapped_object_is_cut_from_first_to_last_brace() {
    assert_eq!(embedded_object(" é ] } {a}b} c ").unwrap(), "{a}b}");
    assert_eq!(embedded_object("{}").unwrap(), "{}");
    assert_eq!(embedded_object("x}{y").unwrap(), "");
}

#[test]
fn output_without_opening_brace_holds_no_object() {
    let error = parse("  no } here ").unwrap_err();
    assert_eq!(error, PiError::NoObject);
    assert_eq!(error.message(), "pi returned no JSON object");
    assert_eq!(parse("").unwrap_err(), PiError::NoObject);
}

#[test]
fn output_without_closing_brace_is_incomplete() {
    let error = parse("here { it starts").unwrap_err();
    assert_eq!(error, PiError::Incomplete);
    assert_eq!(error.message(), "pi returned incomplete JSON");
}

#[test]
fn object_without_replacement_is_invalid() {
    let error = parse("{}").unwrap_err();
    assert_eq!(error, PiError::Invalid("missing field `replacement` at line 1 column 2".into()));
    assert_eq!(
        error.message(),
        "pi returned invalid replacement JSON: missing field `replacement` at line 1 column 2"
    );
    assert!(matches!(
        parse("{\"replacement\":\"a\",\"replacement\":\"b\"}"),
        Err(PiError::Invalid(_))
    ));
    assert!(matches!(parse("}{"), Err(PiError::Invalid(_))));
}

#[test]
fn first_decoding_wins_and_the_second_counts_only_with_an_object() {
    let whole = parse_response("} {", Some("w".into()), Ok("p".into()));
    assert_eq!(whole, Ok("w".to_string()));
    let part = parse_response("x {y} z", None, Ok("p".into()));
    assert_eq!(part, Ok("p".to_string()));
    let none = parse_response("x", None, Ok("p".into()));
    assert_eq!(none, Err(PiError::NoObject));
}

#[test]
fn crossed_braces_are_recognized() {
    assert!(has_crossed_braces("} {"));
    assert!(has_crossed_braces("a } é { b"));
    assert!(!has_crossed_braces("}{"));
    assert!(!has_crossed_braces("{}"));
    assert!(!has_crossed_braces("} { }"));
    assert!(!has_crossed_braces("}"));
    assert!(!has_crossed_braces("{"));
}

fn is_white_space(n: u32) -> bool {
    matches!(
        n,
        0x9..=0xd | 0x20 | 0x85 | 0xa0 | 0x1680 | 0x2000..=0x200a | 0x2028 | 0x2029 | 0x202f | 0x205f | 0x3000
    )
}

#[test]
fn exactly_white_space_is_trimmed() {
    for n in 0..=0x10ffff_u32 {
        if let Some(c) = char::from_u32(n) {
            let text = format!("{c}x{c}y{c}");
            let expected = if is_white_space(n) { format!("x{c}y") } else { text.clone() };
            assert_eq!(reply_text(&text), expected);
        }
    }
    assert_eq!(reply_text(" \t\n"), "");
}

fn exited(success: bool, stdout: &[u8], stderr: &[u8]) -> RunEnd {
    RunEnd::Exited {
        success,
        status: "exit status: 3".into(),
        stdout: stdout.to_vec(),
        stderr: stderr.to_vec(),
    }
}

#[test]
fn output_of_a_successful_run_is_read() {
    assert_eq!(read_output(&exited(true, "é\n".as_bytes(), b"ignored")).unwrap(), "é\n");
}

#[test]
fn output_that_is_not_utf8_is_an_error() {
    let error = read_output(&exited(true, b"ab\xffc", b"")).unwrap_err();
    assert_eq!(
        error.message(),
        "pi returned non-UTF-8 output: invalid utf-8 sequence of 1 bytes from index 2"
    );
}

#[test]
fn failed_run_reports_standard_error() {
    let error = read_output(&exited(false, b"{}", b" \nno model\n")).unwrap_err();
    assert_eq!(
        error,
        PiError::Exit { status: "exit status: 3".into(), stderr: "no model".into() }
    );
    assert_eq!(error.message(), "pi exited with exit status: 3: no model");
    let error = read_output(&exited(false, b"{}", b"a\xff\xfeb ")).unwrap_err();
    assert_eq!(error.message(), "pi exited with exit status: 3: a\u{fffd}\u{fffd}b");
}

#[test]
fn failed_run_without_standard_error_reports_its_status() {
    let error = read_output(&exited(false, b"{}", b" \n")).unwrap_err();
    assert_eq!(error.message(), "pi exited with exit status: 3");
}

#[test]
fn runs_that_do_not_end_well_are_errors() {
    let message = |end: RunEnd| read_output(&end).unwrap_err().message();
    assert_eq!(message(RunEnd::StartFailed("e".into())), "could not start `pi`: e");
    assert_eq!(message(RunEnd::SendFailed("e".into())), "could not send the request to pi: e");
    assert_eq!(
        message(RunEnd::TimedOut("e".into())),
        "pi did not respond within five minutes: e"
    );
    assert_eq!(message(RunEnd::WaitFailed("e".into())), "e");
}

#[test]
fn run_comes_to_the_replacement_in_its_output() {
    let end = exited(true, b"Sure: {\"replacement\":\" x \"}.", b"noise");
    let output = read_output(&end).unwrap();
    assert!(decode(reply_text(&output)).is_err());
    let part = decode(embedded_object(&output).unwrap());
    assert_eq!(run_result(&end, None, part), Ok(" x ".to_string()));

    let end = exited(true, b"nothing", b"");
    assert_eq!(run_result(&end, None, Ok("p".into())), Err(PiError::NoObject));
    let end = exited(true, b"} {", b"");
    assert_eq!(run_result(&end, Some("w".into()), Err("e".into())), Ok("w".to_string()));
}

#[test]
fn run_without_output_comes_to_its_error() {
    let end = exited(false, b"{\"replacement\":\"x\"}", b"bad");
    assert_eq!(
        run_result(&end, Some("x".into()), Ok("x".into())).unwrap_err().message(),
        "pi exited with exit status: 3: bad"
    );
    let end = RunEnd::TimedOut("late".into());
    assert_eq!(
        run_result(&end, None, Ok("x".into())),
        Err(PiError::TimedOut("late".into()))
    );
}

#[test]
fn command_line_is_fixed() {
    assert_eq!(PROGRAM, "pi");
    assert_eq!(TIMEOUT_SECONDS, 300);
    assert_eq!(
        arguments(),
        vec![
            "--print",
            "--no-session",
            "--no-tools",
            "--no-extensions",
            "--no-skills",
            "--no-prompt-templates",
            "--no-context-files",
            "--system-prompt",
            SYSTEM_PROMPT,
        ]
    );
    assert!(SYSTEM_PROMPT.contains("{\"replacement\":\"the complete replacement snippet\"}"));
}
