use ai_edit::request::{build_request, ConversationTurn, RequestContext};
use serde::ser::{Serialize, SerializeStruct, Serializer};

struct Turn(String);

impl Serialize for Turn {
    fn serialize<S: Serializer>(&self, serializer: S) -> Result<S::Ok, S::Error> {
        let mut turn = serializer.serialize_struct("ConversationTurn", 2)?;
        turn.serialize_field("request", &self.0)?;
        turn.serialize_field("replacement", &self.0)?;
        turn.end()
    }
}

/// A context with the same text in each of its strings.
struct Context(String, usize);

impl Serialize for Context {
    fn serialize<S: Serializer>(&self, serializer: S) -> Result<S::Ok, S::Error> {
        let turns: Vec<Turn> = (0..self.1).map(|_| Turn(self.0.clone())).collect();
        let mut context = serializer.serialize_struct("RequestContext", 6)?;
        context.serialize_field("original", &self.0)?;
        context.serialize_field("current", &self.0)?;
        context.serialize_field("language", &self.0)?;
        context.serialize_field("file", &self.0)?;
        context.serialize_field("conversation", &turns)?;
        context.serialize_field("request", &self.0)?;
        context.end()
    }
}

#[test]
fn request_is_the_serialized_context() {
    let all: String = (0..0x3000_u32).filter_map(char::from_u32).collect();
    for text in ["", "x", "\"\\", all.as_str()] {
        for turns in 0..4 {
            let context = RequestContext {
                original: text.into(),
                current: text.into(),
                language: text.into(),
                file: text.into(),
                conversation: (0..turns)
                    .map(|_| ConversationTurn { request: text.into(), replacement: text.into() })
                    .collect(),
                request: text.into(),
            };
            assert_eq!(
                build_request(context),
                serde_json::to_string(&Context(text.into(), turns)).unwrap()
            );
        }
    }
}

fn context_with(language: &str, turns: &[(&str, &str)]) -> RequestContext {
    RequestContext {
        original: "a".into(),
        current: "b".into(),
        language: language.into(),
        file: "f".into(),
        conversation: turns
            .iter()
            .map(|(request, replacement)| ConversationTurn {
                request: request.to_string(),
                replacement: replacement.to_string(),
            })
            .collect(),
        request: "r".into(),
    }
}

#[test]
fn request_contains_context_and_conversation() {
    let context = RequestContext {
        original: "let value = 1;".into(),
        current: "let value = 2;".into(),
        language: "rust".into(),
        file: "src/main.rs".into(),
        conversation: vec![ConversationTurn {
            request: "Increment the value".into(),
            replacement: "let value = 2;".into(),
        }],
        request: "Use a descriptive name".into(),
    };

    let request: serde_json::Value = serde_json::from_str(&build_request(context)).unwrap();

    assert_eq!(request["original"], "let value = 1;");
    assert_eq!(request["current"], "let value = 2;");
    assert_eq!(request["language"], "rust");
    assert_eq!(request["file"], "src/main.rs");
    assert_eq!(request["conversation"][0]["request"], "Increment the value");
    assert_eq!(request["request"], "Use a descriptive name");
}

#[test]
fn request_without_turns_has_an_empty_conversation() {
    assert_eq!(
        build_request(context_with("rust", &[])),
        r#"{"original":"a","current":"b","language":"rust","file":"f","conversation":[],"request":"r"}"#
    );
}

#[test]
fn request_lists_turns_in_order() {
    assert_eq!(
        build_request(context_with("rust", &[("p", "q"), ("s", "t"), ("u", "v")])),
        concat_lines(&[
            r#"{"original":"a","current":"b","language":"rust","file":"f","conversation":["#,
            r#"{"request":"p","replacement":"q"},{"request":"s","replacement":"t"},"#,
            r#"{"request":"u","replacement":"v"}],"request":"r"}"#,
        ])
    );
}

fn concat_lines(lines: &[&str]) -> String {
    lines.concat()
}

#[test]
fn request_escapes_strings() {
    assert_eq!(
        build_request(context_with("\"\\/\u{8}\u{c}\n\r\t\u{0}\u{b}\u{1f}\u{7f}é😀", &[])),
        concat_lines(&[
            r#"{"original":"a","current":"b","language":"\"\\/\b\f\n\r\t\u0000\u000b\u001f"#,
            "\u{7f}é😀",
            r#"","file":"f","conversation":[],"request":"r"}"#,
        ])
    );
}

#[test]
fn every_character_can_be_read_back() {
    for n in 0..=0x10ffff_u32 {
        if n > 0x3000 && n % 97 != 0 {
            continue;
        }
        let Some(c) = char::from_u32(n) else {
            continue;
        };
        let text = format!("<{c}>");
        let request: serde_json::Value =
            serde_json::from_str(&build_request(context_with(&text, &[(&text, &text)]))).unwrap();
        assert_eq!(request["language"], text.as_str());
        assert_eq!(request["conversation"][0]["request"], text.as_str());
        assert_eq!(request["conversation"][0]["replacement"], text.as_str());
    }
}

#[test]
fn different_contexts_give_different_requests() {
    let one = build_request(context_with("x\",\"file\":\"y", &[]));
    let other = build_request(context_with("x", &[]));
    assert_ne!(one, other);
    assert_ne!(
        build_request(context_with("x", &[("p", "q")])),
        build_request(context_with("x", &[("pq", "")]))
    );
}
