//! A reader of compact JSON, and what it makes of a request.

use crate::json::{escaped, escaped_text, hex_digit, json_string};
use crate::request::{
    context_json, lemma_context_json_from_right, lemma_regroup, turn_json, turns_json,
    turns_tail_json, ContextView, TurnView,
};
use vstd::prelude::*;

verus! {

/// A JSON value made of strings, arrays and objects.
pub enum Json {
    Text(Seq<char>),
    List(Seq<Json>),
    Object(Seq<(Seq<char>, Json)>),
}

/// The value of a hexadecimal digit.
pub open spec fn digit_value(c: char) -> Option<int> {
    if '0' <= c <= '9' {
        Some(c as int - '0' as int)
    } else if 'a' <= c <= 'f' {
        Some(c as int - 'a' as int + 10)
    } else if 'A' <= c <= 'F' {
        Some(c as int - 'A' as int + 10)
    } else {
        None
    }
}

/// The character that the four hexadecimal digits stand for. A surrogate
/// stands for none.
pub open spec fn digits_char(a: char, b: char, c: char, d: char) -> Option<char> {
    match (digit_value(a), digit_value(b), digit_value(c), digit_value(d)) {
        (Some(a), Some(b), Some(c), Some(d)) => {
            let n = 4096 * a + 256 * b + 16 * c + d;
            if 0xd800 <= n <= 0xdfff {
                None
            } else {
                Some(n as char)
            }
        },
        _ => None,
    }
}

/// The character that the inside of a string literal starts with, and how
/// many characters of the literal it takes.
pub open spec fn read_char(s: Seq<char>) -> Option<(char, int)> {
    if s.len() == 0 || s[0] == '"' || (s[0] as int) < 0x20 {
        None
    } else if s[0] != '\\' {
        Some((s[0], 1))
    } else if s.len() < 2 {
        None
    } else if s[1] == '"' || s[1] == '\\' || s[1] == '/' {
        Some((s[1], 2))
    } else if s[1] == 'b' {
        Some(('\u{8}', 2))
    } else if s[1] == 'f' {
        Some(('\u{c}', 2))
    } else if s[1] == 'n' {
        Some(('\n', 2))
    } else if s[1] == 'r' {
        Some(('\r', 2))
    } else if s[1] == 't' {
        Some(('\t', 2))
    } else if s[1] == 'u' && s.len() >= 6 {
        match digits_char(s[2], s[3], s[4], s[5]) {
            Some(c) => Some((c, 6)),
            None => None,
        }
    } else {
        None
    }
}

/// The rest of a string literal behind its opening quotation mark: what it
/// holds, and what follows it.
pub open spec fn read_text(s: Seq<char>) -> Option<(Seq<char>, Seq<char>)>
    decreases s.len(),
{
    if s.len() == 0 {
        None
    } else if s[0] == '"' {
        Some((Seq::empty(), s.skip(1)))
    } else {
        match read_char(s) {
            Some((c, n)) => if 0 < n <= s.len() {
                match read_text(s.skip(n)) {
                    Some((text, rest)) => Some((seq![c] + text, rest)),
                    None => None,
                }
            } else {
                None
            },
            None => None,
        }
    }
}

/// The value that a text starts with, and what follows it.
pub open spec fn read_value(s: Seq<char>) -> Option<(Json, Seq<char>)>
    decreases s.len(), 0int,
{
    if s.len() == 0 {
        None
    } else if s[0] == '"' {
        match read_text(s.skip(1)) {
            Some((text, rest)) => Some((Json::Text(text), rest)),
            None => None,
        }
    } else if s[0] == '[' {
        if s.len() > 1 && s[1] == ']' {
            Some((Json::List(Seq::empty()), s.skip(2)))
        } else {
            match read_elements(s.skip(1)) {
                Some((elements, rest)) => Some((Json::List(elements), rest)),
                None => None,
            }
        }
    } else if s[0] == '{' {
        if s.len() > 1 && s[1] == '}' {
            Some((Json::Object(Seq::empty()), s.skip(2)))
        } else {
            match read_members(s.skip(1)) {
                Some((members, rest)) => Some((Json::Object(members), rest)),
                None => None,
            }
        }
    } else {
        None
    }
}

/// The elements of an array up to its closing bracket, and what follows it.
pub open spec fn read_elements(s: Seq<char>) -> Option<(Seq<Json>, Seq<char>)>
    decreases s.len(), 1int,
{
    match read_value(s) {
        Some((value, rest)) => if 0 < rest.len() < s.len() && rest[0] == ',' {
            match read_elements(rest.skip(1)) {
                Some((more, end)) => Some((seq![value] + more, end)),
                None => None,
            }
        } else if 0 < rest.len() && rest[0] == ']' {
            Some((seq![value], rest.skip(1)))
        } else {
            None
        },
        None => None,
    }
}

/// The members of an object up to its closing brace, and what follows it.
pub open spec fn read_members(s: Seq<char>) -> Option<(Seq<(Seq<char>, Json)>, Seq<char>)>
    decreases s.len(), 1int,
{
    if s.len() == 0 || s[0] != '"' {
        None
    } else {
        match read_text(s.skip(1)) {
            Some((name, colon)) => if 0 < colon.len() < s.len() && colon[0] == ':' {
                match read_value(colon.skip(1)) {
                    Some((value, rest)) => if 0 < rest.len() < s.len() && rest[0] == ',' {
                        match read_members(rest.skip(1)) {
                            Some((more, end)) => Some((seq![(name, value)] + more, end)),
                            None => None,
                        }
                    } else if 0 < rest.len() && rest[0] == '}' {
                        Some((seq![(name, value)], rest.skip(1)))
                    } else {
                        None
                    },
                    None => None,
                }
            } else {
                None
            },
            None => None,
        }
    }
}

proof fn lemma_read_char(c: char, x: Seq<char>)
    ensures
        read_char(escaped(c) + x) == Some((c, escaped(c).len() as int)),
        escaped(c)[0] != '"',
{
    let s = escaped(c) + x;
    assert(s[0] == escaped(c)[0]);
    if escaped(c).len() > 1 {
        assert(s[1] == escaped(c)[1]);
    }
    if escaped(c).len() == 6 {
        assert(s[2] == '0' && s[3] == '0');
        assert(s[4] == escaped(c)[4] && s[5] == escaped(c)[5]);
        assert(digit_value(hex_digit(c as int / 16)) == Some(c as int / 16));
        assert(digit_value(hex_digit(c as int % 16)) == Some(c as int % 16));
    }
}

proof fn lemma_read_text(t: Seq<char>, x: Seq<char>)
    ensures
        read_text(escaped_text(t) + (seq!['"'] + x)) == Some((t, x)),
    decreases t.len(),
{
    let s = escaped_text(t) + (seq!['"'] + x);
    if t.len() == 0 {
        assert(s[0] == '"');
        assert(s.skip(1) =~= x);
        assert(t =~= Seq::empty());
    } else {
        let c = t[0];
        let rest = escaped_text(t.drop_first()) + (seq!['"'] + x);
        assert(s =~= escaped(c) + rest);
        lemma_read_char(c, rest);
        assert(s[0] == escaped(c)[0]);
        assert(s.skip(escaped(c).len() as int) =~= rest);
        lemma_read_text(t.drop_first(), x);
        assert(seq![c] + t.drop_first() =~= t);
    }
}

/// A JSON string literal is read as the text that was written.
pub proof fn a_string_is_read_back(t: Seq<char>, x: Seq<char>)
    ensures
        read_value(json_string(t) + x) == Some((Json::Text(t), x)),
{
    let s = json_string(t) + x;
    assert(s[0] == '"');
    assert(s.skip(1) =~= escaped_text(t) + (seq!['"'] + x));
    lemma_read_text(t, x);
}

/// A member in front of what follows its value.
proof fn lemma_read_member(name: Seq<char>, s: Seq<char>, value: Json, rest: Seq<char>)
    requires
        read_value(s) == Some((value, rest)),
        0 < rest.len() < s.len(),
    ensures
        rest[0] == '}' ==> read_members(json_string(name) + (seq![':'] + s)) == Some(
            (seq![(name, value)], rest.skip(1)),
        ),
        rest[0] == ',' ==> (read_members(rest.skip(1)) matches Some((more, end)) ==> read_members(
            json_string(name) + (seq![':'] + s),
        ) == Some((seq![(name, value)] + more, end))),
{
    let t = json_string(name) + (seq![':'] + s);
    assert(t[0] == '"');
    assert(t.skip(1) =~= escaped_text(name) + (seq!['"'] + (seq![':'] + s)));
    lemma_read_text(name, seq![':'] + s);
    assert((seq![':'] + s).skip(1) =~= s);
}

/// An element in front of what follows it.
proof fn lemma_read_element(s: Seq<char>, value: Json, rest: Seq<char>)
    requires
        read_value(s) == Some((value, rest)),
        0 < rest.len() < s.len(),
    ensures
        rest[0] == ']' ==> read_elements(s) == Some((seq![value], rest.skip(1))),
        rest[0] == ',' ==> (read_elements(rest.skip(1)) matches Some((more, end)) ==> read_elements(
            s,
        ) == Some((seq![value] + more, end))),
{
}

/// A text of which no character is escaped.
proof fn lemma_plain_text(t: Seq<char>)
    requires
        forall|i: int|
            0 <= i < t.len() ==> #[trigger] t[i] != '"' && t[i] != '\\' && t[i] as int >= 0x20,
    ensures
        escaped_text(t) == t,
    decreases t.len(),
{
    if t.len() == 0 {
        assert(t =~= Seq::empty());
    } else {
        lemma_plain_text(t.drop_first());
        assert(seq![t[0]] + t.drop_first() =~= t);
    }
}

/// Whether the `i`-th of `members` is `member`, and the only one that is named
/// `name`.
pub open spec fn is_only_member(
    members: Seq<(Seq<char>, Json)>,
    i: int,
    name: Seq<char>,
    member: Json,
) -> bool {
    &&& 0 <= i < members.len()
    &&& members[i].0 == name
    &&& members[i].1 == member
    &&& forall|j: int| 0 <= j < members.len() && j != i ==> (#[trigger] members[j]).0 != name
}

/// Whether `value` is an object in which `member` is the one member that is
/// named `name`.
pub open spec fn has_member(value: Json, name: Seq<char>, member: Json) -> bool {
    match value {
        Json::Object(members) => exists|i: int| #[trigger]
            is_only_member(members, i, name, member),
        _ => false,
    }
}

/// Whether `value` is an object with `n` members.
pub open spec fn is_object(value: Json, n: nat) -> bool {
    value matches Json::Object(members) && members.len() == n
}

/// Whether `value` is an object that holds a turn: its request and its
/// replacement, each under its name, and nothing else.
pub open spec fn reads_turn(value: Json, turn: TurnView) -> bool {
    &&& is_object(value, 2)
    &&& has_member(value, "request"@, Json::Text(turn.request))
    &&& has_member(value, "replacement"@, Json::Text(turn.replacement))
}

/// Whether `value` is an array that holds the turns in their order.
pub open spec fn reads_turns(value: Json, turns: Seq<TurnView>) -> bool {
    match value {
        Json::List(elements) => {
            &&& elements.len() == turns.len()
            &&& forall|i: int|
                0 <= i < turns.len() ==> reads_turn(#[trigger] elements[i], turns[i])
        },
        _ => false,
    }
}

/// The value that a text holds, where it holds one value and nothing else.
pub open spec fn read_all(s: Seq<char>) -> Option<Json> {
    match read_value(s) {
        Some((value, rest)) => if rest.len() == 0 {
            Some(value)
        } else {
            None
        },
        None => None,
    }
}

proof fn lemma_first_name(name: Seq<char>)
    requires
        escaped_text(name) == name,
    ensures
        seq!['{'] + (seq!['"'] + name + seq!['"', ':']) == seq!['{'] + json_string(name) + seq![':'],
        seq![','] + (seq!['"'] + name + seq!['"', ':']) == seq![','] + json_string(name) + seq![':'],
{
    assert(seq!['"'] + name + seq!['"', ':'] =~= json_string(name) + seq![':']);
    assert(seq!['{'] + (seq!['"'] + name + seq!['"', ':']) =~= seq!['{'] + json_string(name)
        + seq![':']);
    assert(seq![','] + (seq!['"'] + name + seq!['"', ':']) =~= seq![','] + json_string(name)
        + seq![':']);
}

proof fn lemma_turn_names()
    ensures
        "{\"request\":"@ == seq!['{'] + json_string("request"@) + seq![':'],
        ",\"replacement\":"@ == seq![','] + json_string("replacement"@) + seq![':'],
        "request"@ != "replacement"@,
        "}"@ == seq!['}'],
{
    reveal_strlit("{\"request\":");
    reveal_strlit(",\"replacement\":");
    reveal_strlit("request");
    reveal_strlit("replacement");
    reveal_strlit("}");
    lemma_plain_text("request"@);
    lemma_plain_text("replacement"@);
    lemma_first_name("request"@);
    lemma_first_name("replacement"@);
    assert("{\"request\":"@ =~= seq!['{'] + (seq!['"'] + "request"@ + seq!['"', ':']));
    assert(",\"replacement\":"@ =~= seq![','] + (seq!['"'] + "replacement"@ + seq!['"', ':']));
    assert("}"@ =~= seq!['}']);
}

/// The members of an object behind its opening brace.
proof fn lemma_read_object(s: Seq<char>, members: Seq<(Seq<char>, Json)>, end: Seq<char>)
    requires
        read_members(s) == Some((members, end)),
    ensures
        read_value(seq!['{'] + s) == Some((Json::Object(members), end)),
{
    let t = seq!['{'] + s;
    assert(t.skip(1) =~= s);
    assert(t[1] == s[0]);
}

/// A name between a mark and a colon, in front of a value.
proof fn lemma_name(mark: Seq<char>, name: Seq<char>, s: Seq<char>)
    ensures
        mark + json_string(name) + seq![':'] + s == mark + (json_string(name) + (seq![':'] + s)),
{
    assert(mark + json_string(name) + seq![':'] + s =~= mark + (json_string(name) + (seq![':']
        + s)));
}

/// A member whose value is a string, with more members behind it.
proof fn lemma_text_member(
    name: Seq<char>,
    text: Seq<char>,
    s: Seq<char>,
    more: Seq<(Seq<char>, Json)>,
    end: Seq<char>,
)
    requires
        read_members(s) == Some((more, end)),
    ensures
        read_members(json_string(name) + (seq![':'] + (json_string(text) + (seq![','] + s))))
            == Some((seq![(name, Json::Text(text))] + more, end)),
{
    a_string_is_read_back(text, seq![','] + s);
    assert((seq![','] + s).skip(1) =~= s);
    lemma_read_member(name, json_string(text) + (seq![','] + s), Json::Text(text), seq![','] + s);
}

/// The last member, whose value is a string.
proof fn lemma_last_text_member(name: Seq<char>, text: Seq<char>, x: Seq<char>)
    ensures
        read_members(json_string(name) + (seq![':'] + (json_string(text) + (seq!['}'] + x))))
            == Some((seq![(name, Json::Text(text))], x)),
{
    a_string_is_read_back(text, seq!['}'] + x);
    assert((seq!['}'] + x).skip(1) =~= x);
    lemma_read_member(name, json_string(text) + (seq!['}'] + x), Json::Text(text), seq!['}'] + x);
}

proof fn lemma_turn_text(t: TurnView, x: Seq<char>)
    ensures
        turn_json(t) + x == seq!['{'] + (json_string("request"@) + (seq![':'] + (json_string(
            t.request,
        ) + (seq![','] + (json_string("replacement"@) + (seq![':'] + (json_string(t.replacement) + (
        seq!['}'] + x)))))))),
{
    lemma_turn_names();
    let n0 = "{\"request\":"@;
    let q0 = json_string(t.request);
    let n1 = ",\"replacement\":"@;
    let q1 = json_string(t.replacement);
    let e = seq!['}'];
    let p1 = n0 + q0;
    let p2 = p1 + n1;
    let p3 = p2 + q1;
    lemma_regroup(p3, e, x);
    lemma_regroup(p2, q1, e + x);
    lemma_regroup(p1, n1, q1 + (e + x));
    lemma_regroup(n0, q0, n1 + (q1 + (e + x)));
    lemma_name(seq![','], "replacement"@, q1 + (e + x));
    lemma_name(seq!['{'], "request"@, q0 + (n1 + (q1 + (e + x))));
}

proof fn lemma_two_members(a: (Seq<char>, Json), b: (Seq<char>, Json))
    requires
        a.0 != b.0,
    ensures
        is_object(Json::Object(seq![a] + seq![b]), 2),
        has_member(Json::Object(seq![a] + seq![b]), a.0, a.1),
        has_member(Json::Object(seq![a] + seq![b]), b.0, b.1),
{
    let m = seq![a] + seq![b];
    assert(m[0] == a && m[1] == b);
    assert(is_only_member(m, 0, a.0, a.1));
    assert(is_only_member(m, 1, b.0, b.1));
}

proof fn lemma_read_turn(t: TurnView, x: Seq<char>) -> (value: Json)
    ensures
        read_value(turn_json(t) + x) == Some((value, x)),
        reads_turn(value, t),
{
    let s1 = json_string("replacement"@) + (seq![':'] + (json_string(t.replacement) + (seq!['}']
        + x)));
    let s0 = json_string("request"@) + (seq![':'] + (json_string(t.request) + (seq![','] + s1)));
    let a = ("request"@, Json::Text(t.request));
    let b = ("replacement"@, Json::Text(t.replacement));
    lemma_turn_text(t, x);
    lemma_last_text_member("replacement"@, t.replacement, x);
    lemma_text_member("request"@, t.request, s1, seq![b], x);
    lemma_read_object(s0, seq![a] + seq![b], x);
    lemma_turn_names();
    lemma_two_members(a, b);
    Json::Object(seq![a] + seq![b])
}

proof fn lemma_read_turns_tail(turn: TurnView, tail: Seq<TurnView>, x: Seq<char>) -> (elements: Seq<
    Json,
>)
    ensures
        read_elements(turn_json(turn) + (turns_tail_json(tail) + (seq![']'] + x))) == Some(
            (elements, x),
        ),
        reads_turns(Json::List(elements), seq![turn] + tail),
    decreases tail.len(),
{
    reveal_strlit(",");
    let end = seq![']'] + x;
    let rest = turns_tail_json(tail) + end;
    let value = lemma_read_turn(turn, rest);
    lemma_turn_names();
    if tail.len() == 0 {
        assert(rest =~= end);
        lemma_read_element(turn_json(turn) + rest, value, rest);
        assert(end.skip(1) =~= x);
        assert(seq![turn] + tail =~= seq![turn]);
        seq![value]
    } else {
        let s = turn_json(tail[0]) + (turns_tail_json(tail.drop_first()) + end);
        assert(","@ =~= seq![',']);
        assert(rest =~= seq![','] + s);
        assert(rest.skip(1) =~= s);
        let more = lemma_read_turns_tail(tail[0], tail.drop_first(), x);
        lemma_read_element(turn_json(turn) + rest, value, rest);
        assert(seq![tail[0]] + tail.drop_first() =~= tail);
        seq![value] + more
    }
}

proof fn lemma_read_turns(turns: Seq<TurnView>, x: Seq<char>) -> (value: Json)
    ensures
        read_value(seq!['['] + (turns_json(turns) + (seq![']'] + x))) == Some((value, x)),
        reads_turns(value, turns),
{
    let s = seq!['['] + (turns_json(turns) + (seq![']'] + x));
    if turns.len() == 0 {
        assert(s[1] == ']');
        assert(s.skip(2) =~= x);
        Json::List(Seq::empty())
    } else {
        let tail = turns.drop_first();
        let inner = turn_json(turns[0]) + (turns_tail_json(tail) + (seq![']'] + x));
        let elements = lemma_read_turns_tail(turns[0], tail, x);
        lemma_turn_names();
        assert(inner[0] == '{');
        assert(s.skip(1) =~= inner);
        assert(s[1] == '{');
        assert(seq![turns[0]] + tail =~= turns);
        Json::List(elements)
    }
}

/// Whether `value` is an object that tells `pi` these things: each under its
/// name, and nothing else.
pub open spec fn reads_context(
    value: Json,
    original: Seq<char>,
    current: Seq<char>,
    language: Seq<char>,
    file: Seq<char>,
    turns: Seq<TurnView>,
    request: Seq<char>,
) -> bool {
    &&& is_object(value, 6)
    &&& has_member(value, "original"@, Json::Text(original))
    &&& has_member(value, "current"@, Json::Text(current))
    &&& has_member(value, "language"@, Json::Text(language))
    &&& has_member(value, "file"@, Json::Text(file))
    &&& exists|list: Json| #[trigger]
        has_member(value, "conversation"@, list) && reads_turns(list, turns)
    &&& has_member(value, "request"@, Json::Text(request))
}

proof fn lemma_context_names()
    ensures
        "{\"original\":"@ == seq!['{'] + json_string("original"@) + seq![':'],
        ",\"current\":"@ == seq![','] + json_string("current"@) + seq![':'],
        ",\"language\":"@ == seq![','] + json_string("language"@) + seq![':'],
        ",\"file\":"@ == seq![','] + json_string("file"@) + seq![':'],
        ",\"conversation\":["@ == seq![','] + json_string("conversation"@) + seq![':'] + seq!['['],
        "],\"request\":"@ == seq![']'] + (seq![','] + json_string("request"@) + seq![':']),
        "}"@ == seq!['}'],
{
    reveal_strlit("{\"original\":");
    reveal_strlit(",\"current\":");
    reveal_strlit(",\"language\":");
    reveal_strlit(",\"file\":");
    reveal_strlit(",\"conversation\":[");
    reveal_strlit("],\"request\":");
    reveal_strlit("}");
    reveal_strlit("original");
    reveal_strlit("current");
    reveal_strlit("language");
    reveal_strlit("file");
    reveal_strlit("conversation");
    reveal_strlit("request");
    lemma_plain_text("original"@);
    lemma_plain_text("current"@);
    lemma_plain_text("language"@);
    lemma_plain_text("file"@);
    lemma_plain_text("conversation"@);
    lemma_plain_text("request"@);
    lemma_first_name("original"@);
    lemma_first_name("current"@);
    lemma_first_name("language"@);
    lemma_first_name("file"@);
    lemma_first_name("conversation"@);
    lemma_first_name("request"@);
    assert("{\"original\":"@ =~= seq!['{'] + (seq!['"'] + "original"@ + seq!['"', ':']));
    assert(",\"current\":"@ =~= seq![','] + (seq!['"'] + "current"@ + seq!['"', ':']));
    assert(",\"language\":"@ =~= seq![','] + (seq!['"'] + "language"@ + seq!['"', ':']));
    assert(",\"file\":"@ =~= seq![','] + (seq!['"'] + "file"@ + seq!['"', ':']));
    assert(",\"conversation\":["@ =~= seq![','] + (seq!['"'] + "conversation"@ + seq!['"', ':'])
        + seq!['[']);
    assert("],\"request\":"@ =~= seq![']'] + (seq![','] + (seq!['"'] + "request"@ + seq!['"', ':'])));
    assert("}"@ =~= seq!['}']);
}

proof fn lemma_names_differ()
    ensures
        "original"@.len() == 8,
        "current"@.len() == 7,
        "language"@.len() == 8,
        "file"@.len() == 4,
        "conversation"@.len() == 12,
        "request"@.len() == 7,
        "original"@[0] != "language"@[0],
        "current"@[0] != "request"@[0],
{
    reveal_strlit("original");
    reveal_strlit("current");
    reveal_strlit("language");
    reveal_strlit("file");
    reveal_strlit("conversation");
    reveal_strlit("request");
}

/// [`context_json`] with each name told from its value.
proof fn lemma_context_text(c: ContextView)
    ensures
        context_json(c) == seq!['{'] + text_member(
            "original"@,
            c.original,
            text_member(
                "current"@,
                c.current,
                text_member("language"@, c.language, context_rest(c)),
            ),
        ),
{
    lemma_context_json_from_right(c);
    lemma_context_names();
    lemma_rest_text(c);
    let v3 = json_string(c.file) + (",\"conversation\":["@ + (turns_json(c.conversation) + (
    "],\"request\":"@ + (json_string(c.request) + "}"@))));
    let v2 = json_string(c.language) + (",\"file\":"@ + v3);
    let v1 = json_string(c.current) + (",\"language\":"@ + v2);
    let v0 = json_string(c.original) + (",\"current\":"@ + v1);
    lemma_name(seq![','], "language"@, v2);
    lemma_name(seq![','], "current"@, v1);
    lemma_name(seq!['{'], "original"@, v0);
}

/// A member whose value is a string, with `rest` behind the comma.
spec fn text_member(name: Seq<char>, text: Seq<char>, rest: Seq<char>) -> Seq<char> {
    json_string(name) + (seq![':'] + (json_string(text) + (seq![','] + rest)))
}

/// The last member, whose value is a string.
spec fn last_text_member(name: Seq<char>, text: Seq<char>) -> Seq<char> {
    json_string(name) + (seq![':'] + (json_string(text) + (seq!['}'] + Seq::<char>::empty())))
}

/// The turns as an array, with `rest` behind it.
spec fn turns_list(turns: Seq<TurnView>, rest: Seq<char>) -> Seq<char> {
    seq!['['] + (turns_json(turns) + (seq![']'] + rest))
}

/// The members of a request from the file on.
spec fn context_rest(c: ContextView) -> Seq<char> {
    let s5 = last_text_member("request"@, c.request);
    let s4 = json_string("conversation"@) + (seq![':'] + turns_list(c.conversation, seq![','] + s5));
    text_member("file"@, c.file, s4)
}

proof fn lemma_rest_text(c: ContextView)
    ensures
        ",\"file\":"@ + (json_string(c.file) + (",\"conversation\":["@ + (turns_json(c.conversation)
            + ("],\"request\":"@ + (json_string(c.request) + "}"@))))) == seq![',']
            + context_rest(c),
{
    lemma_context_names();
    let last = seq!['}'] + Seq::<char>::empty();
    assert(last =~= "}"@);
    let v5 = json_string(c.request) + last;
    let n5 = seq![','] + json_string("request"@) + seq![':'];
    lemma_regroup(seq![']'], n5, v5);
    lemma_name(seq![','], "request"@, v5);
    let r4 = turns_json(c.conversation) + ("],\"request\":"@ + v5);
    let n4 = seq![','] + json_string("conversation"@) + seq![':'];
    lemma_regroup(n4, seq!['['], r4);
    lemma_name(seq![','], "conversation"@, seq!['['] + r4);
    let v3 = json_string(c.file) + (",\"conversation\":["@ + r4);
    lemma_name(seq![','], "file"@, v3);
}

proof fn lemma_read_rest(c: ContextView) -> (list: Json)
    ensures
        read_members(context_rest(c)) == Some(
            (
                seq![("file"@, Json::Text(c.file))] + (seq![("conversation"@, list)] + seq![
                    ("request"@, Json::Text(c.request)),
                ]),
                Seq::<char>::empty(),
            ),
        ),
        reads_turns(list, c.conversation),
{
    let empty = Seq::<char>::empty();
    let s5 = json_string("request"@) + (seq![':'] + (json_string(c.request) + (seq!['}'] + empty)));
    let r4 = seq![','] + s5;
    let v4 = seq!['['] + (turns_json(c.conversation) + (seq![']'] + r4));
    let s4 = json_string("conversation"@) + (seq![':'] + v4);
    lemma_last_text_member("request"@, c.request, empty);
    let m5 = seq![("request"@, Json::Text(c.request))];
    let list = lemma_read_turns(c.conversation, r4);
    assert(r4.skip(1) =~= s5);
    lemma_read_member("conversation"@, v4, list, r4);
    let m4 = seq![("conversation"@, list)] + m5;
    lemma_text_member("file"@, c.file, s4, m4, empty);
    list
}

proof fn lemma_has_member(members: Seq<(Seq<char>, Json)>, i: int, name: Seq<char>, member: Json)
    requires
        is_only_member(members, i, name, member),
    ensures
        has_member(Json::Object(members), name, member),
{
    let value = Json::Object(members);
    assert(value->Object_0 == members);
    assert(is_only_member(value->Object_0, i, name, member));
}

proof fn lemma_six_members(
    m: Seq<(Seq<char>, Json)>,
    a: Json,
    b: Json,
    c: Json,
    d: Json,
    e: Json,
    f: Json,
)
    requires
        m == seq![("original"@, a)] + (seq![("current"@, b)] + (seq![("language"@, c)] + (seq![
            ("file"@, d),
        ] + (seq![("conversation"@, e)] + seq![("request"@, f)])))),
    ensures
        is_object(Json::Object(m), 6),
        has_member(Json::Object(m), "original"@, a),
        has_member(Json::Object(m), "current"@, b),
        has_member(Json::Object(m), "language"@, c),
        has_member(Json::Object(m), "file"@, d),
        has_member(Json::Object(m), "conversation"@, e),
        has_member(Json::Object(m), "request"@, f),
{
    lemma_names_differ();
    assert(m[0] == ("original"@, a));
    assert(m[1] == ("current"@, b));
    assert(m[2] == ("language"@, c));
    assert(m[3] == ("file"@, d));
    assert(m[4] == ("conversation"@, e));
    assert(m[5] == ("request"@, f));
    lemma_has_member(m, 0, "original"@, a);
    lemma_has_member(m, 1, "current"@, b);
    lemma_has_member(m, 2, "language"@, c);
    lemma_has_member(m, 3, "file"@, d);
    lemma_has_member(m, 4, "conversation"@, e);
    lemma_has_member(m, 5, "request"@, f);
}

/// The text of a request, read as JSON, is one object that holds each part of
/// the context under its own name: "original", "current", "language" and
/// "file", the turns in their order as "conversation", each with its
/// "request" and its "replacement", and the new "request".
pub proof fn a_request_is_read_back(c: ContextView)
    ensures
        read_all(context_json(c)) matches Some(value) && reads_context(
            value,
            c.original,
            c.current,
            c.language,
            c.file,
            c.conversation,
            c.request,
        ),
{
    let empty = Seq::<char>::empty();
    let s3 = context_rest(c);
    let s2 = json_string("language"@) + (seq![':'] + (json_string(c.language) + (seq![','] + s3)));
    let s1 = json_string("current"@) + (seq![':'] + (json_string(c.current) + (seq![','] + s2)));
    let s0 = json_string("original"@) + (seq![':'] + (json_string(c.original) + (seq![','] + s1)));
    lemma_context_text(c);
    let list = lemma_read_rest(c);
    let m5 = seq![("request"@, Json::Text(c.request))];
    let m4 = seq![("conversation"@, list)] + m5;
    let m3 = seq![("file"@, Json::Text(c.file))] + m4;
    lemma_text_member("language"@, c.language, s3, m3, empty);
    let m2 = seq![("language"@, Json::Text(c.language))] + m3;
    lemma_text_member("current"@, c.current, s2, m2, empty);
    let m1 = seq![("current"@, Json::Text(c.current))] + m2;
    lemma_text_member("original"@, c.original, s1, m1, empty);
    let m0 = seq![("original"@, Json::Text(c.original))] + m1;
    lemma_read_object(s0, m0, empty);
    let a = Json::Text(c.original);
    let b = Json::Text(c.current);
    let d = Json::Text(c.file);
    let f = Json::Text(c.request);
    lemma_six_members(m0, a, b, Json::Text(c.language), d, list, f);
}

} // verus!
