//! The replacement in the reply of `pi`.

use crate::json::{json_string, json_string_is_self_delimiting};
use crate::process::{
    read_output, result_view, successful_output_is_read_back, PiError, PiErrorView, RunEnd,
};
use crate::text::{
    find_char, is_whitespace, rfind_char, trimmed, trimmed_end, trimmed_start,
    trimming_again_changes_nothing, utf8_error, utf8_lossy,
};
use vstd::prelude::*;
use vstd::utf8::{encode_utf8, valid_utf8};

verus! {

/// Whether the last closing brace of `reply` stands before its first opening
/// brace, with something between them.
pub open spec fn braces_crossed(reply: Seq<char>) -> bool {
    match (reply.index_of_first('{'), reply.index_of_last('}')) {
        (Some(first), Some(last)) => last + 1 < first,
        _ => false,
    }
}

/// The part of `reply` from its first opening brace to its last closing brace.
pub open spec fn embedded(reply: Seq<char>) -> Result<Seq<char>, PiErrorView> {
    match (reply.index_of_first('{'), reply.index_of_last('}')) {
        (None, _) => Err(PiErrorView::NoObject),
        (Some(_), None) => Err(PiErrorView::Incomplete),
        (Some(first), Some(last)) => Ok(reply.subrange(first, last + 1)),
    }
}

/// The replacement that the output of `pi` holds, where `whole` is what the
/// whole reply decodes to and `part` what its embedded object decodes to.
pub open spec fn replacement(
    output: Seq<char>,
    whole: Option<Seq<char>>,
    part: Result<Seq<char>, Seq<char>>,
) -> Result<Seq<char>, PiErrorView> {
    match (whole, embedded(trimmed(output)), part) {
        (Some(text), _, _) => Ok(text),
        (None, Err(e), _) => Err(e),
        (None, Ok(_), Ok(text)) => Ok(text),
        (None, Ok(_), Err(e)) => Err(PiErrorView::Invalid(e)),
    }
}

/// The reply in the output of `pi`: what is tried first as an object with a
/// replacement.
pub fn reply_text<'a>(output: &'a str) -> (reply: &'a str)
    ensures
        reply@ == trimmed(output@),
{
    output.trim()
}

/// Whether the reply in `output` has its braces the wrong way round, which
/// leaves no range to cut out of it.
pub fn has_crossed_braces(output: &str) -> (r: bool)
    ensures
        r == braces_crossed(trimmed(output@)),
{
    let reply: &str = output.trim();
    match (find_char(reply, '{'), rfind_char(reply, '}')) {
        (Some(first), Some(last)) => last + 1 < first,
        _ => false,
    }
}

/// The object in the output of `pi` when other text surrounds it: what is
/// tried when the whole reply is no object with a replacement.
pub fn embedded_object<'a>(output: &'a str) -> (r: Result<&'a str, PiError>)
    requires
        !braces_crossed(trimmed(output@)),
    ensures
        match r {
            Ok(object) => embedded(trimmed(output@)) == Ok::<Seq<char>, PiErrorView>(object@),
            Err(e) => embedded(trimmed(output@)) == Err::<Seq<char>, PiErrorView>(e@),
        },
{
    let reply: &str = output.trim();
    match find_char(reply, '{') {
        None => Err(PiError::NoObject),
        Some(first) => match rfind_char(reply, '}') {
            None => Err(PiError::Incomplete),
            Some(last) => Ok(reply.substring_char(first, last + 1)),
        },
    }
}

/// The replacement in the output of `pi`. `whole` is what [`reply_text`] of
/// the output decodes to, if it decodes at all; `part` is what
/// [`embedded_object`] of the output decodes to, or why it does not, and
/// counts only where `whole` is `None` and there is such an object.
pub fn parse_response(output: &str, whole: Option<String>, part: Result<String, String>) -> (r:
    Result<String, PiError>)
    requires
        whole is None ==> !braces_crossed(trimmed(output@)),
    ensures
        result_view(r) == replacement(
            output@,
            match whole {
                Some(text) => Some(text@),
                None => None,
            },
            match part {
                Ok(text) => Ok(text@),
                Err(e) => Err(e@),
            },
        ),
{
    match whole {
        Some(text) => Ok(text),
        None => match embedded_object(output) {
            Err(e) => Err(e),
            Ok(_) => match part {
                Ok(text) => Ok(text),
                Err(e) => Err(PiError::Invalid(e)),
            },
        },
    }
}

/// What a run of `pi` comes to: the replacement that its output holds, or why
/// it has no output.
pub open spec fn run_replacement(
    end: RunEnd,
    whole: Option<Seq<char>>,
    part: Result<Seq<char>, Seq<char>>,
) -> Result<Seq<char>, PiErrorView> {
    match end.output() {
        Ok(output) => replacement(output, whole, part),
        Err(e) => Err(e),
    }
}

/// What a run of `pi` comes to. `whole` and `part` are what the output of the
/// run decodes to, as [`parse_response`] takes them; they count only where the
/// run has an output.
pub fn run_result(end: &RunEnd, whole: Option<String>, part: Result<String, String>) -> (r: Result<
    String,
    PiError,
>)
    requires
        end.output() matches Ok(output) ==> whole is None ==> !braces_crossed(trimmed(output)),
    ensures
        result_view(r) == run_replacement(
            *end,
            match whole {
                Some(text) => Some(text@),
                None => None,
            },
            match part {
                Ok(text) => Ok(text@),
                Err(e) => Err(e@),
            },
        ),
{
    match read_output(end) {
        Ok(output) => parse_response(output.as_str(), whole, part),
        Err(e) => Err(e),
    }
}

/// The replacement in the output of `pi` under a decoder of JSON objects.
pub open spec fn decoded_replacement(
    output: Seq<char>,
    decode: spec_fn(Seq<char>) -> Result<Seq<char>, Seq<char>>,
) -> Result<Seq<char>, PiErrorView> {
    replacement(
        output,
        match decode(trimmed(output)) {
            Ok(text) => Some(text),
            Err(_) => None,
        },
        match embedded(trimmed(output)) {
            Ok(object) => decode(object),
            Err(_) => Err(Seq::empty()),
        },
    )
}

/// Handing the results of one decoder to [`parse_response`] gives what the
/// output decodes to under that decoder.
pub proof fn parsing_follows_the_decoder(
    output: Seq<char>,
    whole: Option<Seq<char>>,
    part: Result<Seq<char>, Seq<char>>,
    decode: spec_fn(Seq<char>) -> Result<Seq<char>, Seq<char>>,
)
    requires
        match decode(trimmed(output)) {
            Ok(text) => whole == Some(text),
            Err(_) => whole is None,
        },
        whole is None ==> (embedded(trimmed(output)) matches Ok(object) ==> part == decode(
            object,
        )),
    ensures
        replacement(output, whole, part) == decoded_replacement(output, decode),
{
}

/// A reply that is an object with a replacement gives that replacement,
/// whatever white space surrounds it.
pub proof fn plain_reply_is_decoded(
    output: Seq<char>,
    text: Seq<char>,
    decode: spec_fn(Seq<char>) -> Result<Seq<char>, Seq<char>>,
)
    requires
        decode(trimmed(output)) == Ok::<Seq<char>, Seq<char>>(text),
    ensures
        decoded_replacement(output, decode) == Ok::<Seq<char>, PiErrorView>(text),
{
}

/// Prose or a Markdown fence around an object does not hide it: with no
/// opening brace before the object and no closing brace after it, the object
/// is found whole, its braces are not crossed, and where the reply as it
/// stands does not decode, the object decides.
pub proof fn wrapped_reply_is_decoded(
    before: Seq<char>,
    object: Seq<char>,
    after: Seq<char>,
    decode: spec_fn(Seq<char>) -> Result<Seq<char>, Seq<char>>,
)
    requires
        !before.contains('{'),
        !after.contains('}'),
        object.len() >= 2,
        object.first() == '{',
        object.last() == '}',
    ensures
        !braces_crossed(trimmed(before + object + after)),
        embedded(trimmed(before + object + after)) == Ok::<Seq<char>, PiErrorView>(object),
        decode(trimmed(before + object + after)) is Err ==> decoded_replacement(
            before + object + after,
            decode,
        ) == match decode(object) {
            Ok(text) => Ok(text),
            Err(e) => Err(PiErrorView::Invalid(e)),
        },
{
    lemma_trimmed_keeps_middle(before, object, after);
    let (pre, post): (Seq<char>, Seq<char>) = choose|pre: Seq<char>, post: Seq<char>|
        {
            &&& #[trigger] (pre + object + post) == trimmed(before + object + after)
            &&& is_suffix(pre, before)
            &&& post.is_prefix_of(after)
        };
    let t = pre + object + post;
    assert(!pre.contains('{')) by {
        if pre.contains('{') {
            let i = choose|i: int| 0 <= i < pre.len() && pre[i] == '{';
            assert(before[before.len() - pre.len() + i] == '{');
        }
    }
    assert(!post.contains('}')) by {
        if post.contains('}') {
            let i = choose|i: int| 0 <= i < post.len() && post[i] == '}';
            assert(after[i] == '}');
        }
    }
    t.index_of_first_ensures('{');
    t.index_of_last_ensures('}');
    let a = pre.len() as int;
    let b = pre.len() + object.len() - 1;
    assert(t[a] == '{' && t[b] == '}');
    assert(t.contains('{') && t.contains('}'));
    let i = t.index_of_first('{')->0;
    let j = t.index_of_last('}')->0;
    assert(i == a) by {
        if i < a {
            assert(pre[i] == '{');
        }
    }
    assert(j == b) by {
        if j > b {
            assert(post[j - b - 1] == '}');
        }
    }
    assert(t.subrange(a, b + 1) =~= object);
}

/// The object that `pi` is asked to reply with.
pub open spec fn response_json(text: Seq<char>) -> Seq<char> {
    "{\"replacement\":"@ + json_string(text) + "}"@
}

/// Whether `s` can stand between the quotation marks of a JSON string
/// literal, as far as it has no quotation mark but an escaped one.
pub open spec fn well_quoted(s: Seq<char>) -> bool
    decreases s.len(),
{
    if s.len() == 0 {
        true
    } else if s[0] == '"' {
        false
    } else if s[0] == '\\' {
        s.len() >= 2 && well_quoted(s.skip(2))
    } else {
        well_quoted(s.skip(1))
    }
}

/// Whether `s` holds nothing but white space.
pub open spec fn is_blank(s: Seq<char>) -> bool {
    forall|i: int| 0 <= i < s.len() ==> is_whitespace(#[trigger] s[i])
}

/// Whether `reply` is an array with a string between `a` and `b`.
pub open spec fn is_string_array(
    reply: Seq<char>,
    a: Seq<char>,
    body: Seq<char>,
    b: Seq<char>,
) -> bool {
    &&& reply == seq!['['] + a + seq!['"'] + body + seq!['"'] + b + seq![']']
    &&& is_blank(a)
    &&& is_blank(b)
    &&& well_quoted(body)
}

/// What is asked of a decoder of JSON into a structure with the one member
/// `replacement`: it reads the object with that member, and nothing but an
/// object or an array of one string, with no white space around it, is such a
/// structure.
pub open spec fn decodes_responses(
    decode: spec_fn(Seq<char>) -> Result<Seq<char>, Seq<char>>,
) -> bool {
    &&& forall|text: Seq<char>| #[trigger]
        decode(response_json(text)) == Ok::<Seq<char>, Seq<char>>(text)
    &&& forall|reply: Seq<char>| #[trigger]
        decode(reply) is Ok && trimmed(reply) == reply ==> {
            ||| reply.len() > 0 && reply.first() == '{' && reply.last() == '}'
            ||| exists|a: Seq<char>, body: Seq<char>, b: Seq<char>|
                is_string_array(reply, a, body, b)
        }
}

/// Objects with different replacements differ, so that there is a decoder
/// which does what is asked of one.
pub proof fn responses_can_be_decoded() -> (decode: spec_fn(Seq<char>) -> Result<
    Seq<char>,
    Seq<char>,
>)
    ensures
        decodes_responses(decode),
{
    let decode = |reply: Seq<char>|
        if exists|text: Seq<char>| reply == #[trigger] response_json(text) {
            Ok(choose|text: Seq<char>| reply == #[trigger] response_json(text))
        } else {
            Err(Seq::empty())
        };
    reveal_strlit("{\"replacement\":");
    reveal_strlit("}");
    let open = "{\"replacement\":"@;
    assert forall|text: Seq<char>| #[trigger]
        decode(response_json(text)) == Ok::<Seq<char>, Seq<char>>(text) by {
        let other = choose|other: Seq<char>|
            response_json(text) == #[trigger] response_json(other);
        let x = json_string(text) + "}"@;
        let y = json_string(other) + "}"@;
        assert(response_json(text) =~= open + x);
        assert(response_json(other) =~= open + y);
        assert(x =~= (open + x).skip(open.len() as int));
        assert(y =~= (open + y).skip(open.len() as int));
        json_string_is_self_delimiting(text, other, "}"@, "}"@);
    }
    decode
}

/// The replacement comes back verbatim: where `pi` replies with the object it
/// is asked for, with any replacement, among any text that has no opening
/// brace before the object and no closing brace after it, the result is that
/// replacement, character for character.
pub proof fn requested_reply_gives_the_replacement(
    before: Seq<char>,
    text: Seq<char>,
    after: Seq<char>,
    decode: spec_fn(Seq<char>) -> Result<Seq<char>, Seq<char>>,
)
    requires
        decodes_responses(decode),
        !before.contains('{'),
        !after.contains('}'),
    ensures
        !braces_crossed(trimmed(before + response_json(text) + after)),
        decoded_replacement(before + response_json(text) + after, decode) == Ok::<
            Seq<char>,
            PiErrorView,
        >(text),
{
    let object = response_json(text);
    reveal_strlit("{\"replacement\":");
    reveal_strlit("}");
    assert(object[0] == '{' && object[1] == '"' && object[2] == 'r');
    assert(object.last() == '}');
    let output = before + object + after;
    wrapped_reply_is_decoded(before, object, after, decode);
    assert(decode(object) == Ok::<Seq<char>, Seq<char>>(text));
    let reply = trimmed(output);
    if decode(reply) is Ok {
        lemma_trimmed_keeps_middle(before, object, after);
        let (pre, post): (Seq<char>, Seq<char>) = choose|pre: Seq<char>, post: Seq<char>|
            {
                &&& #[trigger] (pre + object + post) == reply
                &&& is_suffix(pre, before)
                &&& post.is_prefix_of(after)
            };
        trimming_again_changes_nothing(output);
        let k = pre.len() as int;
        assert(reply[k] == '{' && reply[k + 1] == '"' && reply[k + 2] == 'r');
        if reply.first() == '{' && reply.last() == '}' {
            assert(pre.len() == 0) by {
                if pre.len() > 0 {
                    assert(before[before.len() - pre.len()] == '{');
                }
            }
            assert(post.len() == 0) by {
                if post.len() > 0 {
                    assert(after[post.len() - 1] == '}');
                }
            }
            assert(reply =~= object);
        } else {
            let (a, body, b) = choose|a: Seq<char>, body: Seq<char>, b: Seq<char>|
                is_string_array(reply, a, body, b);
            lemma_quote_behind_brace_ends_string(reply, a, body, b, k);
        }
    }
}

/// A run of `pi` that succeeds and writes the object it is asked for, among
/// any text without an opening brace before it and a closing brace after it,
/// comes to the replacement in that object.
pub proof fn requested_run_gives_the_replacement(
    end: RunEnd,
    before: Seq<char>,
    text: Seq<char>,
    after: Seq<char>,
    whole: Option<Seq<char>>,
    part: Result<Seq<char>, Seq<char>>,
    decode: spec_fn(Seq<char>) -> Result<Seq<char>, Seq<char>>,
)
    requires
        end is Exited,
        end->success,
        end->stdout@ == encode_utf8(before + response_json(text) + after),
        decodes_responses(decode),
        !before.contains('{'),
        !after.contains('}'),
        match decode(trimmed(before + response_json(text) + after)) {
            Ok(decoded) => whole == Some(decoded),
            Err(_) => whole is None,
        },
        whole is None ==> part == decode(response_json(text)),
    ensures
        run_replacement(end, whole, part) == Ok::<Seq<char>, PiErrorView>(text),
{
    let output = before + response_json(text) + after;
    reveal_strlit("{\"replacement\":");
    reveal_strlit("}");
    successful_output_is_read_back(end, output);
    requested_reply_gives_the_replacement(before, text, after, decode);
    wrapped_reply_is_decoded(before, response_json(text), after, decode);
    parsing_follows_the_decoder(output, whole, part, decode);
}

/// In an array of one string, a quotation mark behind an opening brace ends
/// the string.
proof fn lemma_quote_behind_brace_ends_string(
    reply: Seq<char>,
    a: Seq<char>,
    body: Seq<char>,
    b: Seq<char>,
    k: int,
)
    requires
        is_string_array(reply, a, body, b),
        0 <= k,
        k + 2 < reply.len(),
        reply[k] == '{',
        reply[k + 1] == '"',
    ensures
        reply[k + 2] == ']' || is_whitespace(reply[k + 2]),
{
    let u: int = 2 + a.len() as int;
    let v: int = u + body.len();
    assert(reply[0] == '[');
    assert(reply[u - 1] == '"');
    assert(reply[v] == '"');
    assert(reply.len() == v + b.len() + 2);
    assert(reply.last() == ']');
    assert forall|i: int| 1 <= i < u - 1 implies reply[i] == a[i - 1] by {}
    assert forall|i: int| u <= i < v implies reply[i] == body[i - u] by {}
    assert forall|i: int| v < i < reply.len() - 1 implies reply[i] == b[i - v - 1] by {}
    assert(u <= k < v) by {
        if 1 <= k < u - 1 {
            assert(is_whitespace(a[k - 1]));
        }
        if v < k < reply.len() - 1 {
            assert(is_whitespace(b[k - v - 1]));
        }
    }
    if k + 1 == v {
        if v < k + 2 < reply.len() - 1 {
            assert(is_whitespace(b[k + 2 - v - 1]));
        }
    } else {
        lemma_inner_quote_is_escaped(body, k + 1 - u);
    }
}

proof fn lemma_inner_quote_is_escaped(s: Seq<char>, i: int)
    requires
        well_quoted(s),
        0 < i < s.len(),
        s[i] == '"',
    ensures
        s[i - 1] == '\\',
    decreases s.len(),
{
    reveal_with_fuel(well_quoted, 2);
    if s[0] == '\\' {
        if i > 2 {
            lemma_inner_quote_is_escaped(s.skip(2), i - 2);
        } else if i == 2 {
            assert(s.skip(2)[0] == '"');
        }
    } else if i == 1 {
        assert(s.skip(1)[0] == '"');
    } else {
        lemma_inner_quote_is_escaped(s.skip(1), i - 1);
    }
}

spec fn is_suffix(s: Seq<char>, t: Seq<char>) -> bool {
    &&& s.len() <= t.len()
    &&& forall|i: int| 0 <= i < s.len() ==> s[i] == t[t.len() - s.len() + i]
}

/// Trimming takes only from what surrounds a middle part that neither starts
/// nor ends with white space.
proof fn lemma_trimmed_keeps_middle(before: Seq<char>, middle: Seq<char>, after: Seq<char>)
    requires
        middle.len() > 0,
        !is_whitespace(middle.first()),
        !is_whitespace(middle.last()),
    ensures
        exists|pre: Seq<char>, post: Seq<char>|
            {
                &&& #[trigger] (pre + middle + post) == trimmed(before + middle + after)
                &&& is_suffix(pre, before)
                &&& post.is_prefix_of(after)
            },
{
    let pre = lemma_trimmed_start_keeps(before, middle + after);
    assert(before + middle + after =~= before + (middle + after));
    assert(pre + (middle + after) =~= (pre + middle) + after);
    let post = lemma_trimmed_end_keeps(pre + middle, after);
    assert(pre + middle + post == trimmed(before + middle + after));
}

proof fn lemma_trimmed_start_keeps(before: Seq<char>, rest: Seq<char>) -> (pre: Seq<char>)
    requires
        rest.len() > 0,
        !is_whitespace(rest.first()),
    ensures
        trimmed_start(before + rest) == pre + rest,
        is_suffix(pre, before),
    decreases before.len(),
{
    if before.len() > 0 && is_whitespace(before[0]) {
        assert((before + rest).drop_first() =~= before.drop_first() + rest);
        lemma_trimmed_start_keeps(before.drop_first(), rest)
    } else {
        assert(before.len() == 0 ==> (before + rest)[0] == rest[0]);
        before
    }
}

proof fn lemma_trimmed_end_keeps(rest: Seq<char>, after: Seq<char>) -> (post: Seq<char>)
    requires
        rest.len() > 0,
        !is_whitespace(rest.last()),
    ensures
        trimmed_end(rest + after) == rest + post,
        post.is_prefix_of(after),
    decreases after.len(),
{
    if after.len() > 0 && is_whitespace(after.last()) {
        assert((rest + after).drop_last() =~= rest + after.drop_last());
        lemma_trimmed_end_keeps(rest, after.drop_last())
    } else {
        assert(after.len() == 0 ==> (rest + after).last() == rest.last());
        after
    }
}

/// Whether the first opening brace of `reply` stands at `i` and its last
/// closing brace at `j`.
pub open spec fn is_outer_span(reply: Seq<char>, i: int, j: int) -> bool {
    &&& 0 <= i < reply.len() && reply[i] == '{'
    &&& 0 <= j < reply.len() && reply[j] == '}'
    &&& forall|k: int| 0 <= k < i ==> reply[k] != '{'
    &&& forall|k: int| j < k < reply.len() ==> reply[k] != '}'
}

/// A reply with both braces has exactly one place where its first opening and
/// its last closing brace stand.
proof fn lemma_outer_span(reply: Seq<char>)
    ensures
        reply.contains('{') && reply.contains('}') ==> {
            let i = reply.index_of_first('{')->0;
            let j = reply.index_of_last('}')->0;
            is_outer_span(reply, i, j)
        },
        forall|i: int, j: int| #[trigger]
            is_outer_span(reply, i, j) ==> {
                &&& reply.contains('{') && reply.index_of_first('{') == Some(i)
                &&& reply.contains('}') && reply.index_of_last('}') == Some(j)
            },
        reply.index_of_first('{') is Some <==> reply.contains('{'),
        reply.index_of_last('}') is Some <==> reply.contains('}'),
{
    reply.index_of_first_ensures('{');
    reply.index_of_last_ensures('}');
}

/// The embedded object starts with the first opening brace of the reply and
/// ends with its last closing brace. There is none exactly where one of them
/// is missing, and the error tells which; and the two are crossed exactly
/// where the last closing brace stands before the first opening brace with
/// something between them.
pub proof fn the_embedded_object_lies_between_the_outer_braces(reply: Seq<char>)
    ensures
        embedded(reply) == Err::<Seq<char>, PiErrorView>(PiErrorView::NoObject)
            <==> !reply.contains('{'),
        embedded(reply) == Err::<Seq<char>, PiErrorView>(PiErrorView::Incomplete)
            <==> reply.contains('{') && !reply.contains('}'),
        embedded(reply) is Ok <==> reply.contains('{') && reply.contains('}'),
        forall|i: int, j: int| #[trigger]
            is_outer_span(reply, i, j) ==> {
                &&& embedded(reply) == Ok::<Seq<char>, PiErrorView>(reply.subrange(i, j + 1))
                &&& braces_crossed(reply) <==> j + 1 < i
            },
        braces_crossed(reply) ==> exists|i: int, j: int| #[trigger]
            is_outer_span(reply, i, j) && j + 1 < i,
{
    lemma_outer_span(reply);
}

/// Every replacement was decoded, and every output without one is an error.
/// With `whole` and `part` as `decode` gives them for the trimmed output and
/// for what stands between its outer braces: where the trimmed output decodes,
/// that is the result. Where it does not, the result is an error if a brace is
/// missing, and else what stands between the outer braces decides. Nothing
/// else is ever a replacement.
pub proof fn every_replacement_was_decoded(
    output: Seq<char>,
    whole: Option<Seq<char>>,
    part: Result<Seq<char>, Seq<char>>,
    decode: spec_fn(Seq<char>) -> Result<Seq<char>, Seq<char>>,
)
    requires
        match decode(trimmed(output)) {
            Ok(text) => whole == Some(text),
            Err(_) => whole is None,
        },
        whole is None ==> forall|i: int, j: int| #[trigger]
            is_outer_span(trimmed(output), i, j) ==> part == decode(
                trimmed(output).subrange(i, j + 1),
            ),
    ensures
        ({
            let reply = trimmed(output);
            let result = replacement(output, whole, part);
            &&& decode(reply) matches Ok(text) ==> result == Ok::<Seq<char>, PiErrorView>(text)
            &&& decode(reply) is Err && !reply.contains('{') ==> result == Err::<
                Seq<char>,
                PiErrorView,
            >(PiErrorView::NoObject)
            &&& decode(reply) is Err && reply.contains('{') && !reply.contains('}') ==> result
                == Err::<Seq<char>, PiErrorView>(PiErrorView::Incomplete)
            &&& forall|i: int, j: int|
                decode(reply) is Err && #[trigger] is_outer_span(reply, i, j) ==> {
                    &&& decode(reply.subrange(i, j + 1)) matches Ok(text) ==> result == Ok::<
                        Seq<char>,
                        PiErrorView,
                    >(text)
                    &&& decode(reply.subrange(i, j + 1)) matches Err(e) ==> result == Err::<
                        Seq<char>,
                        PiErrorView,
                    >(PiErrorView::Invalid(e))
                }
            &&& result matches Ok(text) ==> {
                ||| decode(reply) == Ok::<Seq<char>, Seq<char>>(text)
                ||| exists|i: int, j: int| #[trigger]
                    is_outer_span(reply, i, j) && decode(reply.subrange(i, j + 1)) == Ok::<
                        Seq<char>,
                        Seq<char>,
                    >(text)
            }
        }),
{
    lemma_outer_span(trimmed(output));
}

/// The result is never made up: whatever decoders say, a replacement is what
/// the whole reply decodes to, or else what its embedded object decodes to,
/// and then the reply has both braces.
pub proof fn no_replacement_is_made_up(
    output: Seq<char>,
    whole: Option<Seq<char>>,
    part: Result<Seq<char>, Seq<char>>,
)
    ensures
        whole matches Some(text) ==> replacement(output, whole, part) == Ok::<
            Seq<char>,
            PiErrorView,
        >(text),
        whole is None ==> (replacement(output, whole, part) is Ok <==> {
            &&& trimmed(output).contains('{')
            &&& trimmed(output).contains('}')
            &&& part is Ok
        }),
        whole is None ==> (replacement(output, whole, part) matches Ok(text) ==> part == Ok::<
            Seq<char>,
            Seq<char>,
        >(text)),
        whole is None && trimmed(output).contains('{') && trimmed(output).contains('}') ==> (
        part matches Err(e) ==> replacement(output, whole, part) == Err::<Seq<char>, PiErrorView>(
            PiErrorView::Invalid(e),
        )),
        whole is None && !trimmed(output).contains('{') ==> replacement(output, whole, part)
            == Err::<Seq<char>, PiErrorView>(PiErrorView::NoObject),
        whole is None && trimmed(output).contains('{') && !trimmed(output).contains('}')
            ==> replacement(output, whole, part) == Err::<Seq<char>, PiErrorView>(
            PiErrorView::Incomplete,
        ),
{
    lemma_outer_span(trimmed(output));
}

/// White space around an output makes no difference to what it comes to.
pub proof fn surrounding_white_space_makes_no_difference(
    output: Seq<char>,
    whole: Option<Seq<char>>,
    part: Result<Seq<char>, Seq<char>>,
)
    ensures
        replacement(trimmed(output), whole, part) == replacement(output, whole, part),
{
    trimming_again_changes_nothing(output);
}

/// A run that does not succeed comes to an error that keeps its cause,
/// whatever it wrote and whatever that decodes to; a run that succeeds comes
/// to what its standard output comes to as text, and to an error where that is
/// no text.
pub proof fn a_run_comes_to_what_it_put_out(
    end: RunEnd,
    text: Seq<char>,
    whole: Option<Seq<char>>,
    part: Result<Seq<char>, Seq<char>>,
)
    ensures
        ({
            let result = run_replacement(end, whole, part);
            &&& end matches RunEnd::StartFailed(e) ==> result == Err::<Seq<char>, PiErrorView>(
                PiErrorView::Start(e@),
            )
            &&& end matches RunEnd::SendFailed(e) ==> result == Err::<Seq<char>, PiErrorView>(
                PiErrorView::Send(e@),
            )
            &&& end matches RunEnd::TimedOut(e) ==> result == Err::<Seq<char>, PiErrorView>(
                PiErrorView::TimedOut(e@),
            )
            &&& end matches RunEnd::WaitFailed(e) ==> result == Err::<Seq<char>, PiErrorView>(
                PiErrorView::Wait(e@),
            )
            &&& end matches RunEnd::Exited { success, status, stdout, stderr } ==> {
                &&& !success ==> (result matches Err(PiErrorView::Exit { status: s, stderr: t })
                    && s == status@ && t == trimmed(utf8_lossy(stderr@)))
                &&& success && stdout@ == encode_utf8(text) ==> result == replacement(
                    text,
                    whole,
                    part,
                )
                &&& success && !valid_utf8(stdout@) ==> result == Err::<Seq<char>, PiErrorView>(
                    PiErrorView::NotUtf8(utf8_error(stdout@)),
                )
            }
        }),
{
    if end is Exited && end->success && end->stdout@ == encode_utf8(text) {
        successful_output_is_read_back(end, text);
    }
}

} // verus!
