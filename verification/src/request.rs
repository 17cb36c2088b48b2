//! The request that is sent to `pi`: one JSON object on its standard input.

use crate::json::{json_string, json_string_is_self_delimiting, to_json_string};
use crate::reader::{a_request_is_read_back, read_all, reads_context};
use vstd::prelude::*;

verus! {

/// A request of the user and the replacement that `pi` proposed for it.
#[derive(Debug, PartialEq, Eq)]
pub struct ConversationTurn {
    pub request: String,
    pub replacement: String,
}

/// The content of a [`ConversationTurn`].
pub struct TurnView {
    pub request: Seq<char>,
    pub replacement: Seq<char>,
}

impl View for ConversationTurn {
    type V = TurnView;

    open spec fn view(&self) -> TurnView {
        TurnView { request: self.request@, replacement: self.replacement@ }
    }
}

impl Clone for ConversationTurn {
    fn clone(&self) -> (r: Self)
        ensures
            r == *self,
    {
        ConversationTurn { request: self.request.clone(), replacement: self.replacement.clone() }
    }
}

/// The contents of a list of turns.
pub open spec fn turns_view(turns: Seq<ConversationTurn>) -> Seq<TurnView> {
    turns.map_values(|t: ConversationTurn| t@)
}

/// A copy of `turns`.
pub(crate) fn clone_turns(turns: &Vec<ConversationTurn>) -> (r: Vec<ConversationTurn>)
    ensures
        r@ == turns@,
{
    let mut copy: Vec<ConversationTurn> = Vec::new();
    for i in 0..turns.len()
        invariant
            copy@ == turns@.take(i as int),
    {
        copy.push(turns[i].clone());
    }
    copy
}

/// Everything that `pi` is told about an edit.
#[derive(Debug, PartialEq, Eq)]
pub struct RequestContext {
    pub original: String,
    pub current: String,
    pub language: String,
    pub file: String,
    pub conversation: Vec<ConversationTurn>,
    pub request: String,
}

/// The content of a [`RequestContext`].
pub struct ContextView {
    pub original: Seq<char>,
    pub current: Seq<char>,
    pub language: Seq<char>,
    pub file: Seq<char>,
    pub conversation: Seq<TurnView>,
    pub request: Seq<char>,
}

impl View for RequestContext {
    type V = ContextView;

    open spec fn view(&self) -> ContextView {
        ContextView {
            original: self.original@,
            current: self.current@,
            language: self.language@,
            file: self.file@,
            conversation: turns_view(self.conversation@),
            request: self.request@,
        }
    }
}

/// A turn as a JSON object.
pub open spec fn turn_json(t: TurnView) -> Seq<char> {
    "{\"request\":"@ + json_string(t.request) + ",\"replacement\":"@ + json_string(t.replacement)
        + "}"@
}

/// The turns that follow the first, each after a comma.
pub open spec fn turns_tail_json(turns: Seq<TurnView>) -> Seq<char>
    decreases turns.len(),
{
    if turns.len() == 0 {
        Seq::empty()
    } else {
        ","@ + turn_json(turns[0]) + turns_tail_json(turns.drop_first())
    }
}

/// The elements of a JSON array of turns.
pub open spec fn turns_json(turns: Seq<TurnView>) -> Seq<char> {
    if turns.len() == 0 {
        Seq::empty()
    } else {
        turn_json(turns[0]) + turns_tail_json(turns.drop_first())
    }
}

/// A context as a JSON object without white space between its parts.
pub open spec fn context_json(c: ContextView) -> Seq<char> {
    "{\"original\":"@ + json_string(c.original) + ",\"current\":"@ + json_string(c.current)
        + ",\"language\":"@ + json_string(c.language) + ",\"file\":"@ + json_string(c.file)
        + ",\"conversation\":["@ + turns_json(c.conversation) + "],\"request\":"@ + json_string(
        c.request,
    ) + "}"@
}

/// Appends a turn as a JSON object.
fn push_turn(out: &mut String, turn: &ConversationTurn)
    ensures
        final(out)@ == old(out)@ + turn_json(turn@),
{
    out.append("{\"request\":");
    out.append(to_json_string(turn.request.as_str()).as_str());
    out.append(",\"replacement\":");
    out.append(to_json_string(turn.replacement.as_str()).as_str());
    out.append("}");
    assert(out@ =~= old(out)@ + turn_json(turn@));
}

/// Appends the elements of a JSON array of turns.
fn push_turns(out: &mut String, turns: &Vec<ConversationTurn>)
    ensures
        final(out)@ == old(out)@ + turns_json(turns_view(turns@)),
{
    let ghost start = out@;
    let ghost all = turns_view(turns@);
    assert(all.skip(0) =~= all);
    for i in 0..turns.len()
        invariant
            all == turns_view(turns@),
            start + turns_json(all) == out@ + if i == 0 {
                turns_json(all)
            } else {
                turns_tail_json(all.skip(i as int))
            },
    {
        let ghost rest = all.skip(i as int);
        let ghost before = out@;
        if i > 0 {
            out.append(",");
        }
        push_turn(out, &turns[i]);
        assert(rest[0] == turns@[i as int]@);
        assert(rest.drop_first() =~= all.skip(i + 1));
        assert(start + turns_json(all) =~= out@ + turns_tail_json(all.skip(i + 1)));
    }
    assert(out@ =~= start + turns_json(all));
}

/// The text of a request: `context` as a JSON object.
pub fn build_request(context: RequestContext) -> (input: String)
    ensures
        input@ == context_json(context@),
        read_all(input@) matches Some(value) && reads_context(
            value,
            context.original@,
            context.current@,
            context.language@,
            context.file@,
            turns_view(context.conversation@),
            context.request@,
        ),
{
    let mut out: String = String::new();
    out.append("{\"original\":");
    out.append(to_json_string(context.original.as_str()).as_str());
    out.append(",\"current\":");
    out.append(to_json_string(context.current.as_str()).as_str());
    out.append(",\"language\":");
    out.append(to_json_string(context.language.as_str()).as_str());
    out.append(",\"file\":");
    out.append(to_json_string(context.file.as_str()).as_str());
    out.append(",\"conversation\":[");
    push_turns(&mut out, &context.conversation);
    out.append("],\"request\":");
    out.append(to_json_string(context.request.as_str()).as_str());
    out.append("}");
    assert(out@ =~= context_json(context@));
    proof {
        a_request_is_read_back(context@);
    }
    out
}

proof fn lemma_cancel(p: Seq<char>, x: Seq<char>, y: Seq<char>)
    requires
        p + x == p + y,
    ensures
        x == y,
{
    assert(x =~= (p + x).subrange(p.len() as int, (p + x).len() as int));
    assert(y =~= (p + y).subrange(p.len() as int, (p + y).len() as int));
}

/// A member name, a string and what follows them determine the string and
/// what follows.
proof fn lemma_member(name: Seq<char>, s: Seq<char>, t: Seq<char>, x: Seq<char>, y: Seq<char>)
    requires
        name + (json_string(s) + x) == name + (json_string(t) + y),
    ensures
        s == t,
        x == y,
{
    lemma_cancel(name, json_string(s) + x, json_string(t) + y);
    json_string_is_self_delimiting(s, t, x, y);
}

proof fn lemma_turn(a: TurnView, b: TurnView, x: Seq<char>, y: Seq<char>)
    requires
        turn_json(a) + x == turn_json(b) + y,
    ensures
        a == b,
        x == y,
{
    let n0 = "{\"request\":"@;
    let n1 = ",\"replacement\":"@;
    let a1 = n1 + (json_string(a.replacement) + ("}"@ + x));
    let b1 = n1 + (json_string(b.replacement) + ("}"@ + y));
    assert(turn_json(a) + x =~= n0 + (json_string(a.request) + a1));
    assert(turn_json(b) + y =~= n0 + (json_string(b.request) + b1));
    lemma_member(n0, a.request, b.request, a1, b1);
    lemma_member(n1, a.replacement, b.replacement, "}"@ + x, "}"@ + y);
    lemma_cancel("}"@, x, y);
}

proof fn lemma_turns_tail(a: Seq<TurnView>, b: Seq<TurnView>, x: Seq<char>, y: Seq<char>)
    requires
        turns_tail_json(a) + ("],\"request\":"@ + x) == turns_tail_json(b) + ("],\"request\":"@ + y),
    ensures
        a == b,
        x == y,
    decreases a.len(),
{
    reveal_strlit("],\"request\":");
    reveal_strlit(",");
    let end = "],\"request\":"@;
    let l = turns_tail_json(a) + (end + x);
    let r = turns_tail_json(b) + (end + y);
    if a.len() == 0 && b.len() == 0 {
        assert(l =~= end + x);
        assert(r =~= end + y);
        lemma_cancel(end, x, y);
        assert(a =~= b);
    } else if a.len() == 0 {
        assert(l[0] == ']');
        assert(r[0] == ',');
    } else if b.len() == 0 {
        assert(r[0] == ']');
        assert(l[0] == ',');
    } else {
        let l1 = turns_tail_json(a.drop_first()) + (end + x);
        let r1 = turns_tail_json(b.drop_first()) + (end + y);
        assert(l =~= ","@ + (turn_json(a[0]) + l1));
        assert(r =~= ","@ + (turn_json(b[0]) + r1));
        lemma_cancel(","@, turn_json(a[0]) + l1, turn_json(b[0]) + r1);
        lemma_turn(a[0], b[0], l1, r1);
        lemma_turns_tail(a.drop_first(), b.drop_first(), x, y);
        assert(a =~= seq![a[0]] + a.drop_first());
        assert(b =~= seq![b[0]] + b.drop_first());
    }
}

proof fn lemma_turns(a: Seq<TurnView>, b: Seq<TurnView>, x: Seq<char>, y: Seq<char>)
    requires
        turns_json(a) + ("],\"request\":"@ + x) == turns_json(b) + ("],\"request\":"@ + y),
    ensures
        a == b,
        x == y,
{
    reveal_strlit("],\"request\":");
    reveal_strlit("{\"request\":");
    let end = "],\"request\":"@;
    let l = turns_json(a) + (end + x);
    let r = turns_json(b) + (end + y);
    if a.len() == 0 && b.len() == 0 {
        lemma_turns_tail(a, b, x, y);
    } else if a.len() == 0 {
        assert(l[0] == ']');
        assert(r[0] == '{');
    } else if b.len() == 0 {
        assert(r[0] == ']');
        assert(l[0] == '{');
    } else {
        let l1 = turns_tail_json(a.drop_first()) + (end + x);
        let r1 = turns_tail_json(b.drop_first()) + (end + y);
        assert(l =~= turn_json(a[0]) + l1);
        assert(r =~= turn_json(b[0]) + r1);
        lemma_turn(a[0], b[0], l1, r1);
        lemma_turns_tail(a.drop_first(), b.drop_first(), x, y);
        assert(a =~= seq![a[0]] + a.drop_first());
        assert(b =~= seq![b[0]] + b.drop_first());
    }
}

/// [`context_json`] with its parts grouped from the right.
pub open spec fn context_json_from_right(c: ContextView) -> Seq<char> {
    "{\"original\":"@ + (json_string(c.original) + (",\"current\":"@ + (json_string(c.current) + (
    ",\"language\":"@ + (json_string(c.language) + (",\"file\":"@ + (json_string(c.file) + (
    ",\"conversation\":["@ + (turns_json(c.conversation) + ("],\"request\":"@ + (json_string(
        c.request,
    ) + "}"@)))))))))))
}

pub(crate) proof fn lemma_regroup(p: Seq<char>, q: Seq<char>, s: Seq<char>)
    ensures
        p + q + s == p + (q + s),
{
    assert(p + q + s =~= p + (q + s));
}

pub(crate) proof fn lemma_context_json_from_right(c: ContextView)
    ensures
        context_json(c) == context_json_from_right(c),
{
    let p0 = "{\"original\":"@;
    let q0 = json_string(c.original);
    let p1 = p0 + q0;
    let q1 = ",\"current\":"@;
    let p2 = p1 + q1;
    let q2 = json_string(c.current);
    let p3 = p2 + q2;
    let q3 = ",\"language\":"@;
    let p4 = p3 + q3;
    let q4 = json_string(c.language);
    let p5 = p4 + q4;
    let q5 = ",\"file\":"@;
    let p6 = p5 + q5;
    let q6 = json_string(c.file);
    let p7 = p6 + q6;
    let q7 = ",\"conversation\":["@;
    let p8 = p7 + q7;
    let q8 = turns_json(c.conversation);
    let p9 = p8 + q8;
    let q9 = "],\"request\":"@;
    let p10 = p9 + q9;
    let q10 = json_string(c.request);
    let s10 = q10 + "}"@;
    let s9 = q9 + s10;
    let s8 = q8 + s9;
    let s7 = q7 + s8;
    let s6 = q6 + s7;
    let s5 = q5 + s6;
    let s4 = q4 + s5;
    let s3 = q3 + s4;
    let s2 = q2 + s3;
    let s1 = q1 + s2;
    lemma_regroup(p10, q10, "}"@);
    lemma_regroup(p9, q9, s10);
    lemma_regroup(p8, q8, s9);
    lemma_regroup(p7, q7, s8);
    lemma_regroup(p6, q6, s7);
    lemma_regroup(p5, q5, s6);
    lemma_regroup(p4, q4, s5);
    lemma_regroup(p3, q3, s4);
    lemma_regroup(p2, q2, s3);
    lemma_regroup(p1, q1, s2);
    lemma_regroup(p0, q0, s1);
}

/// A request loses nothing: two contexts with the same request text are the
/// same, field for field and turn for turn.
pub proof fn request_determines_context(a: ContextView, b: ContextView)
    requires
        context_json(a) == context_json(b),
    ensures
        a == b,
{
    let n0 = "{\"original\":"@;
    let n1 = ",\"current\":"@;
    let n2 = ",\"language\":"@;
    let n3 = ",\"file\":"@;
    let n4 = ",\"conversation\":["@;
    let n5 = "],\"request\":"@;
    let a5 = json_string(a.request) + "}"@;
    let b5 = json_string(b.request) + "}"@;
    let a4 = n4 + (turns_json(a.conversation) + (n5 + a5));
    let b4 = n4 + (turns_json(b.conversation) + (n5 + b5));
    let a3 = n3 + (json_string(a.file) + a4);
    let b3 = n3 + (json_string(b.file) + b4);
    let a2 = n2 + (json_string(a.language) + a3);
    let b2 = n2 + (json_string(b.language) + b3);
    let a1 = n1 + (json_string(a.current) + a2);
    let b1 = n1 + (json_string(b.current) + b2);
    lemma_context_json_from_right(a);
    lemma_context_json_from_right(b);
    lemma_member(n0, a.original, b.original, a1, b1);
    lemma_member(n1, a.current, b.current, a2, b2);
    lemma_member(n2, a.language, b.language, a3, b3);
    lemma_member(n3, a.file, b.file, a4, b4);
    lemma_cancel(
        n4,
        turns_json(a.conversation) + (n5 + a5),
        turns_json(b.conversation) + (n5 + b5),
    );
    lemma_turns(a.conversation, b.conversation, a5, b5);
    json_string_is_self_delimiting(a.request, b.request, "}"@, "}"@);
}

/// The contents of turns and contexts are what they hold, turn for turn.
pub proof fn a_context_is_seen_as_it_is(c: RequestContext)
    ensures
        c@.original == c.original@,
        c@.current == c.current@,
        c@.language == c.language@,
        c@.file == c.file@,
        c@.request == c.request@,
        c@.conversation.len() == c.conversation@.len(),
        forall|i: int|
            0 <= i < c.conversation@.len() ==> {
                &&& (#[trigger] c@.conversation[i]).request == c.conversation@[i].request@
                &&& c@.conversation[i].replacement == c.conversation@[i].replacement@
            },
{
}

} // verus!
