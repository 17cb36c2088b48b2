//! JSON string literals.

use vstd::prelude::*;

verus! {

/// The lower-case hexadecimal digit of `n`.
pub open spec fn hex_digit(n: int) -> char
    recommends
        0 <= n < 16,
{
    if n < 10 {
        (0x30 + n) as char
    } else {
        (0x61 + n - 10) as char
    }
}

/// One character as it stands inside a JSON string literal: quotation mark,
/// reverse solidus and control characters are escaped, with the short form
/// where JSON has one; every other character stands for itself.
pub open spec fn escaped(c: char) -> Seq<char> {
    if c == '"' {
        seq!['\\', '"']
    } else if c == '\\' {
        seq!['\\', '\\']
    } else if c == '\u{8}' {
        seq!['\\', 'b']
    } else if c == '\u{c}' {
        seq!['\\', 'f']
    } else if c == '\n' {
        seq!['\\', 'n']
    } else if c == '\r' {
        seq!['\\', 'r']
    } else if c == '\t' {
        seq!['\\', 't']
    } else if (c as int) < 0x20 {
        seq!['\\', 'u', '0', '0', hex_digit(c as int / 16), hex_digit(c as int % 16)]
    } else {
        seq![c]
    }
}

/// The characters of `s`, each escaped.
pub open spec fn escaped_text(s: Seq<char>) -> Seq<char>
    decreases s.len(),
{
    if s.len() == 0 {
        Seq::empty()
    } else {
        escaped(s[0]) + escaped_text(s.drop_first())
    }
}

/// `s` as a JSON string literal.
pub open spec fn json_string(s: Seq<char>) -> Seq<char> {
    seq!['"'] + escaped_text(s) + seq!['"']
}

/// `serde_json::to_string` on a string slice: the JSON string literal with
/// that content. On a string the call never fails.
#[verifier::external_body]
pub(crate) fn to_json_string(s: &str) -> (r: String)
    ensures
        r@ == json_string(s@),
{
    serde_json::to_string(s).expect("a string can always be serialized")
}

/// No escaped character is the start of another.
proof fn lemma_escaped_prefix(c: char, d: char, x: Seq<char>, y: Seq<char>)
    requires
        escaped(c) + x == escaped(d) + y,
    ensures
        c == d,
        x == y,
{
    let l = escaped(c) + x;
    let r = escaped(d) + y;
    assert(l[0] == escaped(c)[0] && r[0] == escaped(d)[0]);
    if escaped(c).len() > 1 && escaped(d).len() > 1 {
        assert(l[1] == escaped(c)[1] && r[1] == escaped(d)[1]);
    }
    if escaped(c).len() == 6 && escaped(d).len() == 6 {
        assert(l[4] == escaped(c)[4] && r[4] == escaped(d)[4]);
        assert(l[5] == escaped(c)[5] && r[5] == escaped(d)[5]);
    }
    assert(c == d);
    let n = escaped(c).len() as int;
    assert(x =~= l.subrange(n, l.len() as int));
    assert(y =~= r.subrange(n, r.len() as int));
}

/// A JSON string literal shows where it ends: read from the start of a text,
/// it gives back its content and leaves the rest.
pub proof fn json_string_is_self_delimiting(
    a: Seq<char>,
    b: Seq<char>,
    x: Seq<char>,
    y: Seq<char>,
)
    requires
        json_string(a) + x == json_string(b) + y,
    ensures
        a == b,
        x == y,
{
    let l = json_string(a) + x;
    let r = json_string(b) + y;
    let la = escaped_text(a) + (seq!['"'] + x);
    let lb = escaped_text(b) + (seq!['"'] + y);
    assert(l =~= seq!['"'] + la);
    assert(r =~= seq!['"'] + lb);
    assert(la =~= l.subrange(1, l.len() as int));
    assert(lb =~= r.subrange(1, r.len() as int));
    lemma_escaped_text_prefix(a, b, x, y);
}

proof fn lemma_escaped_text_prefix(a: Seq<char>, b: Seq<char>, x: Seq<char>, y: Seq<char>)
    requires
        escaped_text(a) + (seq!['"'] + x) == escaped_text(b) + (seq!['"'] + y),
    ensures
        a == b,
        x == y,
    decreases a.len(),
{
    let l = escaped_text(a) + (seq!['"'] + x);
    let r = escaped_text(b) + (seq!['"'] + y);
    if a.len() == 0 && b.len() == 0 {
        assert(a =~= b);
        assert(x =~= l.subrange(1, l.len() as int));
        assert(y =~= r.subrange(1, r.len() as int));
    } else if a.len() == 0 {
        assert(l[0] == '"');
        assert(r[0] == escaped(b[0])[0]);
    } else if b.len() == 0 {
        assert(r[0] == '"');
        assert(l[0] == escaped(a[0])[0]);
    } else {
        let l1 = escaped_text(a.drop_first()) + (seq!['"'] + x);
        let r1 = escaped_text(b.drop_first()) + (seq!['"'] + y);
        assert(l =~= escaped(a[0]) + l1);
        assert(r =~= escaped(b[0]) + r1);
        lemma_escaped_prefix(a[0], b[0], l1, r1);
        lemma_escaped_text_prefix(a.drop_first(), b.drop_first(), x, y);
        assert(a =~= seq![a[0]] + a.drop_first());
        assert(b =~= seq![b[0]] + b.drop_first());
    }
}

} // verus!
