//! The token-file and request-body format: a flat JSON object whose member
//! values are strings or `null`.
//!
//! The writer side produces canonical text: no whitespace, members in the
//! order given, strings escaped minimally (`"` and `\` get a backslash; all
//! other characters stand for themselves). The reader side is more liberal:
//! it allows whitespace between tokens, and reads over member values that
//! are not strings (numbers, words, nested objects or arrays), recording
//! them as absent. Reading back anything the writer produced returns
//! exactly the written members; see [`lemma_object_round_trip`].

use vstd::prelude::*;
use vstd::string::StrSliceExecFns;
use vstd::string::StringExecFns;
use crate::text::{chars_of, chars_to_string, push_char, str_eq};

verus! {

/// A member of an object: a key and either a string value or an absent one
/// (`null`, or a value of another JSON kind).
pub type SpecPair = (Seq<char>, Option<Seq<char>>);

// ---------------------------------------------------------------------------
// The canonical encoding.
// ---------------------------------------------------------------------------

/// How one character stands inside an encoded string.
pub open spec fn escaped_char(c: char) -> Seq<char> {
    if c == '"' || c == '\\' {
        seq!['\\', c]
    } else {
        seq![c]
    }
}

/// The escaped form of a string's characters.
pub open spec fn escape(s: Seq<char>) -> Seq<char>
    decreases s.len(),
{
    if s.len() == 0 {
        Seq::empty()
    } else {
        escaped_char(s[0]) + escape(s.drop_first())
    }
}

/// An encoded string value: quoted and escaped.
pub open spec fn enc_string(s: Seq<char>) -> Seq<char> {
    seq!['"'] + escape(s) + seq!['"']
}

/// An encoded member value: a string, or the word `null`.
pub open spec fn enc_value(v: Option<Seq<char>>) -> Seq<char> {
    match v {
        Some(s) => enc_string(s),
        None => seq!['n', 'u', 'l', 'l'],
    }
}

/// The members of an object, separated by commas.
pub open spec fn enc_members(ps: Seq<SpecPair>) -> Seq<char>
    decreases ps.len(),
{
    if ps.len() == 0 {
        Seq::empty()
    } else if ps.len() == 1 {
        enc_string(ps[0].0) + seq![':'] + enc_value(ps[0].1)
    } else {
        enc_string(ps[0].0) + seq![':'] + enc_value(ps[0].1) + seq![','] + enc_members(
            ps.drop_first(),
        )
    }
}

/// A whole encoded object.
pub open spec fn enc_object(ps: Seq<SpecPair>) -> Seq<char> {
    seq!['{'] + enc_members(ps) + seq!['}']
}

/// Escaping a string one character longer appends that character's escaped
/// form.
pub proof fn lemma_escape_snoc(s: Seq<char>, c: char)
    ensures
        escape(s.push(c)) == escape(s) + escaped_char(c),
    decreases s.len(),
{
    assert(s.push(c)[0] == if s.len() == 0 { c } else { s[0] });
    if s.len() == 0 {
        assert(s.push(c).drop_first() =~= Seq::<char>::empty());
        assert(escape(s.push(c)) == escaped_char(c) + escape(Seq::<char>::empty()));
        assert(escape(s.push(c)) =~= escaped_char(c));
        assert(escape(s) + escaped_char(c) =~= escaped_char(c));
    } else {
        assert(s.push(c).drop_first() =~= s.drop_first().push(c));
        lemma_escape_snoc(s.drop_first(), c);
        assert(escape(s.push(c)) =~= escape(s) + escaped_char(c));
    }
}

/// Encoding the concatenation of two non-empty member lists joins the two
/// encodings with a comma.
pub proof fn lemma_enc_members_app(a: Seq<SpecPair>, b: Seq<SpecPair>)
    requires
        a.len() > 0,
        b.len() > 0,
    ensures
        enc_members(a + b) == enc_members(a) + seq![','] + enc_members(b),
    decreases a.len(),
{
    if a.len() == 1 {
        assert((a + b).drop_first() =~= b);
        assert((a + b)[0] == a[0]);
        assert(enc_members(a + b) =~= enc_members(a) + seq![','] + enc_members(b));
    } else {
        assert((a + b).drop_first() =~= a.drop_first() + b);
        assert((a + b)[0] == a[0]);
        lemma_enc_members_app(a.drop_first(), b);
        assert(enc_members(a + b) =~= enc_members(a) + seq![','] + enc_members(b));
    }
}

// ---------------------------------------------------------------------------
// The reader, at the specification level. Each function consumes a prefix of
// its input and hands back what remains.
// ---------------------------------------------------------------------------

/// Whitespace between tokens.
pub open spec fn is_ws(c: char) -> bool {
    c == ' ' || c == '\t' || c == '\n' || c == '\r'
}

/// Drops leading whitespace.
pub open spec fn skip_ws(s: Seq<char>) -> Seq<char>
    decreases s.len(),
{
    if s.len() > 0 && is_ws(s[0]) {
        skip_ws(s.drop_first())
    } else {
        s
    }
}

/// Reads a string's characters up to its closing quote. The opening quote is
/// already consumed. Only `\"` and `\\` escapes are understood; any other
/// character stands for itself.
pub open spec fn parse_string_body(s: Seq<char>) -> Option<(Seq<char>, Seq<char>)>
    decreases s.len(),
{
    if s.len() == 0 {
        None
    } else if s[0] == '"' {
        Some((Seq::empty(), s.drop_first()))
    } else if s[0] == '\\' {
        if s.len() >= 2 && (s[1] == '"' || s[1] == '\\') {
            match parse_string_body(s.skip(2)) {
                Some((t, rest)) => Some((seq![s[1]] + t, rest)),
                None => None,
            }
        } else {
            None
        }
    } else {
        match parse_string_body(s.drop_first()) {
            Some((t, rest)) => Some((seq![s[0]] + t, rest)),
            None => None,
        }
    }
}

/// A character that may stand in a number or a bare word (`null`, `true`,
/// `false`).
pub open spec fn is_scalar_char(c: char) -> bool {
    ('0' <= c && c <= '9') || ('a' <= c && c <= 'z') || ('A' <= c && c <= 'Z') || c == '-' || c
        == '+' || c == '.'
}

/// Drops a run of number or word characters.
pub open spec fn skip_scalar(s: Seq<char>) -> Seq<char>
    decreases s.len(),
{
    if s.len() > 0 && is_scalar_char(s[0]) {
        skip_scalar(s.drop_first())
    } else {
        s
    }
}

/// Reads over the remainder of a nested object or array, by bracket depth.
/// `depth` counts the brackets still open; `in_str` and `esc` track whether
/// the position stands inside a string literal, or right after a backslash.
pub open spec fn skip_composite(s: Seq<char>, depth: nat, in_str: bool, esc: bool) -> Option<
    Seq<char>,
>
    decreases s.len(),
{
    if depth == 0 && !in_str {
        Some(s)
    } else if s.len() == 0 {
        None
    } else {
        let c = s[0];
        let rest = s.drop_first();
        if in_str {
            if esc {
                skip_composite(rest, depth, true, false)
            } else if c == '\\' {
                skip_composite(rest, depth, true, true)
            } else if c == '"' {
                skip_composite(rest, depth, false, false)
            } else {
                skip_composite(rest, depth, true, false)
            }
        } else if c == '{' || c == '[' {
            skip_composite(rest, depth + 1, false, false)
        } else if c == '}' || c == ']' {
            skip_composite(rest, (depth - 1) as nat, false, false)
        } else if c == '"' {
            skip_composite(rest, depth, true, false)
        } else {
            skip_composite(rest, depth, false, false)
        }
    }
}

/// Reads one member value: a string gives its characters; `null`, a number,
/// a word, or a nested structure is read over and recorded as absent.
pub open spec fn parse_value(s: Seq<char>) -> Option<(Option<Seq<char>>, Seq<char>)> {
    let t = skip_ws(s);
    if t.len() == 0 {
        None
    } else if t[0] == '"' {
        match parse_string_body(t.drop_first()) {
            Some((v, rest)) => Some((Some(v), rest)),
            None => None,
        }
    } else if t[0] == '{' || t[0] == '[' {
        match skip_composite(t.drop_first(), 1, false, false) {
            Some(rest) => Some((None, rest)),
            None => None,
        }
    } else if is_scalar_char(t[0]) {
        Some((None, skip_scalar(t)))
    } else {
        None
    }
}

/// Dropping whitespace never lengthens the input.
pub proof fn lemma_skip_ws_len(s: Seq<char>)
    ensures
        skip_ws(s).len() <= s.len(),
    decreases s.len(),
{
    if s.len() > 0 && is_ws(s[0]) {
        lemma_skip_ws_len(s.drop_first());
    }
}

/// Reading a string consumes at least its closing quote.
pub proof fn lemma_parse_string_body_len(s: Seq<char>)
    ensures
        parse_string_body(s) matches Some((v, rest)) ==> rest.len() < s.len(),
    decreases s.len(),
{
    if s.len() == 0 {
    } else if s[0] == '"' {
    } else if s[0] == '\\' {
        if s.len() >= 2 && (s[1] == '"' || s[1] == '\\') {
            lemma_parse_string_body_len(s.skip(2));
        }
    } else {
        lemma_parse_string_body_len(s.drop_first());
    }
}

/// Reading over a scalar never lengthens the input.
pub proof fn lemma_skip_scalar_len(s: Seq<char>)
    ensures
        skip_scalar(s).len() <= s.len(),
    decreases s.len(),
{
    if s.len() > 0 && is_scalar_char(s[0]) {
        lemma_skip_scalar_len(s.drop_first());
    }
}

/// Reading over a nested structure never lengthens the input.
pub proof fn lemma_skip_composite_len(s: Seq<char>, depth: nat, in_str: bool, esc: bool)
    ensures
        skip_composite(s, depth, in_str, esc) matches Some(rest) ==> rest.len() <= s.len(),
    decreases s.len(),
{
    if depth == 0 && !in_str {
    } else if s.len() == 0 {
    } else {
        let c = s[0];
        let rest = s.drop_first();
        if in_str {
            if esc {
                lemma_skip_composite_len(rest, depth, true, false);
            } else if c == '\\' {
                lemma_skip_composite_len(rest, depth, true, true);
            } else if c == '"' {
                lemma_skip_composite_len(rest, depth, false, false);
            } else {
                lemma_skip_composite_len(rest, depth, true, false);
            }
        } else if c == '{' || c == '[' {
            lemma_skip_composite_len(rest, depth + 1, false, false);
        } else if c == '}' || c == ']' {
            lemma_skip_composite_len(rest, (depth - 1) as nat, false, false);
        } else if c == '"' {
            lemma_skip_composite_len(rest, depth, true, false);
        } else {
            lemma_skip_composite_len(rest, depth, false, false);
        }
    }
}

/// Reading a member value consumes at least one character.
pub proof fn lemma_parse_value_len(s: Seq<char>)
    ensures
        parse_value(s) matches Some((v, rest)) ==> rest.len() < s.len(),
{
    lemma_skip_ws_len(s);
    let t = skip_ws(s);
    if t.len() == 0 {
    } else if t[0] == '"' {
        lemma_parse_string_body_len(t.drop_first());
    } else if t[0] == '{' || t[0] == '[' {
        lemma_skip_composite_len(t.drop_first(), 1, false, false);
    } else if is_scalar_char(t[0]) {
        lemma_skip_scalar_len(t.drop_first());
    }
}

/// Reads the members of an object, placed right after its opening `{` (or a
/// separating comma), through the closing `}`.
pub open spec fn parse_members(s: Seq<char>) -> Option<(Seq<SpecPair>, Seq<char>)>
    decreases s.len(),
    via parse_members_dec
{
    let t = skip_ws(s);
    if t.len() > 0 && t[0] == '"' {
        match parse_string_body(t.drop_first()) {
            Some((k, r1)) => {
                let r2 = skip_ws(r1);
                if r2.len() > 0 && r2[0] == ':' {
                    match parse_value(r2.drop_first()) {
                        Some((v, r3)) => {
                            let r4 = skip_ws(r3);
                            if r4.len() > 0 && r4[0] == ',' {
                                match parse_members(r4.drop_first()) {
                                    Some((ps, r5)) => Some((seq![(k, v)] + ps, r5)),
                                    None => None,
                                }
                            } else if r4.len() > 0 && r4[0] == '}' {
                                Some((seq![(k, v)], r4.drop_first()))
                            } else {
                                None
                            }
                        },
                        None => None,
                    }
                } else {
                    None
                }
            },
            None => None,
        }
    } else {
        None
    }
}

#[via_fn]
proof fn parse_members_dec(s: Seq<char>) {
    lemma_skip_ws_len(s);
    let t = skip_ws(s);
    if t.len() > 0 && t[0] == '"' {
        lemma_parse_string_body_len(t.drop_first());
        match parse_string_body(t.drop_first()) {
            Some((k, r1)) => {
                lemma_skip_ws_len(r1);
                let r2 = skip_ws(r1);
                if r2.len() > 0 && r2[0] == ':' {
                    lemma_parse_value_len(r2.drop_first());
                    match parse_value(r2.drop_first()) {
                        Some((v, r3)) => {
                            lemma_skip_ws_len(r3);
                        },
                        None => {},
                    }
                }
            },
            None => {},
        }
    }
}

/// Reads a whole object, allowing whitespace around it, and demands that
/// nothing follows it.
pub open spec fn parse_object(s: Seq<char>) -> Option<Seq<SpecPair>> {
    let t = skip_ws(s);
    if t.len() > 0 && t[0] == '{' {
        let u = skip_ws(t.drop_first());
        if u.len() > 0 && u[0] == '}' {
            if skip_ws(u.drop_first()).len() == 0 {
                Some(Seq::empty())
            } else {
                None
            }
        } else {
            match parse_members(t.drop_first()) {
                Some((ps, rest)) => if skip_ws(rest).len() == 0 {
                    Some(ps)
                } else {
                    None
                },
                None => None,
            }
        }
    } else {
        None
    }
}

/// The first binding of `key` among the members, if any.
pub open spec fn find_value(ps: Seq<SpecPair>, key: Seq<char>) -> Option<Option<Seq<char>>>
    decreases ps.len(),
{
    if ps.len() == 0 {
        None
    } else if ps[0].0 == key {
        Some(ps[0].1)
    } else {
        find_value(ps.drop_first(), key)
    }
}

/// The first binding of `key` that is a string, with a missing member, a
/// `null` and a non-string member all read as absent.
pub open spec fn spec_lookup_string(ps: Seq<SpecPair>, key: Seq<char>) -> Option<Seq<char>> {
    match find_value(ps, key) {
        Some(Some(v)) => Some(v),
        _ => None,
    }
}

// ---------------------------------------------------------------------------
// Round trip: reading back an encoded object returns its members exactly.
// ---------------------------------------------------------------------------

/// Reading an encoded string finds the original characters and stops right
/// after the closing quote.
pub proof fn lemma_parse_string_body_enc(v: Seq<char>, rest: Seq<char>)
    ensures
        parse_string_body(escape(v) + seq!['"'] + rest) == Some((v, rest)),
    decreases v.len(),
{
    let s = escape(v) + seq!['"'] + rest;
    if v.len() == 0 {
        assert(s =~= seq!['"'] + rest);
        assert(s[0] == '"');
        assert(s.drop_first() =~= rest);
        assert(Seq::<char>::empty() =~= v);
    } else {
        let c = v[0];
        let tail = escape(v.drop_first()) + seq!['"'] + rest;
        lemma_parse_string_body_enc(v.drop_first(), rest);
        if c == '"' || c == '\\' {
            assert(s =~= seq!['\\', c] + tail);
            assert(s[0] == '\\');
            assert(s[1] == c);
            assert(s.len() >= 2);
            assert(s.skip(2) =~= tail);
            assert(seq![c] + v.drop_first() =~= v);
        } else {
            assert(s =~= seq![c] + tail);
            assert(s[0] == c);
            assert(s.drop_first() =~= tail);
            assert(seq![c] + v.drop_first() =~= v);
        }
    }
}

/// Reading an encoded member value finds the original value, when what
/// follows opens with a comma or a closing brace.
pub proof fn lemma_parse_value_enc(v: Option<Seq<char>>, rest: Seq<char>)
    requires
        rest.len() > 0,
        rest[0] == ',' || rest[0] == '}',
    ensures
        parse_value(enc_value(v) + rest) == Some((v, rest)),
{
    let s = enc_value(v) + rest;
    match v {
        Some(x) => {
            assert(s =~= seq!['"'] + (escape(x) + seq!['"'] + rest));
            assert(s[0] == '"');
            assert(!is_ws(s[0]));
            assert(skip_ws(s) == s);
            assert(s.drop_first() =~= escape(x) + seq!['"'] + rest);
            lemma_parse_string_body_enc(x, rest);
        },
        None => {
            assert(s =~= seq!['n', 'u', 'l', 'l'] + rest);
            assert(s[0] == 'n');
            assert(!is_ws(s[0]));
            assert(skip_ws(s) == s);
            assert(is_scalar_char('n'));
            let s1 = seq!['u', 'l', 'l'] + rest;
            let s2 = seq!['l', 'l'] + rest;
            let s3 = seq!['l'] + rest;
            assert(s.drop_first() =~= s1);
            assert(s1.drop_first() =~= s2);
            assert(s2.drop_first() =~= s3);
            assert(s3.drop_first() =~= rest);
            assert(s1[0] == 'u' && s2[0] == 'l' && s3[0] == 'l');
            assert(is_scalar_char('u') && is_scalar_char('l'));
            assert(!is_scalar_char(rest[0]));
            assert(skip_scalar(rest) == rest);
            assert(skip_scalar(s3) == rest);
            assert(skip_scalar(s2) == rest);
            assert(skip_scalar(s1) == rest);
            assert(skip_scalar(s) == rest);
        },
    }
}

/// Reading encoded members, placed before the object's closing brace, finds
/// the original members.
pub proof fn lemma_parse_members_enc(ps: Seq<SpecPair>, rest: Seq<char>)
    requires
        ps.len() > 0,
    ensures
        parse_members(enc_members(ps) + seq!['}'] + rest) == Some((ps, rest)),
    decreases ps.len(),
{
    let s = enc_members(ps) + seq!['}'] + rest;
    let k = ps[0].0;
    let v = ps[0].1;
    if ps.len() == 1 {
        let tail1 = seq![':'] + enc_value(v) + (seq!['}'] + rest);
        assert(s =~= seq!['"'] + (escape(k) + seq!['"'] + tail1));
        assert(s[0] == '"');
        assert(!is_ws(s[0]));
        assert(skip_ws(s) == s);
        assert(s.drop_first() =~= escape(k) + seq!['"'] + tail1);
        lemma_parse_string_body_enc(k, tail1);
        assert(tail1[0] == ':');
        assert(!is_ws(tail1[0]));
        assert(skip_ws(tail1) == tail1);
        assert(tail1.drop_first() =~= enc_value(v) + (seq!['}'] + rest));
        let rest2 = seq!['}'] + rest;
        assert(rest2[0] == '}');
        lemma_parse_value_enc(v, rest2);
        assert(!is_ws(rest2[0]));
        assert(skip_ws(rest2) == rest2);
        assert(rest2.drop_first() =~= rest);
        assert((k, v) == ps[0]);
        assert(seq![(k, v)] =~= ps);
    } else {
        let inner = enc_members(ps.drop_first()) + seq!['}'] + rest;
        let rest2 = seq![','] + inner;
        let tail1 = seq![':'] + enc_value(v) + rest2;
        assert(enc_members(ps) =~= enc_string(k) + seq![':'] + enc_value(v) + seq![',']
            + enc_members(ps.drop_first()));
        assert(s =~= seq!['"'] + (escape(k) + seq!['"'] + tail1));
        assert(s[0] == '"');
        assert(!is_ws(s[0]));
        assert(skip_ws(s) == s);
        assert(s.drop_first() =~= escape(k) + seq!['"'] + tail1);
        lemma_parse_string_body_enc(k, tail1);
        assert(tail1[0] == ':');
        assert(!is_ws(tail1[0]));
        assert(skip_ws(tail1) == tail1);
        assert(tail1.drop_first() =~= enc_value(v) + rest2);
        assert(rest2[0] == ',');
        lemma_parse_value_enc(v, rest2);
        assert(!is_ws(rest2[0]));
        assert(skip_ws(rest2) == rest2);
        assert(rest2.drop_first() =~= inner);
        lemma_parse_members_enc(ps.drop_first(), rest);
        assert((k, v) == ps[0]);
        assert(seq![(k, v)] + ps.drop_first() =~= ps);
    }
}

/// Reading back an encoded object returns exactly the members that were
/// written: the token files and request bodies of this crate round-trip.
pub proof fn lemma_object_round_trip(ps: Seq<SpecPair>)
    ensures
        parse_object(enc_object(ps)) == Some(ps),
{
    let s = enc_object(ps);
    assert(s =~= seq!['{'] + (enc_members(ps) + seq!['}']));
    assert(s[0] == '{');
    assert(!is_ws(s[0]));
    assert(skip_ws(s) == s);
    let body = enc_members(ps) + seq!['}'];
    assert(s.drop_first() =~= body);
    if ps.len() == 0 {
        assert(body =~= seq!['}']);
        assert(body[0] == '}');
        assert(!is_ws(body[0]));
        assert(skip_ws(body) == body);
        assert(body.drop_first() =~= Seq::<char>::empty());
        assert(skip_ws(Seq::<char>::empty()).len() == 0);
    } else {
        assert(enc_members(ps)[0] == '"') by {
            let m = enc_members(ps);
            assert(m =~= seq!['"'] + (escape(ps[0].0) + seq!['"'] + m.skip(
                enc_string(ps[0].0).len() as int,
            )));
        }
        assert(body[0] == '"');
        assert(!is_ws(body[0]));
        assert(skip_ws(body) == body);
        assert(body =~= enc_members(ps) + seq!['}'] + Seq::<char>::empty());
        lemma_parse_members_enc(ps, Seq::<char>::empty());
        assert(skip_ws(Seq::<char>::empty()).len() == 0);
    }
}

// ---------------------------------------------------------------------------
// The executable encoder.
// ---------------------------------------------------------------------------

/// Appends the encoded (quoted, escaped) form of `s` to `out`.
pub fn append_json_string(out: &mut String, s: &str)
    ensures
        final(out)@ == old(out)@ + enc_string(s@),
{
    push_char(out, '"');
    let cs = chars_of(s);
    let mut i: usize = 0;
    while i < cs.len()
        invariant
            cs@ == s@,
            i <= cs@.len(),
            out@ == old(out)@ + seq!['"'] + escape(s@.subrange(0, i as int)),
        decreases cs@.len() - i,
    {
        let c = cs[i];
        if c == '"' || c == '\\' {
            push_char(out, '\\');
        }
        push_char(out, c);
        proof {
            lemma_escape_snoc(s@.subrange(0, i as int), s@[i as int]);
            assert(s@.subrange(0, i as int).push(s@[i as int]) =~= s@.subrange(0, i as int + 1));
            assert(out@ =~= old(out)@ + seq!['"'] + escape(s@.subrange(0, i as int + 1)));
        }
        i = i + 1;
    }
    push_char(out, '"');
    proof {
        assert(s@.subrange(0, s@.len() as int) =~= s@);
        assert(out@ =~= old(out)@ + enc_string(s@));
    }
}

/// The view of an optional string.
pub open spec fn opt_str_view(o: Option<String>) -> Option<Seq<char>> {
    match o {
        Some(s) => Some(s@),
        None => None,
    }
}

/// The members of `ps`, viewed at the specification level.
pub open spec fn pair_seq_view(ps: Seq<(String, Option<String>)>) -> Seq<SpecPair> {
    ps.map(|i: int, p: (String, Option<String>)| (p.0@, opt_str_view(p.1)))
}

/// Encodes a member list as one canonical object.
pub fn encode_object(pairs: &Vec<(String, Option<String>)>) -> (r: String)
    ensures
        r@ == enc_object(pair_seq_view(pairs@)),
{
    let ghost ps = pair_seq_view(pairs@);
    let mut out = String::new();
    push_char(&mut out, '{');
    let mut i: usize = 0;
    while i < pairs.len()
        invariant
            ps == pair_seq_view(pairs@),
            ps.len() == pairs@.len(),
            i <= pairs@.len(),
            out@ == seq!['{'] + enc_members(ps.subrange(0, i as int)),
        decreases pairs@.len() - i,
    {
        if i > 0 {
            push_char(&mut out, ',');
        }
        append_json_string(&mut out, pairs[i].0.as_str());
        push_char(&mut out, ':');
        match &pairs[i].1 {
            Some(v) => {
                append_json_string(&mut out, v.as_str());
            },
            None => {
                out.append("null");
            },
        }
        proof {
            let prev = ps.subrange(0, i as int);
            let cur = ps.subrange(0, i as int + 1);
            let one = seq![ps[i as int]];
            assert(cur =~= prev + one);
            assert(enc_members(one) =~= enc_string(ps[i as int].0) + seq![':'] + enc_value(
                ps[i as int].1,
            ));
            if i > 0 {
                lemma_enc_members_app(prev, one);
            }
            assert("null"@ =~= seq!['n', 'u', 'l', 'l']) by {
                reveal_strlit("null");
            }
            assert(out@ =~= seq!['{'] + enc_members(cur));
        }
        i = i + 1;
    }
    push_char(&mut out, '}');
    proof {
        assert(ps.subrange(0, ps.len() as int) =~= ps);
        assert(out@ =~= enc_object(ps));
    }
    out
}

// ---------------------------------------------------------------------------
// The executable reader. Each function works at a character index `i` of the
// input and matches the specification reader applied to the suffix at `i`.
// ---------------------------------------------------------------------------

fn is_ws_char(c: char) -> (r: bool)
    ensures
        r == is_ws(c),
{
    c == ' ' || c == '\t' || c == '\n' || c == '\r'
}

fn is_scalar(c: char) -> (r: bool)
    ensures
        r == is_scalar_char(c),
{
    ('0' <= c && c <= '9') || ('a' <= c && c <= 'z') || ('A' <= c && c <= 'Z') || c == '-' || c
        == '+' || c == '.'
}

fn skip_ws_at(cs: &Vec<char>, i: usize) -> (j: usize)
    requires
        i <= cs@.len(),
    ensures
        i <= j <= cs@.len(),
        skip_ws(cs@.skip(i as int)) == cs@.skip(j as int),
{
    let mut j = i;
    while j < cs.len() && is_ws_char(cs[j])
        invariant
            i <= j <= cs@.len(),
            skip_ws(cs@.skip(i as int)) == skip_ws(cs@.skip(j as int)),
        decreases cs@.len() - j,
    {
        proof {
            assert(cs@.skip(j as int)[0] == cs@[j as int]);
            assert(cs@.skip(j as int).drop_first() =~= cs@.skip(j as int + 1));
        }
        j = j + 1;
    }
    proof {
        if j < cs@.len() {
            assert(cs@.skip(j as int)[0] == cs@[j as int]);
        }
        assert(skip_ws(cs@.skip(j as int)) == cs@.skip(j as int));
    }
    j
}

fn parse_string_body_at(cs: &Vec<char>, i: usize) -> (r: Option<(Vec<char>, usize)>)
    requires
        i <= cs@.len(),
    ensures
        (match r {
            Some((v, j)) => i <= j <= cs@.len() && parse_string_body(cs@.skip(i as int)) == Some(
                (v@, cs@.skip(j as int)),
            ),
            None => parse_string_body(cs@.skip(i as int)) is None,
        }),
{
    let mut acc: Vec<char> = Vec::new();
    let mut j = i;
    loop
        invariant
            i <= j <= cs@.len(),
            (parse_string_body(cs@.skip(i as int)) == match parse_string_body(
                cs@.skip(j as int),
            ) {
                Some((t, rest)) => Some((acc@ + t, rest)),
                None => None::<(Seq<char>, Seq<char>)>,
            }),
        decreases cs@.len() - j,
    {
        let ghost s_j = cs@.skip(j as int);
        if j >= cs.len() {
            return None;
        }
        proof {
            assert(s_j[0] == cs@[j as int]);
        }
        let c = cs[j];
        if c == '"' {
            proof {
                assert(acc@ + Seq::<char>::empty() =~= acc@);
                assert(s_j.drop_first() =~= cs@.skip(j as int + 1));
            }
            return Some((acc, j + 1));
        } else if c == '\\' {
            if j + 1 < cs.len() && (cs[j + 1] == '"' || cs[j + 1] == '\\') {
                let c2 = cs[j + 1];
                proof {
                    assert(s_j.len() >= 2);
                    assert(s_j[1] == cs@[j as int + 1]);
                    assert(s_j.skip(2) =~= cs@.skip(j as int + 2));
                    match parse_string_body(cs@.skip(j as int + 2)) {
                        Some((t, rest)) => {
                            assert(acc@ + (seq![c2] + t) =~= acc@.push(c2) + t);
                        },
                        None => {},
                    }
                }
                acc.push(c2);
                j = j + 2;
            } else {
                proof {
                    if j + 1 < cs@.len() {
                        assert(s_j[1] == cs@[j as int + 1]);
                    } else {
                        assert(s_j.len() < 2);
                    }
                }
                return None;
            }
        } else {
            proof {
                assert(s_j.drop_first() =~= cs@.skip(j as int + 1));
                match parse_string_body(cs@.skip(j as int + 1)) {
                    Some((t, rest)) => {
                        assert(acc@ + (seq![c] + t) =~= acc@.push(c) + t);
                    },
                    None => {},
                }
            }
            acc.push(c);
            j = j + 1;
        }
    }
}

fn skip_composite_at(cs: &Vec<char>, i: usize) -> (r: Option<usize>)
    requires
        1 <= i <= cs@.len(),
    ensures
        (match r {
            Some(j) => i <= j <= cs@.len() && skip_composite(cs@.skip(i as int), 1, false, false)
                == Some(cs@.skip(j as int)),
            None => skip_composite(cs@.skip(i as int), 1, false, false) is None,
        }),
{
    let mut depth: usize = 1;
    let mut in_str = false;
    let mut esc = false;
    let mut j = i;
    loop
        invariant
            i <= j <= cs@.len(),
            depth <= 1 + (j - i),
            1 <= i,
            !in_str ==> !esc,
            skip_composite(cs@.skip(i as int), 1, false, false) == skip_composite(
                cs@.skip(j as int),
                depth as nat,
                in_str,
                esc,
            ),
        decreases cs@.len() - j,
    {
        if depth == 0 && !in_str {
            return Some(j);
        }
        if j >= cs.len() {
            return None;
        }
        proof {
            assert(cs@.skip(j as int)[0] == cs@[j as int]);
            assert(cs@.skip(j as int).drop_first() =~= cs@.skip(j as int + 1));
        }
        let c = cs[j];
        if in_str {
            if esc {
                esc = false;
            } else if c == '\\' {
                esc = true;
            } else if c == '"' {
                in_str = false;
            }
        } else if c == '{' || c == '[' {
            depth = depth + 1;
        } else if c == '}' || c == ']' {
            depth = depth - 1;
        } else if c == '"' {
            in_str = true;
        }
        j = j + 1;
    }
}

fn skip_scalar_at(cs: &Vec<char>, i: usize) -> (j: usize)
    requires
        i <= cs@.len(),
    ensures
        i <= j <= cs@.len(),
        skip_scalar(cs@.skip(i as int)) == cs@.skip(j as int),
{
    let mut j = i;
    while j < cs.len() && is_scalar(cs[j])
        invariant
            i <= j <= cs@.len(),
            skip_scalar(cs@.skip(i as int)) == skip_scalar(cs@.skip(j as int)),
        decreases cs@.len() - j,
    {
        proof {
            assert(cs@.skip(j as int)[0] == cs@[j as int]);
            assert(cs@.skip(j as int).drop_first() =~= cs@.skip(j as int + 1));
        }
        j = j + 1;
    }
    proof {
        if j < cs@.len() {
            assert(cs@.skip(j as int)[0] == cs@[j as int]);
        }
        assert(skip_scalar(cs@.skip(j as int)) == cs@.skip(j as int));
    }
    j
}

fn parse_value_at(cs: &Vec<char>, i: usize) -> (r: Option<(Option<String>, usize)>)
    requires
        1 <= i <= cs@.len(),
    ensures
        (match r {
            Some((v, j)) => i <= j <= cs@.len() && parse_value(cs@.skip(i as int)) == Some(
                (opt_str_view(v), cs@.skip(j as int)),
            ),
            None => parse_value(cs@.skip(i as int)) is None,
        }),
{
    let t = skip_ws_at(cs, i);
    let ghost s_t = cs@.skip(t as int);
    if t >= cs.len() {
        return None;
    }
    proof {
        assert(s_t[0] == cs@[t as int]);
    }
    let c = cs[t];
    if c == '"' {
        proof {
            assert(s_t.drop_first() =~= cs@.skip(t as int + 1));
        }
        match parse_string_body_at(cs, t + 1) {
            Some((v, j)) => {
                let sv = chars_to_string(&v);
                Some((Some(sv), j))
            },
            None => None,
        }
    } else if c == '{' || c == '[' {
        proof {
            assert(s_t.drop_first() =~= cs@.skip(t as int + 1));
        }
        match skip_composite_at(cs, t + 1) {
            Some(j) => Some((None, j)),
            None => None,
        }
    } else if is_scalar(c) {
        let j = skip_scalar_at(cs, t);
        Some((None, j))
    } else {
        None
    }
}

fn parse_members_at(cs: &Vec<char>, i: usize) -> (r: Option<(Vec<(String, Option<String>)>, usize)>)
    requires
        1 <= i <= cs@.len(),
    ensures
        (match r {
            Some((ps, j)) => i <= j <= cs@.len() && parse_members(cs@.skip(i as int)) == Some(
                (pair_seq_view(ps@), cs@.skip(j as int)),
            ),
            None => parse_members(cs@.skip(i as int)) is None,
        }),
{
    let mut acc: Vec<(String, Option<String>)> = Vec::new();
    let mut j = i;
    loop
        invariant
            1 <= i <= j <= cs@.len(),
            (parse_members(cs@.skip(i as int)) == match parse_members(cs@.skip(j as int)) {
                Some((ps, rest)) => Some((pair_seq_view(acc@) + ps, rest)),
                None => None::<(Seq<SpecPair>, Seq<char>)>,
            }),
        decreases cs@.len() - j,
    {
        let ghost s_j = cs@.skip(j as int);
        let t = skip_ws_at(cs, j);
        let ghost s_t = cs@.skip(t as int);
        if t >= cs.len() {
            return None;
        }
        proof {
            assert(s_t[0] == cs@[t as int]);
        }
        if cs[t] != '"' {
            return None;
        }
        proof {
            assert(s_t.drop_first() =~= cs@.skip(t as int + 1));
        }
        let key = match parse_string_body_at(cs, t + 1) {
            Some(kv) => kv,
            None => {
                return None;
            },
        };
        let (kchars, r1) = key;
        let k = chars_to_string(&kchars);
        let r2 = skip_ws_at(cs, r1);
        let ghost s_r2 = cs@.skip(r2 as int);
        if r2 >= cs.len() {
            return None;
        }
        proof {
            assert(s_r2[0] == cs@[r2 as int]);
        }
        if cs[r2] != ':' {
            return None;
        }
        proof {
            assert(s_r2.drop_first() =~= cs@.skip(r2 as int + 1));
        }
        let (v, r3) = match parse_value_at(cs, r2 + 1) {
            Some(vr) => vr,
            None => {
                return None;
            },
        };
        let r4 = skip_ws_at(cs, r3);
        let ghost s_r4 = cs@.skip(r4 as int);
        if r4 >= cs.len() {
            return None;
        }
        proof {
            assert(s_r4[0] == cs@[r4 as int]);
            assert(s_r4.drop_first() =~= cs@.skip(r4 as int + 1));
        }
        let ghost pv = (k@, opt_str_view(v));
        proof {
            assert(pair_seq_view(acc@.push((k, v))) =~= pair_seq_view(acc@) + seq![pv]);
        }
        if cs[r4] == ',' {
            proof {
                match parse_members(cs@.skip(r4 as int + 1)) {
                    Some((ps, rest)) => {
                        assert(pair_seq_view(acc@) + (seq![pv] + ps) =~= (pair_seq_view(acc@)
                            + seq![pv]) + ps);
                    },
                    None => {},
                }
            }
            acc.push((k, v));
            j = r4 + 1;
            proof {
                lemma_parse_string_body_len(cs@.skip(t as int + 1));
                lemma_parse_value_len(cs@.skip(r2 as int + 1));
            }
        } else if cs[r4] == '}' {
            proof {
                assert(pair_seq_view(acc@) + seq![pv] =~= pair_seq_view(acc@.push((k, v))));
            }
            acc.push((k, v));
            return Some((acc, r4 + 1));
        } else {
            return None;
        }
    }
}

/// Reads a flat object out of `s`: its members in order, each value either a
/// string or absent. Returns nothing when `s` does not hold exactly one
/// object.
pub fn parse_object_str(s: &str) -> (r: Option<Vec<(String, Option<String>)>>)
    ensures
        (match r {
            Some(ps) => parse_object(s@) == Some(pair_seq_view(ps@)),
            None => parse_object(s@) is None,
        }),
{
    let cs = chars_of(s);
    proof {
        assert(cs@.skip(0) =~= s@);
    }
    let j = skip_ws_at(&cs, 0);
    let ghost s_j = cs@.skip(j as int);
    if j >= cs.len() {
        return None;
    }
    proof {
        assert(s_j[0] == cs@[j as int]);
        assert(s_j.drop_first() =~= cs@.skip(j as int + 1));
    }
    if cs[j] != '{' {
        return None;
    }
    let u = skip_ws_at(&cs, j + 1);
    let ghost s_u = cs@.skip(u as int);
    proof {
        if u < cs@.len() {
            assert(s_u[0] == cs@[u as int]);
        }
    }
    if u < cs.len() && cs[u] == '}' {
        proof {
            assert(s_u.drop_first() =~= cs@.skip(u as int + 1));
        }
        let e = skip_ws_at(&cs, u + 1);
        if e == cs.len() {
            proof {
                assert(cs@.skip(e as int).len() == 0);
                assert(pair_seq_view(Seq::<(String, Option<String>)>::empty()) =~= Seq::<
                    SpecPair,
                >::empty());
            }
            Some(Vec::new())
        } else {
            proof {
                assert(cs@.skip(e as int).len() > 0);
            }
            None
        }
    } else {
        match parse_members_at(&cs, j + 1) {
            Some((ps, k)) => {
                let e = skip_ws_at(&cs, k);
                if e == cs.len() {
                    proof {
                        assert(cs@.skip(e as int).len() == 0);
                    }
                    Some(ps)
                } else {
                    proof {
                        assert(cs@.skip(e as int).len() > 0);
                    }
                    None
                }
            },
            None => None,
        }
    }
}

/// Looks a string member up by key: the first binding wins; a missing
/// member, a `null` and a non-string member all read as absent.
pub fn lookup_string(pairs: &Vec<(String, Option<String>)>, key: &str) -> (r: Option<String>)
    ensures
        opt_str_view(r) == spec_lookup_string(pair_seq_view(pairs@), key@),
{
    let ghost full = pair_seq_view(pairs@);
    proof {
        assert(full.skip(0) =~= full);
    }
    let mut k: usize = 0;
    while k < pairs.len()
        invariant
            k <= pairs@.len(),
            full == pair_seq_view(pairs@),
            full.len() == pairs@.len(),
            find_value(full, key@) == find_value(full.skip(k as int), key@),
        decreases pairs@.len() - k,
    {
        proof {
            assert(full.skip(k as int)[0] == full[k as int]);
            assert(full.skip(k as int).drop_first() =~= full.skip(k as int + 1));
        }
        if str_eq(pairs[k].0.as_str(), key) {
            match &pairs[k].1 {
                Some(v) => {
                    return Some(v.clone());
                },
                None => {
                    return None;
                },
            }
        }
        k = k + 1;
    }
    proof {
        assert(full.skip(k as int).len() == 0);
    }
    None
}

} // verus!
