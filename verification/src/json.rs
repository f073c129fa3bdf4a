use vstd::prelude::*;

verus! {

/// A JSON document, reduced to what the pipeline reads: the tree shape,
/// strings, and booleans. Numbers are never consumed anywhere, so only their
/// presence is kept.
#[derive(Debug, PartialEq, Eq)]
pub enum JsonValue {
    Null,
    Bool(bool),
    Number,
    Str(String),
    Array(Vec<JsonValue>),
    Object(Vec<JsonMember>),
}

/// One key/value pair of a JSON object.
#[derive(Debug, PartialEq, Eq)]
pub struct JsonMember {
    pub key: String,
    pub value: JsonValue,
}

/// The value under the first member with the given key, if any.
pub open spec fn spec_lookup(members: Seq<JsonMember>, key: Seq<char>) -> Option<JsonValue>
    decreases members.len(),
{
    if members.len() == 0 {
        None
    } else if members[0].key@ == key {
        Some(members[0].value)
    } else {
        spec_lookup(members.skip(1), key)
    }
}

/// Appending a member changes a lookup only for its own key, and only when
/// that key was absent.
pub proof fn lemma_lookup_push(members: Seq<JsonMember>, m: JsonMember)
    ensures
        forall|key: Seq<char>| #[trigger]
            spec_lookup(members.push(m), key) == (if spec_lookup(members, key) is Some {
                spec_lookup(members, key)
            } else if m.key@ == key {
                Some(m.value)
            } else {
                None
            }),
    decreases members.len(),
{
    assert forall|key: Seq<char>| #[trigger]
        spec_lookup(members.push(m), key) == (if spec_lookup(members, key) is Some {
            spec_lookup(members, key)
        } else if m.key@ == key {
            Some(m.value)
        } else {
            None
        }) by {
        if members.len() == 0 {
            assert(members.push(m)[0] == m);
            assert(members.push(m).skip(1) =~= Seq::<JsonMember>::empty());
            assert(spec_lookup(Seq::<JsonMember>::empty(), key) is None);
        } else {
            lemma_lookup_push(members.skip(1), m);
            assert(members.push(m)[0] == members[0]);
            assert(members.push(m).skip(1) =~= members.skip(1).push(m));
            assert(spec_lookup(members.push(m).skip(1), key) == spec_lookup(
                members.skip(1).push(m),
                key,
            ));
        }
    }
}

/// Finds the first member with the given key and hands back a clone of its
/// value's string content, if that value is a string.
pub fn lookup_str(members: &Vec<JsonMember>, key: &str) -> (r: Option<String>)
    ensures
        match spec_lookup(members@, key@) {
            Some(JsonValue::Str(s)) => r matches Some(v) && v@ == s@,
            _ => r is None,
        },
{
    proof {
        assert(members@.skip(0) =~= members@);
    }
    let mut i: usize = 0;
    while i < members.len()
        invariant
            0 <= i <= members@.len(),
            spec_lookup(members@, key@) == spec_lookup(members@.skip(i as int), key@),
        decreases members@.len() - i,
    {
        proof {
            assert(members@.skip(i as int)[0] == members@[i as int]);
        }
        if crate::utils::str_eq(members[i].key.as_str(), key) {
            let r = match &members[i].value {
                JsonValue::Str(s) => Some(s.clone()),
                _ => None,
            };
            return r;
        }
        proof {
            assert(members@.skip(i as int).skip(1) =~= members@.skip(i + 1));
        }
        i = i + 1;
    }
    proof {
        assert(members@.skip(members@.len() as int) =~= Seq::<JsonMember>::empty());
    }
    None
}

// ---------------------------------------------------------------------------
// Rendering JSON text
// ---------------------------------------------------------------------------

/// Relies on String::push: it appends exactly the one character.
#[verifier::external_body]
pub(crate) fn push_char(s: &mut String, c: char)
    ensures
        final(s)@ == old(s)@.push(c),
{
    s.push(c);
}

/// The character standing for a hexadecimal digit value.
pub open spec fn spec_hex_char(d: int) -> char {
    if d == 0 { '0' } else if d == 1 { '1' } else if d == 2 { '2' } else if d == 3 { '3' }
    else if d == 4 { '4' } else if d == 5 { '5' } else if d == 6 { '6' } else if d == 7 { '7' }
    else if d == 8 { '8' } else if d == 9 { '9' } else if d == 10 { 'a' } else if d == 11 { 'b' }
    else if d == 12 { 'c' } else if d == 13 { 'd' } else if d == 14 { 'e' } else { 'f' }
}

pub(crate) fn hex_char(d: u32) -> (r: char)
    requires
        d < 16,
    ensures
        r == spec_hex_char(d as int),
{
    if d == 0 { '0' } else if d == 1 { '1' } else if d == 2 { '2' } else if d == 3 { '3' }
    else if d == 4 { '4' } else if d == 5 { '5' } else if d == 6 { '6' } else if d == 7 { '7' }
    else if d == 8 { '8' } else if d == 9 { '9' } else if d == 10 { 'a' } else if d == 11 { 'b' }
    else if d == 12 { 'c' } else if d == 13 { 'd' } else if d == 14 { 'e' } else { 'f' }
}

/// How one character appears inside a JSON string literal.
pub open spec fn spec_escape_char(c: char) -> Seq<char> {
    if c == '"' {
        seq!['\\', '"']
    } else if c == '\\' {
        seq!['\\', '\\']
    } else if c == '\n' {
        seq!['\\', 'n']
    } else if c == '\r' {
        seq!['\\', 'r']
    } else if c == '\t' {
        seq!['\\', 't']
    } else if (c as u32) < 32 {
        seq!['\\', 'u', '0', '0', spec_hex_char((c as u32) as int / 16), spec_hex_char(
            (c as u32) as int % 16,
        )]
    } else {
        seq![c]
    }
}

/// How a whole character sequence appears inside a JSON string literal.
pub open spec fn spec_escape(s: Seq<char>) -> Seq<char>
    decreases s.len(),
{
    if s.len() == 0 {
        Seq::empty()
    } else {
        spec_escape(s.drop_last()) + spec_escape_char(s.last())
    }
}

/// Appends `s` to `out` in JSON string escaping.
pub fn append_escaped(out: &mut String, s: &str)
    ensures
        final(out)@ == old(out)@ + spec_escape(s@),
{
    let n = s.unicode_len();
    let mut i: usize = 0;
    proof {
        assert(out@ + spec_escape(s@.take(0)) =~= out@);
    }
    while i < n
        invariant
            0 <= i <= n,
            n == s@.len(),
            out@ == old(out)@ + spec_escape(s@.take(i as int)),
        decreases n - i,
    {
        let c = s.get_char(i);
        proof {
            assert(s@.take(i + 1).drop_last() =~= s@.take(i as int));
            assert(s@.take(i + 1).last() == c);
            reveal_strlit("\\\"");
            reveal_strlit("\\\\");
            reveal_strlit("\\n");
            reveal_strlit("\\r");
            reveal_strlit("\\t");
            reveal_strlit("\\u00");
        }
        if c == '"' {
            out.append("\\\"");
        } else if c == '\\' {
            out.append("\\\\");
        } else if c == '\n' {
            out.append("\\n");
        } else if c == '\r' {
            out.append("\\r");
        } else if c == '\t' {
            out.append("\\t");
        } else if (c as u32) < 32 {
            let v: u32 = c as u32;
            out.append("\\u00");
            push_char(out, hex_char(v / 16));
            push_char(out, hex_char(v % 16));
        } else {
            push_char(out, c);
        }
        proof {
            assert(out@ =~= old(out)@ + spec_escape(s@.take(i + 1)));
        }
        i = i + 1;
    }
    proof {
        assert(s@.take(n as int) =~= s@);
    }
}

/// A JSON string literal: quotes around the escaped content.
pub open spec fn spec_string_text(s: Seq<char>) -> Seq<char> {
    seq!['"'] + spec_escape(s) + seq!['"']
}

/// Appends `s` as a JSON string literal.
pub fn append_quoted(out: &mut String, s: &str)
    ensures
        final(out)@ == old(out)@ + spec_string_text(s@),
{
    push_char(out, '"');
    append_escaped(out, s);
    push_char(out, '"');
    proof {
        assert(out@ =~= old(out)@ + spec_string_text(s@));
    }
}

/// One rendered member of a JSON object: a quoted key and an already
/// rendered value.
pub open spec fn spec_member_text(key: Seq<char>, val: Seq<char>) -> Seq<char> {
    spec_string_text(key) + seq![':'] + val
}

/// The comma-separated members of a JSON object, each pair being a raw key
/// and the rendered text of its value.
pub open spec fn spec_members_text(pairs: Seq<(Seq<char>, Seq<char>)>) -> Seq<char>
    decreases pairs.len(),
{
    if pairs.len() == 0 {
        Seq::empty()
    } else if pairs.len() == 1 {
        spec_member_text(pairs[0].0, pairs[0].1)
    } else {
        spec_members_text(pairs.drop_last()) + seq![','] + spec_member_text(
            pairs.last().0,
            pairs.last().1,
        )
    }
}

/// A rendered JSON object with the given members.
pub open spec fn spec_object_text(pairs: Seq<(Seq<char>, Seq<char>)>) -> Seq<char> {
    seq!['{'] + spec_members_text(pairs) + seq!['}']
}

/// The raw key/rendered value view of a pair of strings.
pub open spec fn pairs_view(pairs: Seq<(String, String)>) -> Seq<(Seq<char>, Seq<char>)> {
    pairs.map(|i: int, p: (String, String)| (p.0@, p.1@))
}

/// Appends a JSON object whose members are the given keys, each with an
/// already rendered value.
pub fn append_object(out: &mut String, pairs: &Vec<(String, String)>)
    ensures
        final(out)@ == old(out)@ + spec_object_text(pairs_view(pairs@)),
{
    push_char(out, '{');
    let mut i: usize = 0;
    proof {
        assert(pairs_view(pairs@.take(0)) =~= Seq::<(Seq<char>, Seq<char>)>::empty());
        assert(out@ =~= old(out)@ + seq!['{'] + spec_members_text(pairs_view(pairs@.take(0))));
    }
    while i < pairs.len()
        invariant
            0 <= i <= pairs@.len(),
            out@ == old(out)@ + seq!['{'] + spec_members_text(pairs_view(pairs@.take(i as int))),
        decreases pairs@.len() - i,
    {
        if i > 0 {
            push_char(out, ',');
        }
        append_quoted(out, pairs[i].0.as_str());
        push_char(out, ':');
        out.append(pairs[i].1.as_str());
        proof {
            let pv = pairs_view(pairs@.take(i + 1));
            assert(pv.drop_last() =~= pairs_view(pairs@.take(i as int)));
            assert(pv.last() == (pairs@[i as int].0@, pairs@[i as int].1@));
            assert(out@ =~= old(out)@ + seq!['{'] + spec_members_text(pv));
        }
        i = i + 1;
    }
    push_char(out, '}');
    proof {
        assert(pairs_view(pairs@.take(pairs@.len() as int)) =~= pairs_view(pairs@));
        assert(out@ =~= old(out)@ + spec_object_text(pairs_view(pairs@)));
    }
}

/// What serde_json makes of a piece of text: `None` when the text is not
/// valid JSON, otherwise the document, reduced to the shape above. Parsing
/// is deterministic, so this is a function of the text alone.
pub uninterp spec fn json_of(text: Seq<char>) -> Option<JsonValue>;

#[verifier::external_type_specification]
#[verifier::external_body]
pub struct ExValue(serde_json::Value);

/// Relies on the shape of serde_json::Value: each variant is carried over
/// one-for-one, dropping only the numeric payload that nothing here reads.
#[verifier::external_body]
fn reduce_value(v: serde_json::Value) -> JsonValue {
    match v {
        serde_json::Value::Null => JsonValue::Null,
        serde_json::Value::Bool(b) => JsonValue::Bool(b),
        serde_json::Value::Number(_) => JsonValue::Number,
        serde_json::Value::String(s) => JsonValue::Str(s),
        serde_json::Value::Array(items) => JsonValue::Array(
            items.into_iter().map(reduce_value).collect(),
        ),
        serde_json::Value::Object(members) => JsonValue::Object(
            members.into_iter().map(
                |(key, value)| JsonMember { key, value: reduce_value(value) },
            ).collect(),
        ),
    }
}

/// Relies on serde_json::from_str::<Value>: it accepts exactly the valid
/// JSON documents, deterministically in the text alone.
#[verifier::external_body]
pub(crate) fn parse_json(text: &str) -> (r: Option<JsonValue>)
    ensures
        r == json_of(text@),
{
    match serde_json::from_str::<serde_json::Value>(text) {
        Ok(v) => Some(reduce_value(v)),
        Err(_) => None,
    }
}

} // verus!
