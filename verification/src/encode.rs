//! Value Encoder: renders untrusted scalar values as fragments of the store's
//! literal syntax. Strings are quoted, with quotes and backslashes escaped, so
//! that no embedded character can alter the structure of the surrounding
//! query; control characters cannot be represented and are rejected.

use vstd::prelude::*;

verus! {

/// Error returned when a value cannot be embedded safely in a query literal.
#[derive(Clone, Copy, Debug, PartialEq, Eq, Structural)]
pub struct EncodingError;

/// A character the store's literal grammar can carry: anything but a control
/// character.
pub open spec fn encodable_char(c: char) -> bool {
    c as u32 >= 32
}

/// A string is encodable when every character of it is.
pub open spec fn encodable(s: Seq<char>) -> bool {
    forall|i: int| 0 <= i < s.len() ==> encodable_char(s[i])
}

/// How one character is written inside a quoted literal: quotes and
/// backslashes take a leading backslash, everything else stands as itself.
pub open spec fn escape_char(c: char) -> Seq<char> {
    if c == '"' {
        seq!['\\', '"']
    } else if c == '\\' {
        seq!['\\', '\\']
    } else {
        seq![c]
    }
}

/// The body of a quoted literal: every character escaped, in order.
pub open spec fn escape_seq(s: Seq<char>) -> Seq<char>
    decreases s.len(),
{
    if s.len() == 0 {
        Seq::empty()
    } else {
        escape_char(s[0]) + escape_seq(s.drop_first())
    }
}

/// The store's reading of a literal body: a backslash must introduce an
/// escaped quote or backslash, and a bare quote cannot occur (it would end
/// the literal early).
pub open spec fn unescape_seq(s: Seq<char>) -> Option<Seq<char>>
    decreases s.len(),
{
    if s.len() == 0 {
        Some(Seq::empty())
    } else if s[0] == '\\' {
        if s.len() >= 2 && (s[1] == '"' || s[1] == '\\') {
            match unescape_seq(s.skip(2)) {
                Some(r) => Some(seq![s[1]] + r),
                None => None,
            }
        } else {
            None
        }
    } else if s[0] == '"' {
        None
    } else {
        match unescape_seq(s.drop_first()) {
            Some(r) => Some(seq![s[0]] + r),
            None => None,
        }
    }
}

pub proof fn lemma_escape_snoc(s: Seq<char>, c: char)
    ensures
        escape_seq(s.push(c)) == escape_seq(s) + escape_char(c),
    decreases s.len(),
{
    if s.len() == 0 {
        assert(s.push(c)[0] == c);
        assert(s.push(c).drop_first() =~= Seq::<char>::empty());
        assert(escape_seq(s.push(c)) == escape_char(c) + escape_seq(Seq::<char>::empty()));
        assert(escape_char(c) + Seq::<char>::empty() =~= Seq::<char>::empty() + escape_char(c));
        assert(escape_seq(s.push(c)) =~= escape_seq(s) + escape_char(c));
    } else {
        assert(s.push(c).drop_first() =~= s.drop_first().push(c));
        lemma_escape_snoc(s.drop_first(), c);
        assert(escape_seq(s.push(c)) =~= escape_seq(s) + escape_char(c));
    }
}

/// Parsing an escaped body with the store's literal grammar gives back the
/// original string exactly, whatever the string holds.
pub proof fn lemma_escape_round_trip(s: Seq<char>)
    ensures
        unescape_seq(escape_seq(s)) == Some(s),
    decreases s.len(),
{
    if s.len() == 0 {
    } else {
        let c = s[0];
        let rest = s.drop_first();
        lemma_escape_round_trip(rest);
        assert(seq![c] + rest =~= s);
        if c == '"' || c == '\\' {
            assert(escape_seq(s).skip(2) =~= escape_seq(rest));
        } else {
            assert(escape_seq(s).drop_first() =~= escape_seq(rest));
        }
    }
}

/// A quoted string literal as the store's syntax carries it.
pub open spec fn str_lit(s: Seq<char>) -> Seq<char> {
    seq!['"'] + escape_seq(s) + seq!['"']
}

/// The store's reading of a whole quoted literal: an opening quote, a body in
/// which every quote is escaped (so nothing inside can close the literal
/// early), and the closing quote.
pub open spec fn parse_str_lit(s: Seq<char>) -> Option<Seq<char>> {
    if s.len() >= 2 && s[0] == '"' && s.last() == '"' {
        unescape_seq(s.subrange(1, s.len() - 1))
    } else {
        None
    }
}

/// Parsing an emitted quoted literal gives back the original string exactly,
/// whatever the string holds.
pub proof fn lemma_str_lit_round_trip(s: Seq<char>)
    ensures
        parse_str_lit(str_lit(s)) == Some(s),
{
    let lit = str_lit(s);
    assert(lit[0] == '"');
    assert(lit.last() == '"');
    assert(lit.subrange(1, lit.len() - 1) =~= escape_seq(s));
    lemma_escape_round_trip(s);
}

/// A boolean in the store's native literal form, unquoted.
pub open spec fn bool_lit(b: bool) -> Seq<char> {
    if b {
        "true"@
    } else {
        "false"@
    }
}

/// Relies on std's String::push: appends exactly one character.
#[verifier::external_body]
fn push_char(s: &mut String, c: char)
    ensures
        final(s)@ == old(s)@.push(c),
{
    s.push(c);
}

/// Escapes a string for inclusion in a quoted literal, rejecting strings the
/// store cannot carry.
pub fn escape_string(s: &str) -> (r: Result<String, EncodingError>)
    ensures
        r matches Ok(t) ==> t@ == escape_seq(s@),
        r is Ok <==> encodable(s@),
{
    let n = s.unicode_len();
    let mut out = String::new();
    let mut i: usize = 0;
    while i < n
        invariant
            n == s@.len(),
            i <= n,
            out@ == escape_seq(s@.take(i as int)),
            forall|j: int| 0 <= j < i ==> encodable_char(s@[j]),
        decreases n - i,
    {
        let c = s.get_char(i);
        if (c as u32) < 32 {
            return Err(EncodingError);
        }
        proof {
            lemma_escape_snoc(s@.take(i as int), c);
            assert(s@.take(i as int + 1) =~= s@.take(i as int).push(c));
        }
        if c == '"' {
            push_char(&mut out, '\\');
            push_char(&mut out, '"');
        } else if c == '\\' {
            push_char(&mut out, '\\');
            push_char(&mut out, '\\');
        } else {
            push_char(&mut out, c);
        }
        assert(out@ =~= escape_seq(s@.take(i as int + 1)));
        i = i + 1;
    }
    proof {
        assert(s@.take(n as int) =~= s@);
    }
    Ok(out)
}

/// Renders a string as a quoted, escaped literal, rejecting strings the
/// store cannot carry.
pub fn encode_str(s: &str) -> (r: Result<String, EncodingError>)
    ensures
        r matches Ok(t) ==> t@ == str_lit(s@),
        r is Ok <==> encodable(s@),
{
    let body = match escape_string(s) {
        Ok(b) => b,
        Err(e) => {
            return Err(e);
        },
    };
    let mut out = String::new();
    push_char(&mut out, '"');
    out.append(body.as_str());
    push_char(&mut out, '"');
    assert(out@ =~= str_lit(s@));
    Ok(out)
}

/// Renders a boolean in the store's native literal form.
pub fn encode_bool(b: bool) -> (r: String)
    ensures
        r@ == bool_lit(b),
{
    if b {
        String::from_str("true")
    } else {
        String::from_str("false")
    }
}

} // verus!
