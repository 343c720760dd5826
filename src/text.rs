//! Character-level escaping rules of the line protocol.

use vstd::prelude::*;

verus! {

/// A character that must be preceded by a backslash in a measurement name,
/// a tag key, a tag value or a field key.
pub open spec fn needs_escape(c: char) -> bool {
    c == '\\' || c == ',' || c == ' ' || c == '='
}

/// One character as it stands in an escaped token.
pub open spec fn escaped_char(c: char) -> Seq<char> {
    if needs_escape(c) {
        seq!['\\', c]
    } else {
        seq![c]
    }
}

/// A token with every special character preceded by a backslash.
pub open spec fn escaped(s: Seq<char>) -> Seq<char>
    decreases s.len(),
{
    if s.len() == 0 {
        Seq::empty()
    } else {
        escaped(s.drop_last()) + escaped_char(s.last())
    }
}

/// The characters of a string, one by one.
pub(crate) fn chars_of(s: &str) -> (r: Vec<char>)
    ensures
        r@ == s@,
{
    let mut r: Vec<char> = Vec::new();
    for c in it: s.chars()
        invariant
            it.seq() == s@,
            r@ == s@.take(it.index() as int),
    {
        r.push(c);
    }
    r
}

/// Relies on `String::push`: the character is appended at the end.
#[verifier::external_body]
pub(crate) fn push_char(s: &mut String, c: char)
    ensures
        final(s)@ == old(s)@.push(c),
{
    s.push(c)
}

/// Appends `key` to `output` with backslash, comma, space and equals sign
/// each preceded by a backslash.
pub fn encode_string(key: String, output: &mut String)
    ensures
        final(output)@ == old(output)@ + escaped(key@),
{
    push_escaped(key.as_str(), output);
}

/// Appends `key`, escaped, to `output`.
pub(crate) fn push_escaped(key: &str, output: &mut String)
    ensures
        final(output)@ == old(output)@ + escaped(key@),
{
    proof {
        assert(key@.take(0) == Seq::<char>::empty());
        assert(old(output)@ + Seq::<char>::empty() == old(output)@);
    }
    for c in it: key.chars()
        invariant
            it.seq() == key@,
            output@ == old(output)@ + escaped(key@.take(it.index() as int)),
    {
        proof {
            assert(key@.take(it.index() + 1).drop_last() == key@.take(it.index() as int));
        }
        let ghost before = output@;
        if c == '\\' || c == ',' || c == ' ' || c == '=' {
            push_char(output, '\\');
        }
        push_char(output, c);
        assert(output@ == before + escaped_char(c));
    }
    proof {
        assert(key@.take(key@.len() as int) == key@);
    }
}

/// A character that must be preceded by a backslash inside a quoted string
/// field value.
pub open spec fn needs_quote_escape(c: char) -> bool {
    c == '\\' || c == '"'
}

/// The characters of a string field value between its quotes.
pub open spec fn quote_escaped(s: Seq<char>) -> Seq<char>
    decreases s.len(),
{
    if s.len() == 0 {
        Seq::empty()
    } else {
        quote_escaped(s.drop_last()) + if needs_quote_escape(s.last()) {
            seq!['\\', s.last()]
        } else {
            seq![s.last()]
        }
    }
}

/// A string field value as it stands in a line: in double quotes, with
/// backslash and double quote escaped.
pub open spec fn quoted(s: Seq<char>) -> Seq<char> {
    seq!['"'] + quote_escaped(s) + seq!['"']
}

/// Appends `value` in double quotes to `output`, escaping backslash and
/// double quote.
pub fn push_quoted(value: &str, output: &mut String)
    ensures
        final(output)@ == old(output)@ + quoted(value@),
{
    push_char(output, '"');
    let ghost start = output@;
    proof {
        assert(value@.take(0) == Seq::<char>::empty());
        assert(start + Seq::<char>::empty() == start);
    }
    for c in it: value.chars()
        invariant
            it.seq() == value@,
            output@ == start + quote_escaped(value@.take(it.index() as int)),
    {
        proof {
            assert(value@.take(it.index() + 1).drop_last() == value@.take(it.index() as int));
        }
        if c == '\\' || c == '"' {
            push_char(output, '\\');
        }
        push_char(output, c);
    }
    proof {
        assert(value@.take(value@.len() as int) == value@);
    }
    push_char(output, '"');
}

/// The character of a decimal digit.
pub open spec fn digit_char(d: nat) -> char {
    ((d + 48) as u8) as char
}

/// The decimal digits of `n`, most significant first, without leading zeros.
pub open spec fn decimal(n: nat) -> Seq<char>
    decreases n,
{
    if n < 10 {
        seq![digit_char(n)]
    } else {
        decimal(n / 10).push(digit_char(n % 10))
    }
}

/// The decimal rendering of a signed integer, with `-` before a negative one.
pub open spec fn signed_decimal(i: int) -> Seq<char> {
    if i < 0 {
        seq!['-'] + decimal((-i) as nat)
    } else {
        decimal(i as nat)
    }
}

/// Appends the decimal digits of `n` to `output`.
pub fn push_decimal(n: u64, output: &mut String)
    ensures
        final(output)@ == old(output)@ + decimal(n as nat),
    decreases n,
{
    if n >= 10 {
        push_decimal(n / 10, output);
    }
    let d: u8 = (n % 10) as u8;
    push_char(output, (d + 48) as char);
}

/// Appends the decimal rendering of `i` to `output`.
pub fn push_signed_decimal(i: i64, output: &mut String)
    ensures
        final(output)@ == old(output)@ + signed_decimal(i as int),
{
    if i < 0 {
        push_char(output, '-');
        let magnitude: u64 = (-(i as i128)) as u64;
        push_decimal(magnitude, output);
    } else {
        push_decimal(i as u64, output);
    }
}

} // verus!
