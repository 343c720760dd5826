//! Encoding of one record as a line of the line protocol.

use vstd::prelude::*;

use crate::sorted::{inserted, SortedMap};
use crate::text::{
    decimal, escaped, push_char, push_decimal, push_escaped, push_quoted, push_signed_decimal,
    quoted, signed_decimal,
};

verus! {

/// A field value of a record.
pub enum Field {
    /// string
    String(String),
    /// 64-bit float, held as its decimal rendering: the arithmetic of
    /// floating point stays with the caller
    Float(String),
    /// unsigned integer
    UnsignedInt(u32),
    /// integer
    Int(i64),
    /// boolean
    Bool(bool),
}

/// The text of a field value: a quoted string, a float as is, an unsigned
/// integer with `u`, a signed one with `i`, a boolean as `true` or `false`.
pub open spec fn field_value_text(f: Field) -> Seq<char> {
    match f {
        Field::String(s) => quoted(s@),
        Field::Float(t) => t@,
        Field::UnsignedInt(n) => decimal(n as nat).push('u'),
        Field::Int(i) => signed_decimal(i as int).push('i'),
        Field::Bool(b) => if b {
            seq!['t', 'r', 'u', 'e']
        } else {
            seq!['f', 'a', 'l', 's', 'e']
        },
    }
}

/// `parts` separated by commas.
pub open spec fn joined(parts: Seq<Seq<char>>) -> Seq<char>
    decreases parts.len(),
{
    if parts.len() == 0 {
        Seq::empty()
    } else if parts.len() == 1 {
        parts[0]
    } else {
        joined(parts.drop_last()) + seq![','] + parts.last()
    }
}

/// `key=value` of each tag whose key and value are both non-empty, in the
/// order of `tags`.
pub open spec fn tag_parts(tags: Seq<(Seq<char>, Seq<char>)>) -> Seq<Seq<char>>
    decreases tags.len(),
{
    if tags.len() == 0 {
        Seq::empty()
    } else {
        let rest = tag_parts(tags.drop_last());
        let (k, v) = tags.last();
        if k.len() == 0 || v.len() == 0 {
            rest
        } else {
            rest.push(escaped(k) + seq!['='] + escaped(v))
        }
    }
}

/// The tag section of a line.
pub open spec fn tags_text(tags: Seq<(Seq<char>, Seq<char>)>) -> Seq<char> {
    joined(tag_parts(tags))
}

/// Tag entries with their values as characters.
pub open spec fn tag_views(tags: Seq<(Seq<char>, String)>) -> Seq<(Seq<char>, Seq<char>)> {
    tags.map_values(|e: (Seq<char>, String)| (e.0, e.1@))
}

proof fn lemma_tag_views_inserted(s: Seq<(Seq<char>, String)>, k: Seq<char>, v: String)
    ensures
        tag_views(inserted(s, k, v)) == inserted(tag_views(s), k, v@),
    decreases s.len(),
{
    if s.len() > 0 {
        lemma_tag_views_inserted(s.drop_first(), k, v);
        assert(tag_views(s).drop_first() == tag_views(s.drop_first()));
        assert(tag_views(seq![(k, v)] + s.drop_first()) == seq![(k, v@)] + tag_views(s).drop_first());
        assert(tag_views(seq![(k, v)] + s) == seq![(k, v@)] + tag_views(s));
        assert(tag_views(seq![s[0]] + inserted(s.drop_first(), k, v)) == seq![tag_views(s)[0]]
            + tag_views(inserted(s.drop_first(), k, v)));
    } else {
        assert(tag_views(seq![(k, v)]) == seq![(k, v@)]);
    }
}

/// `key=value` of each field, in the order of `fields`.
pub open spec fn field_parts(fields: Seq<(Seq<char>, Field)>) -> Seq<Seq<char>> {
    fields.map_values(|e: (Seq<char>, Field)| escaped(e.0) + seq!['='] + field_value_text(e.1))
}

/// The field section of a line.
pub open spec fn fields_text(fields: Seq<(Seq<char>, Field)>) -> Seq<char> {
    joined(field_parts(fields))
}

/// The key of the tag that carries the kind of record.
pub open spec fn metric_type_key() -> Seq<char> {
    "metric_type"@
}

/// The measurement of a line with its tag section: a comma and the tags
/// follow only where some tag is written.
pub open spec fn series_text(measurement: Seq<char>, tags: Seq<(Seq<char>, Seq<char>)>) -> Seq<
    char,
> {
    if tags_text(tags).len() > 0 {
        escaped(measurement) + seq![','] + tags_text(tags)
    } else {
        escaped(measurement)
    }
}

/// The whole line of a record: measurement and tags, fields, timestamp.
pub open spec fn line_text(
    measurement: Seq<char>,
    tags: Seq<(Seq<char>, Seq<char>)>,
    fields: Seq<(Seq<char>, Field)>,
    timestamp: i64,
) -> Seq<char> {
    series_text(measurement, tags) + seq![' '] + fields_text(fields) + seq![' '] + signed_decimal(
        timestamp as int,
    ) + seq!['\n']
}

/// The entries of an optional map, none when it is absent.
pub open spec fn entries_or_empty<V>(m: Option<SortedMap<V>>) -> Seq<(Seq<char>, V)> {
    match m {
        Some(m) => m@,
        None => Seq::empty(),
    }
}

proof fn lemma_joined_push(parts: Seq<Seq<char>>, i: int)
    requires
        0 <= i < parts.len(),
    ensures
        joined(parts.take(i + 1)) == joined(parts.take(i)) + (if i == 0 {
            Seq::<char>::empty()
        } else {
            seq![',']
        }) + parts[i],
{
    assert(parts.take(i + 1).drop_last() == parts.take(i));
    if i == 0 {
        assert(parts.take(0) == Seq::<Seq<char>>::empty());
        assert(Seq::<char>::empty() + Seq::<char>::empty() + parts[0] == parts[0]);
    }
}

/// Appends the tag section to `output`: tags in ascending key order, each as
/// `key=value`, separated by commas, with every tag of an empty key or value
/// left out.
pub fn encode_tags(tags: SortedMap<String>, output: &mut String)
    ensures
        final(output)@ == old(output)@ + tags_text(tag_views(tags@)),
{
    let ghost s = tag_views(tags@);
    let mut wrote = false;
    let mut i: usize = 0;
    proof {
        assert(s.take(0) == Seq::<(Seq<char>, Seq<char>)>::empty());
        assert(old(output)@ + Seq::<char>::empty() == old(output)@);
    }
    while i < tags.len()
        invariant
            s == tag_views(tags@),
            i <= s.len(),
            wrote == (tag_parts(s.take(i as int)).len() > 0),
            output@ == old(output)@ + joined(tag_parts(s.take(i as int))),
        decreases s.len() - i,
    {
        let key = tags.key(i);
        let value = tags.value(i);
        let ghost before = output@;
        let ghost parts = tag_parts(s.take(i as int));
        assert(s.take(i + 1).drop_last() == s.take(i as int));
        assert(s[i as int] == (key@, value@));
        if !key.as_str().is_empty() && !value.as_str().is_empty() {
            let ghost next = tag_parts(s.take(i + 1));
            proof {
                assert(next == parts.push(escaped(key@) + seq!['='] + escaped(value@)));
                assert(next.take(parts.len() as int) == parts);
                lemma_joined_push(next, parts.len() as int);
            }
            if wrote {
                push_char(output, ',');
            }
            push_escaped(key.as_str(), output);
            push_char(output, '=');
            push_escaped(value.as_str(), output);
            assert(next.take(next.len() as int) == next);
            wrote = true;
        }
        i = i + 1;
    }
    assert(s.take(s.len() as int) == s);
}

/// Appends the text of one field value to `output`.
fn push_field_value(value: &Field, output: &mut String)
    ensures
        final(output)@ == old(output)@ + field_value_text(*value),
{
    match value {
        Field::String(s) => push_quoted(s.as_str(), output),
        Field::Float(t) => output.append(t.as_str()),
        Field::UnsignedInt(n) => {
            push_decimal(*n as u64, output);
            push_char(output, 'u');
        },
        Field::Int(i) => {
            push_signed_decimal(*i, output);
            push_char(output, 'i');
        },
        Field::Bool(b) => {
            if *b {
                push_char(output, 't');
                push_char(output, 'r');
                push_char(output, 'u');
                push_char(output, 'e');
            } else {
                push_char(output, 'f');
                push_char(output, 'a');
                push_char(output, 'l');
                push_char(output, 's');
                push_char(output, 'e');
            }
        },
    }
}

/// Appends the field section to `output`: fields in ascending key order, each
/// as `key=value`, separated by commas.
pub fn encode_fields(fields: SortedMap<Field>, output: &mut String)
    ensures
        final(output)@ == old(output)@ + fields_text(fields@),
{
    let ghost s = fields@;
    let ghost parts = field_parts(s);
    let mut i: usize = 0;
    proof {
        assert(parts.take(0) == Seq::<Seq<char>>::empty());
        assert(old(output)@ + Seq::<char>::empty() == old(output)@);
    }
    while i < fields.len()
        invariant
            s == fields@,
            parts == field_parts(s),
            i <= s.len(),
            output@ == old(output)@ + joined(parts.take(i as int)),
        decreases s.len() - i,
    {
        proof {
            lemma_joined_push(parts, i as int);
        }
        if i > 0 {
            push_char(output, ',');
        }
        push_escaped(fields.key(i).as_str(), output);
        push_char(output, '=');
        push_field_value(fields.value(i), output);
        i = i + 1;
    }
    assert(parts.take(s.len() as int) == parts);
}

/// Appends the line of one record to `line_protocol`: the escaped
/// measurement, then a comma and the tags with `metric_type` set to
/// `metric_type` where any tag is written, a space, the fields, a space, the timestamp and a newline. A record without
/// fields gives no line.
pub fn influx_line_protocol(
    measurement: String,
    metric_type: &str,
    tags: Option<SortedMap<String>>,
    fields: Option<SortedMap<Field>>,
    timestamp: i64,
    line_protocol: &mut String,
)
    ensures
        entries_or_empty(fields).len() == 0 ==> final(line_protocol)@ == old(line_protocol)@,
        entries_or_empty(fields).len() > 0 ==> final(line_protocol)@ == old(line_protocol)@
            + line_text(
            measurement@,
            inserted(tag_views(entries_or_empty(tags)), metric_type_key(), metric_type@),
            entries_or_empty(fields),
            timestamp,
        ),
{
    let fields = match fields {
        Some(f) => f,
        None => SortedMap::new(),
    };
    if fields.len() == 0 {
        return;
    }
    push_escaped(measurement.as_str(), line_protocol);
    let mut tags = match tags {
        Some(t) => t,
        None => SortedMap::new(),
    };
    let ghost old_tags = tags@;
    let value = String::from_str(metric_type);
    proof {
        lemma_tag_views_inserted(old_tags, metric_type_key(), value);
    }
    tags.insert(String::from_str("metric_type"), value);
    let mut tag_section = String::new();
    encode_tags(tags, &mut tag_section);
    if !tag_section.as_str().is_empty() {
        push_char(line_protocol, ',');
        line_protocol.append(tag_section.as_str());
    }
    push_char(line_protocol, ' ');
    encode_fields(fields, line_protocol);
    push_char(line_protocol, ' ');
    push_signed_decimal(timestamp, line_protocol);
    push_char(line_protocol, '\n');
}

/// Relies on chrono's `From<SystemTime>` for `DateTime<Utc>` and
/// `DateTime::timestamp_nanos_opt`: the system clock in nanoseconds since the
/// epoch, negative for a clock before 1970, none where it does not fit in 64
/// bits.
#[verifier::external_body]
fn now_nanos() -> Option<i64> {
    chrono::DateTime::<chrono::Utc>::from(std::time::SystemTime::now()).timestamp_nanos_opt()
}

/// The timestamp chosen from a given one and a clock reading.
pub open spec fn chosen_timestamp(timestamp: Option<i64>, now: Option<i64>) -> i64 {
    match timestamp {
        Some(t) => t,
        None => match now {
            Some(n) => n,
            None => i64::MAX,
        },
    }
}

/// Without a given timestamp, a record takes a time no earlier than any time
/// that the clock read before: at or after `start` whenever the reading is.
pub proof fn lemma_clock_timestamp_not_before(start: i64, now: Option<i64>)
    requires
        now is Some ==> now->0 >= start,
    ensures
        chosen_timestamp(None, now) >= start,
{
}

/// The timestamp of a record: `timestamp` where given, else `now`, the clock
/// reading in nanoseconds since the epoch; a clock reading past what 64 bits
/// hold gives the largest timestamp.
pub fn timestamp_or(timestamp: Option<i64>, now: Option<i64>) -> (r: i64)
    ensures
        r == chosen_timestamp(timestamp, now),
{
    match timestamp {
        Some(t) => t,
        None => match now {
            Some(n) => n,
            None => i64::MAX,
        },
    }
}

/// The timestamp of a record in nanoseconds since the epoch: `timestamp`
/// where given, else the current time.
pub fn encode_timestamp(timestamp: Option<i64>) -> (r: i64)
    ensures
        timestamp is Some ==> r == timestamp->0,
{
    match timestamp {
        Some(t) => t,
        None => timestamp_or(None, now_nanos()),
    }
}

/// `namespace.name`, or `name` alone where the namespace is empty.
pub fn encode_namespace(namespace: &str, name: &str) -> (r: String)
    ensures
        r@ == if namespace@.len() > 0 {
            namespace@ + seq!['.'] + name@
        } else {
            name@
        },
{
    if !namespace.is_empty() {
        let mut r = String::from_str(namespace);
        push_char(&mut r, '.');
        r.append(name);
        r
    } else {
        String::from_str(name)
    }
}

} // verus!
