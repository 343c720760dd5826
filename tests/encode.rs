use chrono::TimeZone;
use influxdb_sink::{
    encode_fields, encode_namespace, encode_string, encode_tags, encode_timestamp,
    influx_line_protocol, timestamp_or, Field, SortedMap,
};

fn tags() -> SortedMap<String> {
    let mut tags = SortedMap::new();
    tags.insert("normal_tag".to_owned(), "value".to_owned());
    tags.insert("true_tag".to_owned(), "true".to_owned());
    tags.insert("empty_tag".to_owned(), "".to_owned());
    tags
}

fn assert_fields(value: String, fields: Vec<&str>) {
    let encoded_fields: Vec<&str> = value.split(',').collect();

    assert_eq!(fields.len(), encoded_fields.len());

    for field in fields.into_iter() {
        assert!(
            encoded_fields.contains(&field),
            "Fields: {} has to have: {}",
            value,
            field
        )
    }
}

#[test]
fn test_encode_tags() {
    let mut value = String::new();
    encode_tags(tags(), &mut value);

    assert_eq!(value, "normal_tag=value,true_tag=true");

    let mut tags_to_escape = SortedMap::new();
    tags_to_escape.insert("tag".to_owned(), "val=ue".to_owned());
    tags_to_escape.insert("name escape".to_owned(), "true".to_owned());
    tags_to_escape.insert("value_escape".to_owned(), "value escape".to_owned());
    tags_to_escape.insert("a_first_place".to_owned(), "10".to_owned());

    let mut value = String::new();
    encode_tags(tags_to_escape, &mut value);
    assert_eq!(
        value,
        "a_first_place=10,name\\ escape=true,tag=val\\=ue,value_escape=value\\ escape"
    );
}

#[test]
fn test_encode_fields() {
    let mut fields = SortedMap::new();
    fields.insert(
        "field_string".to_owned(),
        Field::String("string value".to_owned()),
    );
    fields.insert(
        "field_string_escape".to_owned(),
        Field::String("string\\val\"ue".to_owned()),
    );
    fields.insert("field_float".to_owned(), Field::Float(123.45f64.to_string()));
    fields.insert("field_unsigned_int".to_owned(), Field::UnsignedInt(657));
    fields.insert("field_int".to_owned(), Field::Int(657646));
    fields.insert("field_bool_true".to_owned(), Field::Bool(true));
    fields.insert("field_bool_false".to_owned(), Field::Bool(false));
    fields.insert("escape key".to_owned(), Field::Float(10.0f64.to_string()));

    let mut value = String::new();
    encode_fields(fields, &mut value);
    assert_fields(
        value,
        [
            "escape\\ key=10",
            "field_float=123.45",
            "field_string=\"string value\"",
            "field_string_escape=\"string\\\\val\\\"ue\"",
            "field_unsigned_int=657u",
            "field_int=657646i",
            "field_bool_true=true",
            "field_bool_false=false",
        ]
        .to_vec(),
    )
}

#[test]
fn test_encode_string() {
    let mut value = String::new();
    encode_string("measurement_name".to_string(), &mut value);
    assert_eq!(value, "measurement_name");

    let mut value = String::new();
    encode_string("measurement name".to_string(), &mut value);
    assert_eq!(value, "measurement\\ name");

    let mut value = String::new();
    encode_string("measurement=name".to_string(), &mut value);
    assert_eq!(value, "measurement\\=name");

    let mut value = String::new();
    encode_string("measurement,name".to_string(), &mut value);
    assert_eq!(value, "measurement\\,name");
}

#[test]
fn test_encode_timestamp() {
    let ts = chrono::Utc
        .with_ymd_and_hms(2018, 11, 14, 8, 9, 10)
        .unwrap()
        .timestamp_nanos_opt()
        .unwrap()
        + 11;
    let start = chrono::Utc::now().timestamp_nanos_opt().unwrap();
    assert_eq!(encode_timestamp(Some(ts)), 1542182950000000011);
    assert!(encode_timestamp(None) >= start)
}

#[test]
fn test_encode_namespace() {
    assert_eq!(encode_namespace("services", "status"), "services.status");
    assert_eq!(encode_namespace("", "status"), "status")
}

#[test]
fn encode_string_escapes_backslash() {
    let mut value = String::new();
    encode_string("a\\b c".to_string(), &mut value);
    assert_eq!(value, "a\\\\b\\ c");
}

#[test]
fn encode_string_appends_to_output() {
    let mut value = "prefix:".to_string();
    encode_string("x=y".to_string(), &mut value);
    assert_eq!(value, "prefix:x\\=y");
}

#[test]
fn encode_tags_empty_gives_nothing() {
    let mut value = String::new();
    encode_tags(SortedMap::new(), &mut value);
    assert_eq!(value, "");

    let mut only_empty = SortedMap::new();
    only_empty.insert("".to_owned(), "v".to_owned());
    only_empty.insert("k".to_owned(), "".to_owned());
    let mut value = String::new();
    encode_tags(only_empty, &mut value);
    assert_eq!(value, "");
}

#[test]
fn sorted_map_insert_replaces_equal_key() {
    let mut m = SortedMap::new();
    m.insert("b".to_owned(), "1".to_owned());
    m.insert("a".to_owned(), "2".to_owned());
    m.insert("b".to_owned(), "3".to_owned());
    assert_eq!(m.len(), 2);
    assert_eq!(m.key(0), "a");
    assert_eq!(m.value(0), "2");
    assert_eq!(m.key(1), "b");
    assert_eq!(m.value(1), "3");
}

#[test]
fn sorted_map_orders_prefix_first() {
    let mut m = SortedMap::new();
    m.insert("ab".to_owned(), 1u32);
    m.insert("a".to_owned(), 2u32);
    m.insert("B".to_owned(), 3u32);
    assert_eq!(m.key(0), "B");
    assert_eq!(m.key(1), "a");
    assert_eq!(m.key(2), "ab");
}

#[test]
fn field_value_suffixes() {
    let mut fields = SortedMap::new();
    fields.insert("u".to_owned(), Field::UnsignedInt(657));
    let mut value = String::new();
    encode_fields(fields, &mut value);
    assert_eq!(value, "u=657u");

    let mut fields = SortedMap::new();
    fields.insert("i".to_owned(), Field::Int(-9223372036854775808));
    fields.insert("j".to_owned(), Field::Int(0));
    let mut value = String::new();
    encode_fields(fields, &mut value);
    assert_eq!(value, "i=-9223372036854775808i,j=0i");

    let mut fields = SortedMap::new();
    fields.insert("t".to_owned(), Field::Bool(true));
    fields.insert("f".to_owned(), Field::Bool(false));
    let mut value = String::new();
    encode_fields(fields, &mut value);
    assert_eq!(value, "f=false,t=true");
}

#[test]
fn line_protocol_whole_line() {
    let mut fields = SortedMap::new();
    fields.insert("value".to_owned(), Field::Float(1.5f64.to_string()));
    fields.insert("count".to_owned(), Field::UnsignedInt(8));
    let mut line = String::new();
    influx_line_protocol(
        "ns.requests".to_owned(),
        "distribution",
        Some(tags()),
        Some(fields),
        1542182950000000011,
        &mut line,
    );
    assert_eq!(
        line,
        "ns.requests,metric_type=distribution,normal_tag=value,true_tag=true count=8u,value=1.5 1542182950000000011\n"
    );
}

#[test]
fn line_protocol_metric_type_overrides_tag() {
    let mut tags = SortedMap::new();
    tags.insert("metric_type".to_owned(), "gauge".to_owned());
    let mut fields = SortedMap::new();
    fields.insert("v".to_owned(), Field::Int(-3));
    let mut line = "x\n".to_string();
    influx_line_protocol("my metric".to_owned(), "counter", Some(tags), Some(fields), -5, &mut line);
    assert_eq!(line, "x\nmy\\ metric,metric_type=counter v=-3i -5\n");
}

#[test]
fn line_protocol_without_fields_gives_nothing() {
    let mut line = String::new();
    influx_line_protocol("m".to_owned(), "gauge", Some(tags()), None, 1, &mut line);
    assert_eq!(line, "");
    influx_line_protocol("m".to_owned(), "gauge", None, Some(SortedMap::new()), 1, &mut line);
    assert_eq!(line, "");
}

#[test]
fn timestamp_falls_back_to_clock() {
    assert_eq!(timestamp_or(Some(7), Some(9)), 7);
    assert_eq!(timestamp_or(None, Some(9)), 9);
    assert_eq!(timestamp_or(None, None), i64::MAX);
}

#[test]
fn line_protocol_without_tags_has_no_comma() {
    let mut only_empty = SortedMap::new();
    only_empty.insert("k".to_owned(), "".to_owned());
    let mut fields = SortedMap::new();
    fields.insert("f".to_owned(), Field::Int(1));
    let mut line = String::new();
    influx_line_protocol("m".to_owned(), "", Some(only_empty), Some(fields), 5, &mut line);
    assert_eq!(line, "m f=1i 5\n");
}
