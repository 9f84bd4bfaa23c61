use tariff_request::date_tag::{decode_date, encode_date};
use tariff_request::decode::{decode_event, decode_gifts, decode_request};
use tariff_request::duration::{fits_tally, TimeSpan};
use tariff_request::encode::{encode_event, encode_request, EncodeError};
use tariff_request::field::{DecodeError, Field, Reason, Step};
use tariff_request::ident::{ShardUrl, UserId, UtcInstant};
use tariff_request::node::{Entry, Node};
use tariff_request::schema::{Event, Request, RequestType};

fn text(s: &str) -> Node {
    Node::Text(s.to_string())
}

fn num(x: i128) -> Node {
    Node::Int(x)
}

fn obj(entries: Vec<(&str, Node)>) -> Node {
    Node::Object(
        entries
            .into_iter()
            .map(|(k, v)| Entry { key: k.to_string(), value: v })
            .collect(),
    )
}

fn gift(id: i128, price: i128, description: &str) -> Node {
    obj(vec![("id", num(id)), ("price", num(price)), ("description", text(description))])
}

fn stream_doc() -> Node {
    obj(vec![
        ("user_id", text("8d234120-0bda-49b2-b7e0-fbd3912f6cbf")),
        ("is_private", Node::Bool(false)),
        ("settings", num(45345)),
        ("shard_url", text("https://n3.example.com/sapi")),
        (
            "public_tariff",
            obj(vec![
                ("id", num(1)),
                ("price", num(100)),
                ("duration", text("1h")),
                ("description", text("test public tariff")),
            ]),
        ),
        (
            "private_tariff",
            obj(vec![
                ("client_price", num(250)),
                ("duration", text("1m")),
                ("description", text("test private tariff")),
            ]),
        ),
    ])
}

fn debug_doc() -> Node {
    obj(vec![("duration", text("234ms")), ("at", text("2019-06-28T08:35:46+00:00"))])
}

fn request_doc_with(skip: &str, replace: Option<(&str, Node)>) -> Node {
    let mut entries = vec![
        ("type", text("success")),
        ("stream", stream_doc()),
        ("gifts", Node::List(vec![gift(1, 2, "Gift 1"), gift(2, 3, "Gift 2")])),
        ("debug", debug_doc()),
    ];
    entries.retain(|(k, _)| *k != skip);
    if let Some((key, value)) = replace {
        for entry in entries.iter_mut() {
            if entry.0 == key {
                entry.1 = value;
                break;
            }
        }
    }
    obj(entries)
}

fn request_doc() -> Node {
    request_doc_with("", None)
}

fn decode_err(doc: &Node) -> DecodeError {
    match decode_request(doc) {
        Ok(_) => panic!("the document should not decode"),
        Err(e) => e,
    }
}

fn check_scenario(request: &Request) {
    assert_eq!(
        request.stream.user_id,
        UserId::parse("8d234120-0bda-49b2-b7e0-fbd3912f6cbf").unwrap()
    );
    assert_eq!(request.debug.duration, TimeSpan::from_millis(234));
    assert_eq!(
        request.stream.shard_url.as_str(),
        ShardUrl::parse("https://n3.example.com/sapi").unwrap().as_str()
    );
    assert_eq!(request.gifts.len(), 2);
    assert_eq!(request.gifts[0].id, 1);
    assert_eq!(request.gifts[1].id, 2);
}

fn to_json(n: &Node) -> serde_json::Value {
    match n {
        Node::Null | Node::Real => serde_json::Value::Null,
        Node::Bool(b) => serde_json::Value::Bool(*b),
        Node::Int(x) => {
            if *x >= 0 {
                serde_json::Value::from(*x as u64)
            } else {
                serde_json::Value::from(*x as i64)
            }
        }
        Node::Text(s) => serde_json::Value::String(s.clone()),
        Node::List(items) => serde_json::Value::Array(items.iter().map(to_json).collect()),
        Node::Object(entries) => {
            let mut map = serde_json::Map::new();
            for e in entries {
                map.insert(e.key.clone(), to_json(&e.value));
            }
            serde_json::Value::Object(map)
        }
    }
}

fn from_json(v: &serde_json::Value) -> Node {
    match v {
        serde_json::Value::Null => Node::Null,
        serde_json::Value::Bool(b) => Node::Bool(*b),
        serde_json::Value::Number(x) => match (x.as_u64(), x.as_i64()) {
            (Some(u), _) => Node::Int(u as i128),
            (None, Some(i)) => Node::Int(i as i128),
            _ => Node::Real,
        },
        serde_json::Value::String(s) => Node::Text(s.clone()),
        serde_json::Value::Array(items) => Node::List(items.iter().map(from_json).collect()),
        serde_json::Value::Object(map) => Node::Object(
            map.iter()
                .map(|(k, v)| Entry { key: k.clone(), value: from_json(v) })
                .collect(),
        ),
    }
}

#[test]
fn test_1() {
    let request = decode_request(&request_doc()).unwrap();
    check_scenario(&request);
}

#[test]
fn decodes_every_field() {
    let r = decode_request(&request_doc()).unwrap();
    assert_eq!(r.request_type, RequestType::Success);
    assert_eq!(r.stream.user_id.value, 187604198691315523827706068946067090623u128);
    assert!(!r.stream.is_private);
    assert_eq!(r.stream.settings, 45345);
    assert_eq!(r.stream.public_tariff.id, 1);
    assert_eq!(r.stream.public_tariff.price, 100);
    assert_eq!(r.stream.public_tariff.duration, TimeSpan { secs: 3600, nanos: 0 });
    assert_eq!(r.stream.public_tariff.description, "test public tariff");
    assert_eq!(r.stream.private_tariff.client_price, 250);
    assert_eq!(r.stream.private_tariff.duration, TimeSpan { secs: 60, nanos: 0 });
    assert_eq!(r.stream.private_tariff.description, "test private tariff");
    assert_eq!(r.gifts[0].price, 2);
    assert_eq!(r.gifts[1].description, "Gift 2");
    assert_eq!(r.debug.at, UtcInstant { secs: 1561710946, nanos: 0 });
}

#[test]
fn failure_type_decodes() {
    let doc = request_doc_with("", Some(("type", text("failure"))));
    assert_eq!(decode_request(&doc).unwrap().request_type, RequestType::Failure);
}

#[test]
fn reencoded_request_decodes_to_the_same_values() {
    let first = decode_request(&request_doc()).unwrap();
    let node = encode_request(&first).unwrap();
    let second = decode_request(&node).unwrap();
    check_scenario(&second);
    assert_eq!(second.debug.at, first.debug.at);
    assert_eq!(second.stream.public_tariff.duration, first.stream.public_tariff.duration);
}

#[test]
fn yaml_round_trip_keeps_the_scenario() {
    let request = decode_request(&request_doc()).unwrap();
    let yaml = serde_yaml::to_string(&to_json(&encode_request(&request).unwrap())).unwrap();
    let back: serde_json::Value = serde_yaml::from_str(&yaml).unwrap();
    check_scenario(&decode_request(&from_json(&back)).unwrap());
}

#[test]
fn toml_round_trip_keeps_the_scenario() {
    let request = decode_request(&request_doc()).unwrap();
    let toml_text = toml::to_string(&to_json(&encode_request(&request).unwrap())).unwrap();
    let back: serde_json::Value = toml::from_str(&toml_text).unwrap();
    check_scenario(&decode_request(&from_json(&back)).unwrap());
}

#[test]
fn encoded_request_layout() {
    let request = decode_request(&request_doc()).unwrap();
    let node = encode_request(&request).unwrap();
    let entries = match &node {
        Node::Object(es) => es,
        _ => panic!("an object was expected"),
    };
    let keys: Vec<&str> = entries.iter().map(|e| e.key.as_str()).collect();
    assert_eq!(keys, vec!["type", "stream", "gifts", "debug"]);
    assert!(matches!(&entries[0].value, Node::Text(s) if s == "success"));
    match &entries[2].value {
        Node::List(items) => {
            assert_eq!(items.len(), 2);
            for (i, item) in items.iter().enumerate() {
                match item {
                    Node::Object(es) => assert!(matches!(es[0].value, Node::Int(x) if x == i as i128 + 1)),
                    _ => panic!("an object was expected"),
                }
            }
        }
        _ => panic!("a list was expected"),
    }
    match &entries[3].value {
        Node::Object(es) => {
            assert!(matches!(&es[0].value, Node::Text(s) if s == "234ms"));
            assert!(matches!(&es[1].value, Node::Text(s) if s == "2019-06-28T08:35:46Z"));
        }
        _ => panic!("an object was expected"),
    }
}

#[test]
fn missing_top_level_fields_fail() {
    for (key, field) in [
        ("type", Field::Type),
        ("stream", Field::Stream),
        ("gifts", Field::Gifts),
        ("debug", Field::DebugInfo),
    ] {
        let e = decode_err(&request_doc_with(key, None));
        assert_eq!(e.path, vec![Step::Key(field)]);
        assert_eq!(e.reason, Reason::Missing);
    }
}

#[test]
fn missing_nested_field_fails_with_its_path() {
    let tariff = obj(vec![("id", num(1)), ("price", num(100)), ("description", text("x"))]);
    let stream = match stream_doc() {
        Node::Object(mut es) => {
            es[4].value = tariff;
            Node::Object(es)
        }
        _ => unreachable!(),
    };
    let e = decode_err(&request_doc_with("", Some(("stream", stream))));
    assert_eq!(
        e.path,
        vec![Step::Key(Field::Stream), Step::Key(Field::PublicTariff), Step::Key(Field::Duration)]
    );
    assert_eq!(e.reason, Reason::Missing);
}

#[test]
fn unknown_type_token_fails() {
    for token in ["SUCCESS", "ok", "", "failed"] {
        let e = decode_err(&request_doc_with("", Some(("type", text(token)))));
        assert_eq!(e.path, vec![Step::Key(Field::Type)]);
        assert_eq!(e.reason, Reason::UnknownType);
    }
    let e = decode_err(&request_doc_with("", Some(("type", num(1)))));
    assert_eq!(e.reason, Reason::WrongShape);
}

#[test]
fn gift_order_and_duplicates_are_kept() {
    let list = Node::List(vec![gift(2, 5, "b"), gift(1, 4, "a"), gift(2, 6, "c")]);
    let gifts = decode_gifts(&list).unwrap();
    let ids: Vec<u32> = gifts.iter().map(|g| g.id).collect();
    assert_eq!(ids, vec![2, 1, 2]);
    assert_eq!(gifts[2].price, 6);
}

#[test]
fn empty_gifts_are_valid() {
    let doc = request_doc_with("", Some(("gifts", Node::List(vec![]))));
    assert_eq!(decode_request(&doc).unwrap().gifts.len(), 0);
}

#[test]
fn bad_gift_reports_its_index() {
    let list = Node::List(vec![gift(1, 2, "a"), gift(-1, 2, "b")]);
    let e = decode_err(&request_doc_with("", Some(("gifts", list))));
    assert_eq!(e.path, vec![Step::Key(Field::Gifts), Step::Item(1), Step::Key(Field::Id)]);
    assert_eq!(e.reason, Reason::WrongShape);
}

#[test]
fn integers_must_fit_in_32_bits() {
    let list = Node::List(vec![gift(1, 4294967295, "max")]);
    assert_eq!(decode_gifts(&list).unwrap()[0].price, 4294967295);
    let list = Node::List(vec![gift(1, 4294967296, "over")]);
    assert_eq!(decode_gifts(&list).unwrap_err().reason, Reason::WrongShape);
    let list = Node::List(vec![obj(vec![("id", Node::Real), ("price", num(1)), ("description", text(""))])]);
    assert_eq!(decode_gifts(&list).unwrap_err().reason, Reason::WrongShape);
}

#[test]
fn wrong_shapes_fail() {
    assert_eq!(decode_err(&Node::List(vec![])).reason, Reason::WrongShape);
    assert!(decode_err(&Node::List(vec![])).path.is_empty());
    let e = decode_err(&request_doc_with("", Some(("gifts", text("none")))));
    assert_eq!(e.path, vec![Step::Key(Field::Gifts)]);
    assert_eq!(e.reason, Reason::WrongShape);
    let e = decode_err(&request_doc_with("", Some(("stream", Node::Null))));
    assert_eq!(e.path, vec![Step::Key(Field::Stream)]);
    assert_eq!(e.reason, Reason::WrongShape);
}

fn with_stream_field(index: usize, value: Node) -> Node {
    let stream = match stream_doc() {
        Node::Object(mut es) => {
            es[index].value = value;
            Node::Object(es)
        }
        _ => unreachable!(),
    };
    request_doc_with("", Some(("stream", stream)))
}

#[test]
fn field_codec_errors_name_the_field() {
    let e = decode_err(&with_stream_field(0, text("8d234120-0bda-49b2-b7e0")));
    assert_eq!(e.path, vec![Step::Key(Field::Stream), Step::Key(Field::UserId)]);
    assert_eq!(e.reason, Reason::BadUuid);
    let e = decode_err(&with_stream_field(1, text("false")));
    assert_eq!(e.reason, Reason::WrongShape);
    let e = decode_err(&with_stream_field(3, text("not a url")));
    assert_eq!(e.path, vec![Step::Key(Field::Stream), Step::Key(Field::ShardUrl)]);
    assert_eq!(e.reason, Reason::BadUrl);
    let debug = obj(vec![("duration", text("soon")), ("at", text("2019-06-28T08:35:46+00:00"))]);
    let e = decode_err(&request_doc_with("", Some(("debug", debug))));
    assert_eq!(e.path, vec![Step::Key(Field::DebugInfo), Step::Key(Field::Duration)]);
    assert_eq!(e.reason, Reason::BadDuration);
    let debug = obj(vec![("duration", text("1s")), ("at", text("2019-06-28"))]);
    let e = decode_err(&request_doc_with("", Some(("debug", debug))));
    assert_eq!(e.path, vec![Step::Key(Field::DebugInfo), Step::Key(Field::At)]);
    assert_eq!(e.reason, Reason::BadTimestamp);
}

#[test]
fn durations_parse_exactly() {
    assert_eq!(TimeSpan::parse("233ms"), Some(TimeSpan { secs: 0, nanos: 233_000_000 }));
    assert_eq!(TimeSpan::parse("1h"), Some(TimeSpan { secs: 3600, nanos: 0 }));
    assert_eq!(TimeSpan::parse("2days"), Some(TimeSpan { secs: 172800, nanos: 0 }));
    assert_eq!(TimeSpan::parse("1h 30m 5s 7ms"), Some(TimeSpan { secs: 5405, nanos: 7_000_000 }));
    assert_eq!(TimeSpan::parse("1d"), Some(TimeSpan { secs: 86400, nanos: 0 }));
    assert_eq!(TimeSpan::parse("12"), None);
    assert_eq!(TimeSpan::parse("abc"), None);
    assert_eq!(TimeSpan::from_millis(1234), TimeSpan { secs: 1, nanos: 234_000_000 });
}

#[test]
fn duration_round_trip() {
    for expr in ["233ms", "1h", "2days", "90m", "1h 30m 5s 7ms", "3us", "0s"] {
        let first = TimeSpan::parse(expr).unwrap();
        let written = first.to_text();
        assert_eq!(TimeSpan::parse(&written), Some(first));
    }
    assert_eq!(TimeSpan { secs: 5400, nanos: 0 }.to_text(), "1h 30m");
    assert_eq!(TimeSpan { secs: 0, nanos: 234_000_000 }.to_text(), "234ms");
}

#[test]
fn uuid_forms() {
    let u = UserId::parse("8D234120-0BDA-49B2-B7E0-FBD3912F6CBF").unwrap();
    assert_eq!(u.value, 187604198691315523827706068946067090623u128);
    assert_eq!(u.to_text(), "8d234120-0bda-49b2-b7e0-fbd3912f6cbf");
    assert_eq!(UserId::parse("8d2341200bda49b2b7e0fbd3912f6cbf"), Some(u));
    assert_eq!(UserId::parse("8d234120-0bda-49b2-b7e0-fbd3912f6cbz"), None);
    assert_eq!(UserId { value: 1 }.to_text(), "00000000-0000-0000-0000-000000000001");
}

#[test]
fn url_forms() {
    assert_eq!(ShardUrl::parse("HTTPS://N3.Example.com").unwrap().as_str(), "https://n3.example.com/");
    assert!(ShardUrl::parse("/relative/path").is_none());
    assert!(ShardUrl::parse("not a url").is_none());
}

#[test]
fn instants_normalise_to_utc() {
    let t = UtcInstant::parse("2021-11-14T10:00:00+02:00").unwrap();
    assert_eq!(t, UtcInstant { secs: 1636876800, nanos: 0 });
    assert_eq!(t.to_text().unwrap(), "2021-11-14T08:00:00Z");
    let t = UtcInstant::parse("2023-05-01T12:30:15.250Z").unwrap();
    assert_eq!(t, UtcInstant { secs: 1682944215, nanos: 250_000_000 });
    assert_eq!(t.to_text().unwrap(), "2023-05-01T12:30:15.250Z");
    assert_eq!(UtcInstant::parse("yesterday"), None);
    assert_eq!(UtcInstant { secs: i64::MAX, nanos: 0 }.to_text(), None);
}

#[test]
fn unencodable_timestamp_fails() {
    let mut request = decode_request(&request_doc()).unwrap();
    request.debug.at = UtcInstant { secs: i64::MAX, nanos: 0 };
    assert_eq!(encode_request(&request).unwrap_err(), EncodeError::TimestampOutOfRange);
}

#[test]
fn date_tag_codec() {
    assert_eq!(encode_date("2021-11-14"), "Date: 2021-11-14");
    assert_eq!(decode_date("Date: 2021-11-14"), "2021-11-14");
    assert_eq!(decode_date("2021-11-14"), "2021-11-14");
    assert_eq!(decode_date("Date:2021"), "Date:2021");
    assert_eq!(decode_date(""), "");
    for s in ["", "x", "Date: ", "Date: Date: 1", "2021 Date: 1"] {
        assert_eq!(decode_date(&encode_date(s)), s);
    }
}

#[test]
fn event_round_trip() {
    let event = Event { name: "Event 1".to_string(), date: "2021-11-14".to_string() };
    let node = encode_event(&event);
    match &node {
        Node::Object(es) => assert!(matches!(&es[1].value, Node::Text(s) if s == "Date: 2021-11-14")),
        _ => panic!("an object was expected"),
    }
    let back = decode_event(&node).unwrap();
    assert_eq!(back.name, "Event 1");
    assert_eq!(back.date, "2021-11-14");
    let untagged = obj(vec![("name", text("E")), ("date", text("2020-01-01"))]);
    assert_eq!(decode_event(&untagged).unwrap().date, "2020-01-01");
    let missing = obj(vec![("name", text("E"))]);
    assert_eq!(decode_event(&missing).unwrap_err().path, vec![Step::Key(Field::Date)]);
}

#[test]
fn duration_tally_values() {
    assert!(fits_tally("1h"));
    assert!(fits_tally(""));
    assert!(fits_tally("1h 30m 5s 7ms"));
    assert!(fits_tally("1000000000000ns"));
    assert!(fits_tally("600000000000ms"));
    assert!(fits_tally("584542046089y"));
    assert!(!fits_tally("584542046090y"));
    assert!(!fits_tally("18446744073709551615s 1000000000ns"));
    assert!(!fits_tally("18446744073709551615s1000ms"));
    assert!(!fits_tally("1 8 4 4 6 7 4 4 0 7 3 7 0 9 5 5 1 6 1 5s 1 0 0 0ms"));
    assert!(!fits_tally("1\u{a0}s"));
    assert!(fits_tally("3µs"));
}

#[test]
fn overflowing_durations_are_refused() {
    assert_eq!(TimeSpan::read("18446744073709551615s 1000000000ns"), None);
    assert_eq!(TimeSpan::read("18446744073709551615s1000ms"), None);
    assert_eq!(TimeSpan::read("1 8 4 4 6 7 4 4 0 7 3 7 0 9 5 5 1 6 1 5s 1 0 0 0ms"), None);
    assert_eq!(TimeSpan::read("233ms"), Some(TimeSpan { secs: 0, nanos: 233_000_000 }));
    assert_eq!(TimeSpan::read("2 3 3ms"), Some(TimeSpan { secs: 0, nanos: 233_000_000 }));
    assert_eq!(TimeSpan::read("1000000000000ns"), Some(TimeSpan { secs: 1000, nanos: 0 }));
    assert_eq!(TimeSpan::read("soon"), None);
    let too_long = TimeSpan { secs: u64::MAX, nanos: 0 }.to_text();
    assert_eq!(TimeSpan::read(&too_long), None);
    let debug = obj(vec![
        ("duration", text("18446744073709551615s1000ms")),
        ("at", text("2019-06-28T08:35:46+00:00")),
    ]);
    let e = decode_err(&request_doc_with("", Some(("debug", debug))));
    assert_eq!(e.path, vec![Step::Key(Field::DebugInfo), Step::Key(Field::Duration)]);
    assert_eq!(e.reason, Reason::BadDuration);
}

#[test]
fn read_durations_read_back_after_writing() {
    for expr in ["499999999998y", "584542046089y", "1h 30m", "1000000000000ns", "1.5h", "0"] {
        let first = TimeSpan::read(expr).unwrap();
        assert_eq!(TimeSpan::read(&first.to_text()), Some(first));
    }
    let debug = obj(vec![("duration", text("499999999998y")), ("at", text("2019-06-28T08:35:46Z"))]);
    let request = decode_request(&request_doc_with("", Some(("debug", debug)))).unwrap();
    let again = decode_request(&encode_request(&request).unwrap()).unwrap();
    assert_eq!(again.debug.duration, request.debug.duration);
}

#[test]
fn decoded_request_always_encodes() {
    let doc = request_doc_with(
        "",
        Some(("debug", obj(vec![("duration", text("1s")), ("at", text("+262142-12-31T23:59:59Z"))]))),
    );
    let request = decode_request(&doc).unwrap();
    assert!(encode_request(&request).is_ok());
}
