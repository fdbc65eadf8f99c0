use cms_types::clock::{Date, OffsetDateTime, Time, UtcOffset};
use cms_types::error::{Shape, ValueError};
use cms_types::field_value::SchematicFieldValue;
use cms_types::filter::{FilterConditionType, FilterValue};
use cms_types::id::Uuid;
use cms_types::json::{Json, JsonNumber};
use cms_types::link::Url;
use cms_types::value::{Number, SimpleValue};

fn json(text: &str) -> Json {
    Json::parse(text).unwrap()
}

fn moment() -> OffsetDateTime {
    OffsetDateTime::new(
        Date::new(2024, 3, 1).unwrap(),
        Time::new(9, 5, 7, 120_000_000).unwrap(),
        UtcOffset::new(-2, -30, 0).unwrap(),
    )
}

fn every_field_value() -> Vec<(SchematicFieldValue, &'static str)> {
    vec![
        (
            SchematicFieldValue::Text("a\"b".to_string()),
            r#"{"type":"Text","value":"a\"b"}"#,
        ),
        (
            SchematicFieldValue::Number(Number::Integer(-12)),
            r#"{"type":"Number","value":-12}"#,
        ),
        (
            SchematicFieldValue::Number(Number::Float(2.5f64.to_bits())),
            r#"{"type":"Number","value":2.5}"#,
        ),
        (
            SchematicFieldValue::Boolean(true),
            r#"{"type":"Boolean","value":true}"#,
        ),
        (
            SchematicFieldValue::Url(Url::parse("https://example.com/a?b#c").unwrap()),
            r#"{"type":"Url","value":"https://example.com/a?b#c"}"#,
        ),
        (
            SchematicFieldValue::Email("e@x".to_string()),
            r#"{"type":"Email","value":"e@x"}"#,
        ),
        (
            SchematicFieldValue::Phone("1".to_string()),
            r#"{"type":"Phone","value":"1"}"#,
        ),
        (
            SchematicFieldValue::Address("s".to_string()),
            r#"{"type":"Address","value":"s"}"#,
        ),
        (
            SchematicFieldValue::DateTime(moment()),
            r#"{"type":"DateTime","value":[2024,61,9,5,7,120000000,-2,-30,0]}"#,
        ),
        (
            SchematicFieldValue::Date(Date::new(-44, 3, 15).unwrap()),
            r#"{"type":"Date","value":[-44,75]}"#,
        ),
        (
            SchematicFieldValue::Time(Time::new(23, 59, 59, 1).unwrap()),
            r#"{"type":"Time","value":[23,59,59,1]}"#,
        ),
        (
            SchematicFieldValue::Reference(Uuid(0x550e8400_e29b_41d4_a716_446655440000)),
            r#"{"type":"Reference","value":"550e8400-e29b-41d4-a716-446655440000"}"#,
        ),
        (
            SchematicFieldValue::MultiReference(vec![Uuid(1), Uuid(u128::MAX)]),
            r#"{"type":"MultiReference","value":["00000000-0000-0000-0000-000000000001","ffffffff-ffff-ffff-ffff-ffffffffffff"]}"#,
        ),
        (
            SchematicFieldValue::MultiReference(vec![]),
            r#"{"type":"MultiReference","value":[]}"#,
        ),
        (
            SchematicFieldValue::ListString(vec!["a".to_string(), "".to_string()]),
            r#"{"type":"ListString","value":["a",""]}"#,
        ),
        (
            SchematicFieldValue::ListNumber(vec![Number::Byte(7), Number::Integer(300)]),
            r#"{"type":"ListNumber","value":[7,300]}"#,
        ),
        (
            SchematicFieldValue::Array(vec![Json::Null, Json::Array(vec![])]),
            r#"{"type":"Array","value":[null,[]]}"#,
        ),
        (
            SchematicFieldValue::Object(json(r#"{"k":{"n":[1,2.5,"x"]}}"#)),
            r#"{"type":"Object","value":{"k":{"n":[1,2.5,"x"]}}}"#,
        ),
        (
            SchematicFieldValue::Object(Json::Null),
            r#"{"type":"Object","value":null}"#,
        ),
    ]
}

type V = SchematicFieldValue;

fn same(a: &SchematicFieldValue, b: &SchematicFieldValue) -> bool {
    match (a, b) {
        (V::Text(x), V::Text(y)) => x == y,
        (V::Number(x), V::Number(y)) => x == y,
        (V::Boolean(x), V::Boolean(y)) => x == y,
        (V::Url(x), V::Url(y)) => x == y,
        (V::Email(x), V::Email(y)) => x == y,
        (V::Phone(x), V::Phone(y)) => x == y,
        (V::Address(x), V::Address(y)) => x == y,
        (V::DateTime(x), V::DateTime(y)) => x == y,
        (V::Date(x), V::Date(y)) => x == y,
        (V::Time(x), V::Time(y)) => x == y,
        (V::Reference(x), V::Reference(y)) => x == y,
        (V::MultiReference(x), V::MultiReference(y)) => x == y,
        (V::ListString(x), V::ListString(y)) => x == y,
        (V::ListNumber(x), V::ListNumber(y)) => x == y,
        (V::Array(x), V::Array(y)) => x == y,
        (V::Object(x), V::Object(y)) => x == y,
        _ => false,
    }
}

#[test]
fn tagged_form_of_every_variant() {
    for (value, text) in every_field_value() {
        assert_eq!(value.to_wire(), json(text), "{value:?}");
    }
}

#[test]
fn tagged_form_round_trip_of_every_variant() {
    for (value, text) in every_field_value() {
        assert!(value.reads_back(), "{value:?}");
        let back = SchematicFieldValue::from_wire(&value.to_wire()).unwrap();
        assert!(same(&value, &back), "{value:?} against {back:?}");
        let read = SchematicFieldValue::from_wire(&json(text)).unwrap();
        assert!(same(&value, &read), "{value:?} against {read:?}");
    }
}

#[test]
fn tagged_form_reads_a_small_whole_number_as_a_byte() {
    let value = SchematicFieldValue::Number(Number::Integer(5));
    let back = SchematicFieldValue::from_wire(&value.to_wire()).unwrap();
    assert!(matches!(back, SchematicFieldValue::Number(Number::Byte(5))));
    assert!(same(&value, &back));
}

#[test]
fn tagged_form_of_a_number_that_is_not_finite_does_not_read_back() {
    for x in [f64::NAN, f64::INFINITY, f64::NEG_INFINITY] {
        let value = SchematicFieldValue::Number(Number::Float(x.to_bits()));
        assert!(!value.reads_back());
        assert_eq!(value.to_wire(), json(r#"{"type":"Number","value":null}"#));
        assert_eq!(
            SchematicFieldValue::from_wire(&value.to_wire()).err(),
            Some(ValueError::Decode)
        );
        let list = SchematicFieldValue::ListNumber(vec![Number::Byte(1), Number::Float(x.to_bits())]);
        assert!(!list.reads_back());
        assert_eq!(
            SchematicFieldValue::from_wire(&list.to_wire()).err(),
            Some(ValueError::Decode)
        );
    }
}

#[test]
fn tagged_form_refuses_what_is_not_one() {
    for text in [
        "null",
        "[]",
        "{}",
        r#"{"type":"Text"}"#,
        r#"{"value":"a"}"#,
        r#"{"type":"text","value":"a"}"#,
        r#"{"type":"Nope","value":"a"}"#,
        r#"{"type":1,"value":"a"}"#,
        r#"{"type":"Text","value":1}"#,
        r#"{"type":"Number","value":"1"}"#,
        r#"{"type":"Boolean","value":"true"}"#,
        r#"{"type":"Url","value":"no scheme"}"#,
        r#"{"type":"Email","value":null}"#,
        r#"{"type":"DateTime","value":[2024,61,9,5,7,120000000,-2,-30]}"#,
        r#"{"type":"DateTime","value":[2024,61,9,5,7,120000000,26,0,0]}"#,
        r#"{"type":"Date","value":[2023,366]}"#,
        r#"{"type":"Date","value":[2024,0]}"#,
        r#"{"type":"Date","value":[2024.0,1]}"#,
        r#"{"type":"Date","value":"2024-01-01"}"#,
        r#"{"type":"Time","value":[24,0,0,0]}"#,
        r#"{"type":"Time","value":[1,2,3]}"#,
        r#"{"type":"Reference","value":"nope"}"#,
        r#"{"type":"MultiReference","value":["nope"]}"#,
        r#"{"type":"MultiReference","value":"550e8400-e29b-41d4-a716-446655440000"}"#,
        r#"{"type":"ListString","value":["a",1]}"#,
        r#"{"type":"ListNumber","value":[1,"a"]}"#,
        r#"{"type":"Array","value":{}}"#,
    ] {
        assert_eq!(
            SchematicFieldValue::from_wire(&json(text)).err(),
            Some(ValueError::Decode),
            "{text}"
        );
    }
    let v = SchematicFieldValue::from_wire(&json(r#"{"value":"a","type":"Text","more":1}"#)).unwrap();
    assert_eq!(v.try_as_text(), Ok("a".to_string()));
}

#[test]
fn payloads_are_what_serde_writes_for_the_outside_types() {
    fn tree(value: serde_json::Value) -> Json {
        Json::parse(&value.to_string()).unwrap()
    }
    let u = uuid::Uuid::from_u128(0x550e8400_e29b_41d4_a716_446655440000);
    assert_eq!(
        SchematicFieldValue::Reference(Uuid(u.as_u128())).to_payload(),
        tree(serde_json::to_value(u).unwrap())
    );
    let link = url::Url::parse("https://example.com/a b").unwrap();
    assert_eq!(
        SchematicFieldValue::Url(Url::parse("https://example.com/a b").unwrap()).to_payload(),
        tree(serde_json::to_value(&link).unwrap())
    );
    let theirs = time::PrimitiveDateTime::new(
        time::Date::from_calendar_date(2024, time::Month::March, 1).unwrap(),
        time::Time::from_hms_nano(9, 5, 7, 120_000_000).unwrap(),
    )
    .assume_offset(time::UtcOffset::from_hms(-2, -30, 0).unwrap());
    assert_eq!(
        SchematicFieldValue::DateTime(moment()).to_payload(),
        tree(serde_json::to_value(theirs).unwrap())
    );
    assert_eq!(
        SchematicFieldValue::Date(moment().date()).to_payload(),
        tree(serde_json::to_value(theirs.date()).unwrap())
    );
    assert_eq!(
        SchematicFieldValue::Time(moment().time()).to_payload(),
        tree(serde_json::to_value(theirs.time()).unwrap())
    );
}

#[test]
fn dates_and_times_are_read_from_json_as_the_time_crate_reads_them() {
    let arrays = [
        "[2024,1]",
        "[2024,366]",
        "[2023,366]",
        "[2023,365]",
        "[2024,0]",
        "[-9999,1]",
        "[9999,365]",
        "[10000,1]",
        "[-10000,1]",
        "[0,60]",
        "[1900,60]",
        "[2024,60]",
        "[2024,61]",
        "[2024,59]",
        "[2024,335]",
        "[2024,336]",
        "[2024,1,1]",
        "[2024]",
        "[]",
        "[2024,1.0]",
        "[\"2024\",1]",
        "[2024,-1]",
        "[2147483648,1]",
        "[2024,70000]",
        "[0,0,0,0]",
        "[23,59,59,999999999]",
        "[24,0,0,0]",
        "[0,60,0,0]",
        "[0,0,60,0]",
        "[0,0,0,1000000000]",
        "[0,0,0,-1]",
        "[256,0,0,0]",
        "[1,2,3,4,5]",
        "[2024,61,9,5,7,120000000,-2,-30,0]",
        "[2024,61,9,5,7,120000000,2,30,0]",
        "[2024,61,9,5,7,120000000,2,-30,10]",
        "[2024,61,9,5,7,120000000,-2,30,-10]",
        "[2024,61,9,5,7,120000000,0,-30,10]",
        "[2024,61,9,5,7,120000000,0,0,0]",
        "[2024,61,9,5,7,120000000,25,59,59]",
        "[2024,61,9,5,7,120000000,26,0,0]",
        "[2024,61,9,5,7,120000000,0,60,0]",
        "[2024,61,9,5,7,120000000,0,0,200]",
        "[2024,61,9,5,7,120000000,0,0]",
        "[2024,367,9,5,7,120000000,0,0,0]",
        "[2024,61,24,5,7,120000000,0,0,0]",
        "[2024,61,9,5,7,120000000,0,0,0,0]",
    ];
    for text in arrays {
        let ours = json(text);
        let value: serde_json::Value = serde_json::from_str(text).unwrap();
        let date = serde_json::from_value::<time::Date>(value.clone()).ok();
        assert_eq!(
            Date::from_json(&ours).map(|d| d.to_text()),
            date.map(|d| d.to_string()),
            "{text}"
        );
        let time = serde_json::from_value::<time::Time>(value.clone()).ok();
        assert_eq!(
            Time::from_json(&ours).map(|t| t.to_text()),
            time.map(|t| t.to_string()),
            "{text}"
        );
        let moment = serde_json::from_value::<time::OffsetDateTime>(value.clone()).ok();
        assert_eq!(
            OffsetDateTime::from_json(&ours).map(|m| m.to_text()),
            moment.map(|m| m.to_string()),
            "{text}"
        );
    }
    assert_eq!(Date::from_json(&Json::Null), None);
    assert_eq!(Date::from_ordinal(2024, 60), Date::new(2024, 2, 29));
    assert_eq!(Date::from_ordinal(2023, 60), Date::new(2023, 3, 1));
    assert_eq!(Date::from_ordinal(2023, 366), None);
    assert_eq!(UtcOffset::from_hms(1, -30, 10), UtcOffset::new(1, 30, 10));
    assert_eq!(UtcOffset::from_hms(-1, 30, 10), UtcOffset::new(-1, -30, -10));
    assert_eq!(UtcOffset::from_hms(0, -30, 10), UtcOffset::new(0, -30, -10));
    assert_eq!(UtcOffset::from_hms(26, 0, 0), None);
}

#[test]
fn every_ordinal_gives_the_date_of_the_time_crate() {
    for year in [-9999, -1, 0, 1900, 2000, 2023, 2024, 9999] {
        for ordinal in 0u16..=367 {
            let theirs = time::Date::from_ordinal_date(year, ordinal).ok();
            let ours = Date::from_ordinal(year, ordinal);
            assert_eq!(
                ours.map(|d| d.to_text()),
                theirs.map(|d| d.to_string()),
                "{year} {ordinal}"
            );
            if let Some(date) = ours {
                assert_eq!(date.ordinal(), ordinal);
            }
        }
    }
}

#[test]
fn loose_values_are_read_in_the_order_of_their_variants() {
    assert_eq!(SimpleValue::from_json(&json("\"a\"")), SimpleValue::Text("a".to_string()));
    assert_eq!(SimpleValue::from_json(&json("5")), SimpleValue::Number(Number::Byte(5)));
    assert!(matches!(
        SimpleValue::from_json(&json("5")),
        SimpleValue::Number(Number::Byte(5))
    ));
    assert!(matches!(
        SimpleValue::from_json(&json("-5")),
        SimpleValue::Number(Number::Integer(-5))
    ));
    assert!(matches!(
        SimpleValue::from_json(&json("5.0")),
        SimpleValue::Number(Number::Float(_))
    ));
    assert_eq!(SimpleValue::from_json(&json("true")), SimpleValue::Boolean(true));
    assert_eq!(
        SimpleValue::from_json(&json("[2024,61,9,5,7,120000000,-2,-30,0]")),
        SimpleValue::DateTime(moment())
    );
    assert_eq!(
        SimpleValue::from_json(&json("[2024,15]")),
        SimpleValue::Date(Date::new(2024, 1, 15).unwrap())
    );
    assert_eq!(
        SimpleValue::from_json(&json("[1,2]")),
        SimpleValue::Date(Date::new(1, 1, 2).unwrap())
    );
    assert_eq!(
        SimpleValue::from_json(&json("[1,2,3,4]")),
        SimpleValue::Time(Time::new(1, 2, 3, 4).unwrap())
    );
    assert_eq!(SimpleValue::from_json(&json("[]")), SimpleValue::ListString(vec![]));
    assert_eq!(
        SimpleValue::from_json(&json("[\"a\",\"b\"]")),
        SimpleValue::ListString(vec!["a".to_string(), "b".to_string()])
    );
    assert!(matches!(
        SimpleValue::from_json(&json("[1,400]")),
        SimpleValue::ListNumber(l) if l.len() == 2
    ));
    assert!(matches!(
        SimpleValue::from_json(&json("[1,2.5,-3]")),
        SimpleValue::ListNumber(l) if matches!(l[..], [Number::Byte(1), Number::Float(_), Number::Integer(-3)])
    ));
    assert_eq!(
        SimpleValue::from_json(&json("[1,\"a\"]")),
        SimpleValue::ArrayUnknown(vec![
            Json::Number(JsonNumber::PosInt(1)),
            Json::Text("a".to_string())
        ])
    );
    assert_eq!(
        SimpleValue::from_json(&json("[null]")),
        SimpleValue::ArrayUnknown(vec![Json::Null])
    );
    assert_eq!(SimpleValue::from_json(&json("null")), SimpleValue::ObjectUnknown(Json::Null));
    assert_eq!(
        SimpleValue::from_json(&json("{\"a\":1}")),
        SimpleValue::ObjectUnknown(json("{\"a\":1}"))
    );
    for v in [
        SimpleValue::Text("x".to_string()),
        SimpleValue::Boolean(false),
        SimpleValue::DateTime(moment()),
        SimpleValue::Date(moment().date()),
        SimpleValue::Time(moment().time()),
        SimpleValue::ListString(vec!["q".to_string()]),
        SimpleValue::ObjectUnknown(json("{\"a\":[1]}")),
    ] {
        assert_eq!(SimpleValue::from_json(&v.to_json()), v);
    }
}

#[test]
fn filter_values_as_json() {
    let values = vec![
        (FilterValue::Number(Number::Integer(-3)), "-3"),
        (FilterValue::Text("a".to_string()), "\"a\""),
        (FilterValue::IdList(vec![]), "[]"),
        (FilterValue::IdList(vec!["a".to_string(), "b".to_string()]), "[\"a\",\"b\"]"),
        (FilterValue::Range((Number::Byte(1), Number::Integer(-2))), "[1,-2]"),
        (
            FilterValue::Range((Number::Float(0.5f64.to_bits()), Number::Integer(300))),
            "[0.5,300]",
        ),
    ];
    for (value, text) in values {
        assert_eq!(value.to_json(), json(text));
        let back = FilterValue::from_json(&json(text)).unwrap();
        assert_eq!(back.to_json(), json(text));
        assert_eq!(back.is_range(), value.is_range());
        assert_eq!(back.to_text().ok(), value.to_text().ok());
    }
    for text in ["null", "true", "{}", "[1]", "[1,2,3]", "[1,\"a\"]", "[[1,2]]"] {
        assert!(FilterValue::from_json(&json(text)).is_none(), "{text}");
    }
    assert_eq!(FilterConditionType::from_name("between"), Some(FilterConditionType::Between));
    assert_eq!(FilterConditionType::from_name("gt"), Some(FilterConditionType::Gt));
    assert_eq!(FilterConditionType::from_name("gte"), Some(FilterConditionType::Gte));
    assert_eq!(FilterConditionType::from_name("GT"), None);
    for c in [
        FilterConditionType::Eq,
        FilterConditionType::Neq,
        FilterConditionType::Cont,
        FilterConditionType::Dnc,
        FilterConditionType::Gte,
        FilterConditionType::Gt,
        FilterConditionType::Lte,
        FilterConditionType::Lt,
        FilterConditionType::Between,
    ] {
        assert_eq!(FilterConditionType::from_name(c.as_name()), Some(c));
    }
}

#[test]
fn shapes_and_tags() {
    for shape in [
        Shape::Text,
        Shape::Number,
        Shape::Boolean,
        Shape::Url,
        Shape::Email,
        Shape::Phone,
        Shape::Address,
        Shape::DateTime,
        Shape::Date,
        Shape::Time,
        Shape::Reference,
        Shape::ReferenceList,
        Shape::StringList,
        Shape::NumberList,
        Shape::ObjectArray,
        Shape::Object,
    ] {
        let tag = shape.tag().unwrap();
        assert_eq!(Shape::from_tag(tag), Some(shape));
    }
    assert_eq!(Shape::AnyText.tag(), None);
    assert_eq!(Shape::Byte.tag(), None);
    assert_eq!(Shape::from_tag("MultiReference"), Some(Shape::ReferenceList));
    assert_eq!(Shape::from_tag("String"), None);
}

#[test]
fn json_members_and_numbers() {
    let object = json(r#"{"a":1,"b":-2,"c":2.5,"d":18446744073709551615}"#);
    assert_eq!(object.member("a"), Some(&Json::Number(JsonNumber::PosInt(1))));
    assert_eq!(object.member("z"), None);
    assert_eq!(Json::Null.member("a"), None);
    assert_eq!(object.member("a").unwrap().whole_between(0, 1), Some(1));
    assert_eq!(object.member("a").unwrap().whole_between(2, 3), None);
    assert_eq!(object.member("a").unwrap().whole_between(-5, 0), None);
    assert_eq!(object.member("b").unwrap().whole_between(-2, -2), Some(-2));
    assert_eq!(object.member("b").unwrap().whole_between(-1, 5), None);
    assert_eq!(object.member("c").unwrap().whole_between(0, 5), None);
    assert_eq!(object.member("d").unwrap().whole_between(i64::MIN, i64::MAX), None);
    assert_eq!(Json::Text("1".to_string()).whole_between(0, 5), None);
    assert_eq!(json("[1]").as_array().map(|a| a.len()), Some(1));
    assert_eq!(json("1").as_array(), None);
}

#[test]
fn predicates_as_json() {
    let filter = cms_types::filter::Filter {
        name: "age".to_string(),
        cond: FilterConditionType::Between,
        value: FilterValue::Range((Number::Byte(1), Number::Integer(300))),
    };
    let written = filter.to_json();
    assert_eq!(written, json(r#"{"name":"age","cond":"between","value":[1,300]}"#));
    let back = cms_types::filter::Filter::from_json(&written).unwrap();
    assert_eq!(back.name, "age");
    assert_eq!(back.cond, FilterConditionType::Between);
    assert!(back.value.is_range());
    assert_eq!(back.value.to_text(), Ok("1-300".to_string()));
    for text in [
        "null",
        "{}",
        r#"{"name":"age","cond":"between"}"#,
        r#"{"name":"age","cond":"BETWEEN","value":[1,300]}"#,
        r#"{"name":1,"cond":"between","value":[1,300]}"#,
        r#"{"name":"age","cond":"between","value":null}"#,
    ] {
        assert!(cms_types::filter::Filter::from_json(&json(text)).is_none(), "{text}");
    }
}
