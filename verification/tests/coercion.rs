use cms_types::clock::{Date, OffsetDateTime, Time, UtcOffset};
use cms_types::error::{Shape, ValueError};
use cms_types::field_value::SchematicFieldValue;
use cms_types::id::Uuid;
use cms_types::json::{Json, JsonNumber};
use cms_types::schema::SchematicFieldType;
use cms_types::value::{Number, SimpleValue};

const UUID_1: &str = "550e8400-e29b-41d4-a716-446655440000";
const UUID_2: &str = "a1a2a3a4-b1b2-c1c2-d1d2-d3d4d5d6d7d8";

fn text(s: &str) -> SimpleValue {
    SimpleValue::Text(s.to_string())
}

fn all_types() -> Vec<SchematicFieldType> {
    (0..23).map(|c| SchematicFieldType::from_code(c).unwrap()).collect()
}

#[test]
fn parse_value_boolean_on_is_true() {
    let r = SchematicFieldType::Boolean.parse_value(text("on")).unwrap();
    assert!(matches!(r, SchematicFieldValue::Boolean(true)));
}

#[test]
fn parse_value_boolean_maybe_is_a_format_error() {
    let r = SchematicFieldType::Boolean.parse_value(text("maybe"));
    assert_eq!(r.err(), Some(ValueError::Format(Shape::Boolean)));
}

#[test]
fn parse_value_boolean_every_spelling() {
    for s in ["1", "on", "true"] {
        let r = SchematicFieldType::Boolean.parse_value(text(s)).unwrap();
        assert!(matches!(r, SchematicFieldValue::Boolean(true)), "{s}");
    }
    for s in ["0", "off", "false"] {
        let r = SchematicFieldType::Boolean.parse_value(text(s)).unwrap();
        assert!(matches!(r, SchematicFieldValue::Boolean(false)), "{s}");
    }
    for s in ["", "True", "ON", "yes", "no", " true", "true ", "2", "tru", "falsee"] {
        let r = SchematicFieldType::Boolean.parse_value(text(s));
        assert_eq!(r.err(), Some(ValueError::Format(Shape::Boolean)), "{s:?}");
        assert!(s.parse::<bool>().is_err());
    }
    assert_eq!(SchematicFieldValue::boolean_from_text("on"), Ok(true));
    assert_eq!(SchematicFieldValue::boolean_from_text("off"), Ok(false));
}

#[test]
fn parse_value_boolean_wants_a_text() {
    let r = SchematicFieldType::Boolean.parse_value(SimpleValue::Boolean(true));
    assert_eq!(r.err(), Some(ValueError::TypeMismatch(Shape::Text)));
}

#[test]
fn parse_value_date_time_with_and_without_seconds() {
    let short = SchematicFieldType::DateTime
        .parse_value(text("2024-01-15T10:30"))
        .unwrap();
    let long = SchematicFieldType::DateTime
        .parse_value(text("2024-01-15T10:30:45"))
        .unwrap();
    let short = short.try_as_date_time().unwrap();
    let long = long.try_as_date_time().unwrap();
    assert_eq!(short.time().second(), 0);
    assert_eq!(short.date(), Date::new(2024, 1, 15).unwrap());
    assert_eq!(short.time(), Time::new(10, 30, 0, 0).unwrap());
    assert_eq!(short.offset(), UtcOffset::utc());
    assert_eq!(long.time(), Time::new(10, 30, 45, 0).unwrap());
    assert_eq!(long.date(), Date::new(2024, 1, 15).unwrap());
    assert_eq!(long.offset(), UtcOffset::new(0, 0, 0).unwrap());
}

#[test]
fn parse_value_date_time_is_what_the_time_crate_reads() {
    let minutes = time::format_description::parse_borrowed::<1>(
        "[year]-[month]-[day]T[hour]:[minute]",
    )
    .unwrap();
    let seconds = time::format_description::parse_borrowed::<1>(
        "[year]-[month]-[day]T[hour]:[minute]:[second]",
    )
    .unwrap();
    for s in [
        "2024-01-15T10:30",
        "2024-01-15T10:30:45",
        "2024-02-30T10:30",
        "2024-01-15 10:30",
        "2024-01-15T25:30",
        "2024-01-15T10:30:61",
        "2024-01-15T10:30:45.5",
        "0001-01-01T00:00",
        "9999-12-31T23:59:59",
        "-0044-03-15T12:00",
        "",
        "2024-01-15",
        "24-1-15T1:3",
    ] {
        let theirs = time::PrimitiveDateTime::parse(s, &minutes)
            .or_else(|_| time::PrimitiveDateTime::parse(s, &seconds))
            .ok()
            .map(|m| m.assume_utc());
        let ours = SchematicFieldType::DateTime.parse_value(text(s));
        match (ours, theirs) {
            (Ok(o), Some(t)) => {
                let o = o.try_as_date_time().unwrap();
                assert_eq!(o.to_text(), t.to_string(), "{s}");
            }
            (Err(e), None) => assert_eq!(e, ValueError::Format(Shape::DateTime), "{s}"),
            (o, t) => panic!("{s}: {o:?} against {t:?}"),
        }
    }
}

#[test]
fn parse_value_date_time_reads_the_text_of_any_value() {
    let r = SchematicFieldType::DateTime.parse_value(SimpleValue::Boolean(true));
    assert_eq!(r.err(), Some(ValueError::Format(Shape::DateTime)));
    let r = SchematicFieldType::DateTime.parse_value(SimpleValue::Number(Number::Integer(5)));
    assert_eq!(r.err(), Some(ValueError::Format(Shape::DateTime)));
    let r = SchematicFieldType::DateTime.parse_value(SimpleValue::ListString(vec![]));
    assert_eq!(r.err(), Some(ValueError::TypeMismatch(Shape::AnyText)));
    let moment = OffsetDateTime::utc(
        Date::new(2024, 1, 15).unwrap(),
        Time::new(10, 30, 0, 0).unwrap(),
    );
    let r = SchematicFieldType::DateTime.parse_value(SimpleValue::DateTime(moment));
    assert_eq!(r.err(), Some(ValueError::Format(Shape::DateTime)));
    let r = SchematicFieldType::DateTime
        .parse_value(SimpleValue::Number(Number::Float(1.5f64.to_bits())));
    assert_eq!(r.err(), Some(ValueError::NotImplemented));
}

#[test]
fn parse_value_date() {
    let r = SchematicFieldType::Date.parse_value(text("2024-02-29")).unwrap();
    assert_eq!(r.try_as_date().unwrap(), Date::new(2024, 2, 29).unwrap());
    for s in ["2023-02-29", "2024-2-29", "2024-02-29T10:30", "", "20240229", "2024-13-01"] {
        let r = SchematicFieldType::Date.parse_value(text(s));
        assert_eq!(r.err(), Some(ValueError::Format(Shape::Date)), "{s:?}");
    }
    let date = Date::new(2024, 2, 29).unwrap();
    let again = SchematicFieldType::Date
        .parse_value(SimpleValue::Date(date))
        .unwrap();
    assert_eq!(again.try_as_date().unwrap(), date);
}

#[test]
fn parse_value_time_with_and_without_fraction() {
    let r = SchematicFieldType::Time.parse_value(text("10:30:45")).unwrap();
    assert_eq!(r.try_as_time().unwrap(), Time::new(10, 30, 45, 0).unwrap());
    let r = SchematicFieldType::Time.parse_value(text("10:30:45.5")).unwrap();
    assert_eq!(
        r.try_as_time().unwrap(),
        Time::new(10, 30, 45, 500_000_000).unwrap()
    );
    let r = SchematicFieldType::Time.parse_value(text("10:30:45.123456789")).unwrap();
    assert_eq!(
        r.try_as_time().unwrap(),
        Time::new(10, 30, 45, 123_456_789).unwrap()
    );
    for s in ["10:30", "24:00:00", "10:60:00", "", "10:30:45.", "noon"] {
        let r = SchematicFieldType::Time.parse_value(text(s));
        assert_eq!(r.err(), Some(ValueError::Format(Shape::Time)), "{s:?}");
    }
    let time = Time::new(10, 30, 45, 250_000_000).unwrap();
    let again = SchematicFieldType::Time
        .parse_value(SimpleValue::Time(time))
        .unwrap();
    assert_eq!(again.try_as_time().unwrap(), time);
}

#[test]
fn parse_value_multi_reference_all_or_nothing() {
    let bad = SimpleValue::ListString(vec![UUID_1.to_string(), "not-a-uuid".to_string()]);
    let r = SchematicFieldType::MultiReference.parse_value(bad);
    assert_eq!(r.err(), Some(ValueError::Format(Shape::Reference)));

    let good = SimpleValue::ListString(vec![UUID_1.to_string(), UUID_2.to_string()]);
    let r = SchematicFieldType::MultiReference.parse_value(good).unwrap();
    let list = r.try_as_list_reference().unwrap();
    assert_eq!(
        list,
        vec![
            Uuid(0x550e8400_e29b_41d4_a716_446655440000),
            Uuid(0xa1a2a3a4_b1b2_c1c2_d1d2_d3d4d5d6d7d8)
        ]
    );
}

#[test]
fn parse_value_media_gallery_is_a_list_of_references() {
    let good = SimpleValue::ListString(vec![UUID_2.to_string(), UUID_1.to_string()]);
    let r = SchematicFieldType::MediaGallery.parse_value(good).unwrap();
    assert!(matches!(&r, SchematicFieldValue::MultiReference(l) if l.len() == 2));
    let list = r.try_as_list_reference().unwrap();
    assert_eq!(list[0].to_text(), UUID_2);
    assert_eq!(list[1].to_text(), UUID_1);
    let empty = SchematicFieldType::MediaGallery
        .parse_value(SimpleValue::ListString(vec![]))
        .unwrap();
    assert!(empty.try_as_list_reference().unwrap().is_empty());
    let r = SchematicFieldType::MediaGallery.parse_value(text(UUID_1));
    assert_eq!(r.err(), Some(ValueError::TypeMismatch(Shape::StringList)));
}

#[test]
fn parse_value_reference() {
    let r = SchematicFieldType::Reference.parse_value(text(UUID_1)).unwrap();
    let uuid = r.try_as_reference().unwrap();
    assert_eq!(uuid.0, uuid::Uuid::parse_str(UUID_1).unwrap().as_u128());
    let r = SchematicFieldType::Reference.parse_value(text("nope"));
    assert_eq!(r.err(), Some(ValueError::Format(Shape::Reference)));
    let r = SchematicFieldType::Reference.parse_value(SimpleValue::Boolean(false));
    assert_eq!(r.err(), Some(ValueError::TypeMismatch(Shape::Text)));
}

#[test]
fn parse_value_url_is_what_the_url_crate_reads() {
    for s in [
        "https://example.com",
        "HTTP://Example.COM/a b?q=1#f",
        "mailto:someone@example.com",
        "example.com",
        "",
        "//missing.scheme",
        "https://[::1]:8080/x/../y",
        "ftp://user:pw@host/%7Efoo",
    ] {
        let theirs = url::Url::parse(s).ok();
        let ours = SchematicFieldType::URL.parse_value(text(s));
        match (ours, theirs) {
            (Ok(o), Some(t)) => {
                let u = o.try_as_url().unwrap();
                assert_eq!(u.as_str(), t.as_str(), "{s}");
                assert_eq!(u.into_string(), String::from(t));
            }
            (Err(e), None) => assert_eq!(e, ValueError::Format(Shape::Url), "{s}"),
            (o, t) => panic!("{s}: {o:?} against {t:?}"),
        }
    }
    let r = SchematicFieldType::URL.parse_value(text("https://example.com")).unwrap();
    assert_eq!(r.try_as_url().unwrap().as_str(), "https://example.com/");
    let r = SchematicFieldType::URL.parse_value(SimpleValue::Boolean(true));
    assert_eq!(r.err(), Some(ValueError::TypeMismatch(Shape::Text)));
}

#[test]
fn parse_value_texts_pass_through() {
    for t in [
        SchematicFieldType::Text,
        SchematicFieldType::RichContent,
        SchematicFieldType::RichText,
    ] {
        let r = t.parse_value(text("hello")).unwrap();
        assert_eq!(r.try_as_text().unwrap(), "hello");
        let r = t.parse_value(SimpleValue::Boolean(true));
        assert_eq!(r.err(), Some(ValueError::TypeMismatch(Shape::Text)));
    }
    let r = SchematicFieldType::Email.parse_value(text("not an email")).unwrap();
    assert_eq!(r.try_as_email().unwrap(), "not an email");
    let r = SchematicFieldType::Phone.parse_value(text("+1 555")).unwrap();
    assert_eq!(r.try_as_phone().unwrap(), "+1 555");
    let r = SchematicFieldType::Address.parse_value(text("1 Main St")).unwrap();
    assert_eq!(r.try_as_address().unwrap(), "1 Main St");
}

#[test]
fn parse_value_number_passes_through() {
    let r = SchematicFieldType::Number
        .parse_value(SimpleValue::Number(Number::Integer(-3)))
        .unwrap();
    assert!(matches!(r.try_as_number().unwrap(), Number::Integer(-3)));
    let r = SchematicFieldType::Number.parse_value(text("3"));
    assert_eq!(r.err(), Some(ValueError::TypeMismatch(Shape::Number)));
}

#[test]
fn parse_value_files_and_tags_pass_the_numbers_through() {
    for t in [
        SchematicFieldType::Document,
        SchematicFieldType::Image,
        SchematicFieldType::Video,
        SchematicFieldType::Audio,
        SchematicFieldType::Tags,
    ] {
        let list = vec![Number::Byte(1), Number::Integer(2)];
        let r = t.parse_value(SimpleValue::ListNumber(list)).unwrap();
        let back = r.try_as_list_number().unwrap();
        assert_eq!(back.len(), 2);
        assert!(matches!(back[0], Number::Byte(1)));
        assert!(matches!(back[1], Number::Integer(2)));
        let r = t.parse_value(text("x"));
        assert_eq!(r.err(), Some(ValueError::TypeMismatch(Shape::NumberList)));
    }
}

#[test]
fn parse_value_multi_document_is_not_implemented() {
    for v in [text("x"), SimpleValue::ListNumber(vec![]), SimpleValue::Boolean(true)] {
        let r = SchematicFieldType::MultiDocument.parse_value(v);
        assert_eq!(r.err(), Some(ValueError::NotImplemented));
    }
}

#[test]
fn parse_value_array_from_text_and_from_values() {
    let r = SchematicFieldType::Array
        .parse_value(text(" [1, \"a\", null, {\"k\": [true]}] "))
        .unwrap();
    let items = r.try_as_array().unwrap();
    assert_eq!(
        items,
        vec![
            Json::Number(JsonNumber::PosInt(1)),
            Json::Text("a".to_string()),
            Json::Null,
            Json::Object(vec![("k".to_string(), Json::Array(vec![Json::Bool(true)]))]),
        ]
    );
    for s in ["{}", "1", "\"a\"", "[1,", "", "[1] x"] {
        let r = SchematicFieldType::Array.parse_value(text(s));
        assert_eq!(r.err(), Some(ValueError::Decode), "{s:?}");
    }
    let r = SchematicFieldType::Array
        .parse_value(SimpleValue::ListString(vec!["a".to_string(), "b".to_string()]))
        .unwrap();
    assert_eq!(
        r.try_as_array().unwrap(),
        vec![Json::Text("a".to_string()), Json::Text("b".to_string())]
    );
    let r = SchematicFieldType::Array
        .parse_value(SimpleValue::ListNumber(vec![
            Number::Byte(7),
            Number::Integer(-7),
            Number::Float(0.5f64.to_bits()),
            Number::Float(f64::NAN.to_bits()),
        ]))
        .unwrap();
    assert_eq!(
        r.try_as_array().unwrap(),
        vec![
            Json::Number(JsonNumber::PosInt(7)),
            Json::Number(JsonNumber::NegInt(-7)),
            Json::Number(JsonNumber::Float(0.5f64.to_bits())),
            Json::Null,
        ]
    );
    let r = SchematicFieldType::Array
        .parse_value(SimpleValue::ArrayUnknown(vec![Json::Null, Json::Bool(false)]))
        .unwrap();
    assert_eq!(r.try_as_array().unwrap(), vec![Json::Null, Json::Bool(false)]);
    let r = SchematicFieldType::Array
        .parse_value(SimpleValue::ObjectUnknown(Json::Array(vec![Json::Bool(true)])))
        .unwrap();
    assert_eq!(r.try_as_array().unwrap(), vec![Json::Bool(true)]);
    for v in [
        SimpleValue::Boolean(true),
        SimpleValue::Number(Number::Byte(1)),
        SimpleValue::ObjectUnknown(Json::Object(vec![])),
        SimpleValue::ObjectUnknown(Json::Null),
    ] {
        let r = SchematicFieldType::Array.parse_value(v);
        assert_eq!(r.err(), Some(ValueError::Decode));
    }
}

#[test]
fn parse_value_array_of_a_date_is_year_and_day_of_year() {
    let date = Date::new(2024, 3, 1).unwrap();
    let r = SchematicFieldType::Array
        .parse_value(SimpleValue::Date(date))
        .unwrap();
    assert_eq!(
        r.try_as_array().unwrap(),
        vec![
            Json::Number(JsonNumber::PosInt(2024)),
            Json::Number(JsonNumber::PosInt(61))
        ]
    );
}

#[test]
fn parse_value_object_from_text_and_from_values() {
    let r = SchematicFieldType::Object
        .parse_value(text("{\"b\": 1, \"a\": -2.5}"))
        .unwrap();
    assert_eq!(
        r.try_as_object().unwrap(),
        Json::Object(vec![
            ("a".to_string(), Json::Number(JsonNumber::Float((-2.5f64).to_bits()))),
            ("b".to_string(), Json::Number(JsonNumber::PosInt(1))),
        ])
    );
    let r = SchematicFieldType::Object.parse_value(text("17")).unwrap();
    assert_eq!(r.try_as_object().unwrap(), Json::Number(JsonNumber::PosInt(17)));
    let r = SchematicFieldType::Object.parse_value(text("{"));
    assert_eq!(r.err(), Some(ValueError::Decode));
    let r = SchematicFieldType::Object
        .parse_value(SimpleValue::Boolean(true))
        .unwrap();
    assert_eq!(r.try_as_object().unwrap(), Json::Bool(true));
    let r = SchematicFieldType::Object
        .parse_value(SimpleValue::Number(Number::Integer(-4)))
        .unwrap();
    assert_eq!(r.try_as_object().unwrap(), Json::Number(JsonNumber::NegInt(-4)));
    let r = SchematicFieldType::Object
        .parse_value(SimpleValue::Number(Number::Float(f64::INFINITY.to_bits())))
        .unwrap();
    assert_eq!(r.try_as_object().unwrap(), Json::Null);
}

#[test]
fn parse_value_yields_the_shape_of_the_type() {
    let inputs = vec![
        text("https://example.com"),
        text("on"),
        text("2024-01-15T10:30"),
        text("2024-01-15"),
        text("10:30:45"),
        text(UUID_1),
        text("[1]"),
        SimpleValue::Number(Number::Byte(1)),
        SimpleValue::ListString(vec![UUID_1.to_string()]),
        SimpleValue::ListNumber(vec![Number::Byte(1)]),
    ];
    for t in all_types() {
        for v in &inputs {
            match t.parse_value(v.clone()) {
                Ok(value) => assert_eq!(Some(value.shape()), t.yields(), "{t:?} {v:?}"),
                Err(_) => {}
            }
        }
    }
    assert_eq!(SchematicFieldType::MultiDocument.yields(), None);
}

#[test]
fn parse_value_bytes_number() {
    let t = SchematicFieldType::Number;
    assert!(matches!(
        t.parse_value_bytes(b"5".to_vec()),
        Ok(SimpleValue::Number(Number::Byte(5)))
    ));
    assert!(matches!(
        t.parse_value_bytes(b" 255 ".to_vec()),
        Ok(SimpleValue::Number(Number::Byte(255)))
    ));
    assert!(matches!(
        t.parse_value_bytes(b"256".to_vec()),
        Ok(SimpleValue::Number(Number::Integer(256)))
    ));
    assert!(matches!(
        t.parse_value_bytes(b"-3".to_vec()),
        Ok(SimpleValue::Number(Number::Integer(-3)))
    ));
    assert!(matches!(
        t.parse_value_bytes(b"9223372036854775807".to_vec()),
        Ok(SimpleValue::Number(Number::Integer(i64::MAX)))
    ));
    match t.parse_value_bytes(b"18446744073709551615".to_vec()) {
        Ok(SimpleValue::Number(Number::Float(bits))) => {
            assert_eq!(bits, (u64::MAX as f64).to_bits())
        }
        other => panic!("{other:?}"),
    }
    match t.parse_value_bytes(b"1.5".to_vec()) {
        Ok(SimpleValue::Number(Number::Float(bits))) => assert_eq!(bits, 1.5f64.to_bits()),
        other => panic!("{other:?}"),
    }
    match t.parse_value_bytes(b"3.0".to_vec()) {
        Ok(SimpleValue::Number(Number::Float(bits))) => assert_eq!(bits, 3.0f64.to_bits()),
        other => panic!("{other:?}"),
    }
    for bad in [&b""[..], b"abc", b"\"5\"", b"[5]", b"true", b"null", b"5 5", b"\xff"] {
        assert_eq!(t.parse_value_bytes(bad.to_vec()).err(), Some(ValueError::Decode), "{bad:?}");
    }
}

#[test]
fn parse_value_bytes_text() {
    for t in [
        SchematicFieldType::Text,
        SchematicFieldType::URL,
        SchematicFieldType::Email,
        SchematicFieldType::Address,
        SchematicFieldType::Phone,
        SchematicFieldType::Boolean,
        SchematicFieldType::DateTime,
        SchematicFieldType::Date,
        SchematicFieldType::Time,
        SchematicFieldType::RichContent,
        SchematicFieldType::RichText,
        SchematicFieldType::Reference,
        SchematicFieldType::Array,
        SchematicFieldType::Object,
    ] {
        let r = t.parse_value_bytes("héllo €".as_bytes().to_vec()).unwrap();
        assert_eq!(r, SimpleValue::Text("héllo €".to_string()));
        let r = t.parse_value_bytes(vec![]).unwrap();
        assert_eq!(r, SimpleValue::Text(String::new()));
        let r = t.parse_value_bytes(vec![0x68, 0xff, 0x69]);
        assert_eq!(r.err(), Some(ValueError::Encoding));
        let r = t.parse_value_bytes(vec![0xed, 0xa0, 0x80]);
        assert_eq!(r.err(), Some(ValueError::Encoding));
    }
}

#[test]
fn parse_value_bytes_files_and_back() {
    for t in [
        SchematicFieldType::Document,
        SchematicFieldType::Image,
        SchematicFieldType::Video,
        SchematicFieldType::Audio,
    ] {
        let bytes = vec![0u8, 1, 127, 128, 255];
        let r = t.parse_value_bytes(bytes.clone()).unwrap();
        match &r {
            SimpleValue::ListNumber(list) => {
                assert_eq!(list.len(), 5);
                assert!(matches!(list[4], Number::Byte(255)));
            }
            other => panic!("{other:?}"),
        }
        assert_eq!(r.clone().try_as_bytes().unwrap(), bytes);
        let typed = t.parse_value(r).unwrap();
        assert_eq!(typed.try_as_list_number().unwrap().len(), 5);
    }
}

#[test]
fn parse_value_bytes_unsupported() {
    for t in [
        SchematicFieldType::MultiReference,
        SchematicFieldType::MediaGallery,
        SchematicFieldType::MultiDocument,
        SchematicFieldType::Tags,
    ] {
        let r = t.parse_value_bytes(b"[]".to_vec());
        assert_eq!(r.err(), Some(ValueError::NotImplemented));
    }
}

#[test]
fn finishers_on_given_outcomes() {
    let date = Date::new(2024, 1, 15).unwrap();
    let time = Time::new(10, 30, 0, 0).unwrap();
    let r = SchematicFieldValue::from_date_time_outcome(Some((date, time))).unwrap();
    assert_eq!(
        r.try_as_date_time().unwrap().to_text(),
        "2024-01-15 10:30:00.0 +00:00:00"
    );
    assert_eq!(
        SchematicFieldValue::from_date_time_outcome(None).err(),
        Some(ValueError::Format(Shape::DateTime))
    );
    assert_eq!(
        SchematicFieldValue::from_date_outcome(Some(date)).unwrap().try_as_date().unwrap(),
        date
    );
    assert_eq!(
        SchematicFieldValue::from_date_outcome(None).err(),
        Some(ValueError::Format(Shape::Date))
    );
    assert_eq!(
        SchematicFieldValue::from_time_outcome(Some(time)).unwrap().try_as_time().unwrap(),
        time
    );
    assert_eq!(
        SchematicFieldValue::from_time_outcome(None).err(),
        Some(ValueError::Format(Shape::Time))
    );
    assert_eq!(
        SchematicFieldValue::reference_from_outcome(Some(Uuid(9))),
        Ok(Uuid(9))
    );
    assert_eq!(
        SchematicFieldValue::reference_from_outcome(None),
        Err(ValueError::Format(Shape::Reference))
    );
    let r = SchematicFieldValue::from_url_outcome(Some("x:y".to_string())).unwrap();
    assert_eq!(r.try_as_url().unwrap().as_str(), "x:y");
    assert_eq!(
        SchematicFieldValue::from_url_outcome(None).err(),
        Some(ValueError::Format(Shape::Url))
    );
    let r = SchematicFieldValue::from_array_document(Some(Json::Array(vec![Json::Null]))).unwrap();
    assert_eq!(r.try_as_array().unwrap(), vec![Json::Null]);
    assert_eq!(
        SchematicFieldValue::from_array_document(Some(Json::Null)).err(),
        Some(ValueError::Decode)
    );
    assert_eq!(
        SchematicFieldValue::from_array_document(None).err(),
        Some(ValueError::Decode)
    );
    let r = SchematicFieldValue::from_object_document(Some(Json::Null)).unwrap();
    assert_eq!(r.try_as_object().unwrap(), Json::Null);
    assert_eq!(
        SchematicFieldValue::from_object_document(None).err(),
        Some(ValueError::Decode)
    );
    assert!(matches!(
        SimpleValue::from_number_document(Some(Json::Number(JsonNumber::PosInt(300)))),
        Ok(SimpleValue::Number(Number::Integer(300)))
    ));
    assert_eq!(
        SimpleValue::from_number_document(Some(Json::Null)).err(),
        Some(ValueError::Decode)
    );
    assert_eq!(
        SimpleValue::from_number_document(None).err(),
        Some(ValueError::Decode)
    );
    assert_eq!(
        SimpleValue::from_text_outcome(Some("a".to_string())),
        Ok(SimpleValue::Text("a".to_string()))
    );
    assert_eq!(
        SimpleValue::from_text_outcome(None).err(),
        Some(ValueError::Encoding)
    );
}

#[test]
fn number_from_json_takes_the_first_variant_that_fits() {
    assert!(matches!(Number::from_json(JsonNumber::PosInt(0)), Number::Byte(0)));
    assert!(matches!(Number::from_json(JsonNumber::PosInt(255)), Number::Byte(255)));
    assert!(matches!(Number::from_json(JsonNumber::PosInt(256)), Number::Integer(256)));
    assert!(matches!(
        Number::from_json(JsonNumber::PosInt(i64::MAX as u64)),
        Number::Integer(i64::MAX)
    ));
    match Number::from_json(JsonNumber::PosInt(i64::MAX as u64 + 1)) {
        Number::Float(bits) => assert_eq!(bits, 9223372036854775808.0f64.to_bits()),
        other => panic!("{other:?}"),
    }
    assert!(matches!(Number::from_json(JsonNumber::NegInt(-1)), Number::Integer(-1)));
    assert!(matches!(Number::from_json(JsonNumber::Float(7)), Number::Float(7)));
}
