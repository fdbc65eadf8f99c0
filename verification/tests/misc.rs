use cms_types::clock::UtcOffset;
use cms_types::error::ValueError;
use cms_types::filter::{FilterConditionType, FilterValue};
use cms_types::response::{ApiErrorResponse, ListResponse, WrappingResponse};
use cms_types::schema::{
    SchemaView, SchemaViewItem, SchemaViewQuery, SchemaViewTypes, SchematicFieldType,
    SchematicPermissions, PermissionsUser, SortOrder,
};
use cms_types::request::{CmsQuery, CmsUpdate};
use cms_types::text::same_text;
use cms_types::tz::{find_offset_by_id, offsets_from_texts, Zone, ZoneContainer};
use cms_types::value::Number;
use cms_types::{Either, SingleOrMulti};

#[test]
fn either_unwraps_the_side_it_holds() {
    let left: Either<i32, &str> = Either::Left(1);
    let right: Either<i32, &str> = Either::Right("r");
    assert_eq!(left.unwrap_left(), 1);
    assert_eq!(right.unwrap_right(), "r");
    assert_ne!(left, right);
}

fn half(v: i32) -> Result<i32, String> {
    if v % 2 == 0 {
        Ok(v / 2)
    } else {
        Err(format!("{v} is odd"))
    }
}

#[test]
fn single_or_multi_try_map() {
    let one = SingleOrMulti::from(4).try_map(half).unwrap();
    assert!(matches!(one, SingleOrMulti::Single(2)));
    let one = SingleOrMulti::Single(3).try_map(half);
    assert_eq!(one.err(), Some("3 is odd".to_string()));
    let many = SingleOrMulti::from(vec![2, 4, 6]).try_map(half).unwrap();
    assert!(matches!(many, SingleOrMulti::Multiple(v) if v == vec![1, 2, 3]));
    let many = SingleOrMulti::Multiple(vec![2, 5, 7]).try_map(half);
    assert_eq!(many.err(), Some("5 is odd".to_string()));
    let none = SingleOrMulti::Multiple(Vec::<i32>::new()).try_map(half).unwrap();
    assert!(matches!(none, SingleOrMulti::Multiple(v) if v.is_empty()));
}

#[test]
fn list_response_pages() {
    let empty: ListResponse<i32> = ListResponse::empty();
    assert_eq!(
        empty,
        ListResponse { items: vec![], offset: 0, limit: 0, total: 0 }
    );
    let all = ListResponse::all(vec![1, 2, 3]);
    assert_eq!(
        all,
        ListResponse { items: vec![1, 2, 3], offset: 0, limit: 3, total: 3 }
    );
}

#[test]
fn wrapping_response() {
    let ok: WrappingResponse<i32> = WrappingResponse::okay(1);
    assert_eq!(ok.as_ok().ok(), Some(&1));
    let mapped = ok.map(|v| v + 1);
    assert_eq!(mapped.ok().ok(), Some(2));
    let bad: WrappingResponse<i32> = WrappingResponse::error("no".to_string());
    assert_eq!(bad.as_ok().err().map(|e| e.description.as_str()), Some("no"));
    let mapped = bad.map(|v| v + 1);
    let e = mapped.ok().err().unwrap();
    assert_eq!(e.description, "no");
    assert_eq!(e.to_text(), "Api Error Occurred: no");
    assert_eq!(ApiErrorResponse::new("x".to_string()).description, "x");
}

#[test]
fn filter_value_text() {
    assert!(FilterValue::Range((Number::Byte(1), Number::Byte(2))).is_range());
    assert!(!FilterValue::Text("a".to_string()).is_range());
    assert_eq!(FilterValue::Text("a".to_string()).to_text(), Ok("a".to_string()));
    assert_eq!(FilterValue::Number(Number::Integer(-5)).to_text(), Ok("-5".to_string()));
    assert_eq!(FilterValue::IdList(vec![]).to_text(), Ok(String::new()));
    assert_eq!(
        FilterValue::IdList(vec!["a".to_string()]).to_text(),
        Ok("a".to_string())
    );
    let ids = vec!["a".to_string(), "".to_string(), "c".to_string()];
    assert_eq!(FilterValue::IdList(ids.clone()).to_text(), Ok(ids.join(",")));
    assert_eq!(
        FilterValue::Range((Number::Byte(1), Number::Integer(20))).to_text(),
        Ok("1-20".to_string())
    );
    assert_eq!(
        FilterValue::Range((Number::Integer(-1), Number::Integer(-2))).to_text(),
        Ok("-1--2".to_string())
    );
    assert_eq!(
        FilterValue::Range((Number::Byte(1), Number::Float(0))).to_text(),
        Err(ValueError::NotImplemented)
    );
    assert_eq!(
        FilterValue::Number(Number::Float(0)).to_text(),
        Err(ValueError::NotImplemented)
    );
    let copy = FilterValue::Range((Number::Byte(1), Number::Byte(2))).clone();
    assert!(copy.is_range());
    assert_eq!(FilterConditionType::Between.as_name(), "between");
    assert_eq!(FilterConditionType::Eq.as_name(), "eq");
    assert_eq!(FilterConditionType::Dnc.as_name(), "dnc");
}

#[test]
fn field_type_metadata() {
    let names = [
        "Text",
        "Number",
        "URL",
        "Email",
        "Address",
        "Phone",
        "True/False",
        "Date & Time",
        "Date",
        "Time",
        "Rich Content",
        "Rich Text",
        "Reference",
        "Multi Reference",
        "Media Gallery",
        "Document",
        "Multi Document",
        "Image",
        "Video",
        "Audio",
        "Tags",
        "Array",
        "Object",
    ];
    let mib = 1024 * 1024;
    let limits = [
        Some(1024 * mib),
        Some(10),
        Some(1024),
        Some(100),
        Some(1024),
        Some(50),
        Some(1),
        Some(50),
        Some(50),
        Some(50),
        Some(10 * mib),
        Some(10 * mib),
        None,
        None,
        Some(100 * mib),
        Some(100 * mib),
        Some(100 * mib),
        Some(100 * mib),
        Some(100 * mib),
        Some(100 * mib),
        None,
        None,
        None,
    ];
    for code in 0..23 {
        let t = SchematicFieldType::from_code(code).unwrap();
        assert_eq!(t.code(), code);
        assert_eq!(t.as_name(), names[code as usize]);
        assert_eq!(t.max_bytes_length(), limits[code as usize]);
        assert_eq!(t.is_upload_file_type(), [15, 16, 17, 18, 19].contains(&code));
    }
    assert_eq!(SchematicFieldType::from_code(23), None);
    assert_eq!(SchematicFieldType::from_code(-1), None);
    assert_eq!(SchematicFieldType::Text.code(), 0);
    assert_eq!(SchematicFieldType::Object.code(), 22);
    assert_eq!(SchematicFieldType::from_code(12), Some(SchematicFieldType::Reference));
}

#[test]
fn defaults() {
    let view = SchemaView::default();
    assert_eq!(view.name, "Default View");
    assert!(view.query.sort.is_empty() && view.query.filter.is_empty());
    assert!(view.view_type.form.hidden_fields.is_empty());
    assert!(SchemaViewTypes::default().table.hidden_fields.is_empty());
    assert!(SchemaViewItem::default().hidden_fields.is_empty());
    assert!(SchemaViewQuery::default().sort.is_empty());
    let p = SchematicPermissions::default();
    assert_eq!(
        (p.insert, p.update, p.remove, p.read),
        (
            PermissionsUser::Admin,
            PermissionsUser::Admin,
            PermissionsUser::Admin,
            PermissionsUser::Admin
        )
    );
    let q = CmsQuery::default();
    assert!(q.filters.is_none() && q.sort.is_none() && q.columns.is_none());
    assert!(q.limit.is_none() && q.offset.is_none() && !q.include_files);
    assert!(CmsUpdate::default().views.is_none());
    assert_eq!(SortOrder::Ascending.as_name(), "asc");
    assert_eq!(SortOrder::Descending.as_name(), "desc");
}

#[test]
fn same_text_compares_texts() {
    assert!(same_text("", ""));
    assert!(same_text("héllo", "héllo"));
    assert!(!same_text("hello", "hellp"));
    assert!(!same_text("hello", "hell"));
    assert!(!same_text("a", "A"));
}

fn zones() -> ZoneContainer {
    let plus_one = UtcOffset::new(1, 0, 0).unwrap();
    let plus_two = UtcOffset::new(2, 0, 0).unwrap();
    let minus_five = UtcOffset::new(-5, 0, 0).unwrap();
    ZoneContainer::new(vec![
        Zone::new(
            "Europe/Berlin".to_string(),
            vec!["CET".to_string(), "Shared".to_string()],
            vec![plus_one, plus_two],
        )
        .unwrap(),
        Zone::new(
            "America/New_York".to_string(),
            vec!["US/Eastern".to_string(), "Shared".to_string()],
            vec![minus_five],
        )
        .unwrap(),
    ])
}

#[test]
fn zones_are_found_by_name_and_by_alias() {
    let table = zones();
    assert_eq!(
        find_offset_by_id(&table, "Europe/Berlin"),
        Some(UtcOffset::new(1, 0, 0).unwrap())
    );
    assert_eq!(
        table.find_offset_by_id("US/Eastern"),
        Some(UtcOffset::new(-5, 0, 0).unwrap())
    );
    assert_eq!(
        table.find_offset_by_id("Shared"),
        Some(UtcOffset::new(1, 0, 0).unwrap())
    );
    assert_eq!(table.find_offset_by_id("Mars/Olympus"), None);
    assert_eq!(table.find_offset_by_id(""), None);
    assert!(Zone::new("x".to_string(), vec![], vec![]).is_none());
    assert_eq!(ZoneContainer::new(vec![]).find_offset_by_id("x"), None);
}

#[test]
fn offsets_are_read_as_hours_and_minutes_or_hours() {
    let texts: Vec<String> = ["+01:00", "-05:30", "+02", "-11", "+00:00"]
        .iter()
        .map(|s| s.to_string())
        .collect();
    let offsets = offsets_from_texts(&texts).unwrap();
    let both = time::format_description::parse_borrowed::<1>("[offset_hour]:[offset_minute]").unwrap();
    let hours = time::format_description::parse_borrowed::<1>("[offset_hour]").unwrap();
    for (text, ours) in texts.iter().zip(offsets.iter()) {
        let theirs = time::UtcOffset::parse(text, &both)
            .or_else(|_| time::UtcOffset::parse(text, &hours))
            .unwrap();
        assert_eq!((ours.hours(), ours.minutes(), ours.seconds()), theirs.as_hms());
    }
    assert_eq!(offsets[1], UtcOffset::new(-5, -30, 0).unwrap());
    assert_eq!(offsets[2], UtcOffset::new(2, 0, 0).unwrap());
    let bad: Vec<String> = vec!["+01:00".to_string(), "noon".to_string()];
    assert_eq!(offsets_from_texts(&bad), None);
    assert_eq!(offsets_from_texts(&vec![]), Some(vec![]));
}

#[test]
fn field_type_codes_convert_both_ways() {
    for code in 0..23 {
        let t = SchematicFieldType::try_from(code).unwrap();
        assert_eq!(i32::from(t), code);
        assert_eq!(Some(t), SchematicFieldType::from_code(code));
    }
    assert_eq!(
        SchematicFieldType::try_from(23),
        Err(cms_types::schema::UnknownFieldType(23))
    );
    assert_eq!(
        SchematicFieldType::try_from(-1),
        Err(cms_types::schema::UnknownFieldType(-1))
    );
}
