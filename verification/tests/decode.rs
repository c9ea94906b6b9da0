use calendar_log::data::decode_data;
use calendar_log::date::Date;
use calendar_log::day::decode_day;
use calendar_log::error::Field;
use calendar_log::error::ParseError;
use calendar_log::error::TopKey;
use calendar_log::highlight::decode_highlights;
use calendar_log::highlight::Shape;
use calendar_log::log::Log;
use calendar_log::tree::Node;

fn record(shape: &str, colour: &str) -> Node {
    Node::Table(vec![
        ("shape".to_string(), Node::Str(shape.to_string())),
        ("colour".to_string(), Node::Str(colour.to_string())),
    ])
}

#[test]
fn three_day_log_resolves() {
    let src = "[highlights]\n\
               sick = { shape = \"circle\", colour = \"#FF0000\" }\n\
               \n\
               [data]\n\
               2024-01-01 = { Mon = \"\" }\n\
               2024-01-02 = { Tue = \"sick\" }\n\
               2024-01-03 = { Wed = \"\" }\n";
    let log = Log::from_str(src).unwrap();
    assert_eq!(log.start_date(), Date { year: 2024, month: 1, day: 1 });
    assert_eq!(log.highlights().len(), 1);
    assert_eq!(log.highlights()[0].shape, Shape::Circle);
    assert_eq!(log.highlights()[0].colour.r, 255);
    assert_eq!(log.highlights()[0].colour.g, 0);
    assert_eq!(log.highlights()[0].colour.b, 0);
    let days = log.days();
    assert_eq!(days.len(), 3);
    assert_eq!(days[0], None);
    assert_eq!(days[1], Some(log.highlights()[0]));
    assert_eq!(days[2], None);
}

#[test]
fn log_crosses_month_and_year_boundaries() {
    let src = "[highlights]\n\
               [data]\n\
               2024-02-28 = { Wed = \"\" }\n\
               2024-02-29 = { Thu = \"\" }\n\
               2024-03-01 = { Fri = \"\" }\n";
    let log = Log::from_str(src).unwrap();
    assert_eq!(log.days().len(), 3);

    let src = "[highlights]\n\
               [data]\n\
               2024-12-31 = { Tue = \"\" }\n\
               2025-01-01 = { Wed = \"\" }\n";
    let log = Log::from_str(src).unwrap();
    assert_eq!(log.start_date(), Date { year: 2024, month: 12, day: 31 });
    assert_eq!(log.days().len(), 2);
}

#[test]
fn date_gap_reports_expected_and_found() {
    let src = "[highlights]\n\
               [data]\n\
               2024-01-01 = { Mon = \"\" }\n\
               2024-01-03 = { Wed = \"\" }\n";
    let err = Log::from_str(src).unwrap_err();
    assert_eq!(
        err,
        ParseError::DateMismatch {
            expected: Date { year: 2024, month: 1, day: 2 },
            found: Date { year: 2024, month: 1, day: 3 },
        }
    );
}

#[test]
fn duplicate_date_fails() {
    let src = "[highlights]\n\
               [data]\n\
               2024-01-01 = { Mon = \"\" }\n\
               2024-01-01 = { Mon = \"\" }\n";
    // a repeated key is already malformed at the surface-syntax level
    assert!(matches!(Log::from_str(src).unwrap_err(), ParseError::Syntax { .. }));
}

#[test]
fn out_of_order_dates_fail() {
    let src = "[highlights]\n\
               [data]\n\
               2024-01-02 = { Tue = \"\" }\n\
               2024-01-01 = { Mon = \"\" }\n";
    let err = Log::from_str(src).unwrap_err();
    assert_eq!(
        err,
        ParseError::DateMismatch {
            expected: Date { year: 2024, month: 1, day: 3 },
            found: Date { year: 2024, month: 1, day: 1 },
        }
    );
}

#[test]
fn wrong_weekday_label_fails() {
    let src = "[highlights]\n\
               [data]\n\
               2024-01-01 = { Tue = \"\" }\n";
    let err = Log::from_str(src).unwrap_err();
    assert_eq!(
        err,
        ParseError::WeekdayMismatch {
            date: Date { year: 2024, month: 1, day: 1 },
            found: "Tue".to_string(),
        }
    );
}

#[test]
fn duplicate_highlight_name_fails() {
    // two entries under the same key cannot even be written in the source
    // syntax, so the table decoder is exercised directly
    let v = Node::Table(vec![
        ("sick".to_string(), record("circle", "#FF0000")),
        ("sick".to_string(), record("rectangle", "#00FF00")),
    ]);
    let err = decode_highlights(&"highlights".to_string(), &v).unwrap_err();
    assert_eq!(err, ParseError::DuplicateHighlight { name: "sick".to_string() });
}

#[test]
fn unknown_highlight_reference_fails() {
    let src = "[highlights]\n\
               sick = { shape = \"circle\", colour = \"#FF0000\" }\n\
               [data]\n\
               2024-01-01 = { Mon = \"party\" }\n";
    let err = Log::from_str(src).unwrap_err();
    assert_eq!(err, ParseError::UnknownHighlight { name: "party".to_string() });
}

#[test]
fn empty_day_string_is_no_highlight() {
    let names = vec!["sick".to_string(), "party".to_string()];
    let day = decode_day(&"".to_string(), &names).unwrap();
    assert_eq!(day.highlight(), None);
    let day = decode_day(&"party".to_string(), &names).unwrap();
    assert_eq!(day.highlight(), Some(1));
    let err = decode_day(&"gym".to_string(), &names).unwrap_err();
    assert_eq!(err, ParseError::UnknownHighlight { name: "gym".to_string() });
}

#[test]
fn top_level_schema_errors() {
    assert!(matches!(Log::from_str("not [ toml").unwrap_err(), ParseError::Syntax { .. }));
    assert_eq!(
        Log::from_str("").unwrap_err(),
        ParseError::MissingTopKey { expected: TopKey::Highlights }
    );
    assert_eq!(
        Log::from_str("[data]\n2024-01-01 = { Mon = \"\" }\n").unwrap_err(),
        ParseError::WrongTopKey { expected: TopKey::Highlights, found: "data".to_string() }
    );
    assert_eq!(
        Log::from_str("[highlights]\n").unwrap_err(),
        ParseError::MissingTopKey { expected: TopKey::Data }
    );
    assert_eq!(
        Log::from_str("[highlights]\n[other]\n").unwrap_err(),
        ParseError::WrongTopKey { expected: TopKey::Data, found: "other".to_string() }
    );
    let src = "[highlights]\n\
               [data]\n\
               2024-01-01 = { Mon = \"\" }\n\
               [extra]\n";
    assert_eq!(
        Log::from_str(src).unwrap_err(),
        ParseError::ExtraTopKey { found: "extra".to_string() }
    );
    assert_eq!(
        Log::from_str("highlights = \"nope\"\n[data]\n2024-01-01 = { Mon = \"\" }\n").unwrap_err(),
        ParseError::ExpectedTable { key: "highlights".to_string() }
    );
}

#[test]
fn highlight_record_errors() {
    let from = |body: &str| {
        let src = format!(
            "[highlights]\n{}\n[data]\n2024-01-01 = {{ Mon = \"\" }}\n",
            body
        );
        Log::from_str(&src).unwrap_err()
    };
    assert_eq!(
        from("sick = \"red\""),
        ParseError::ExpectedTable { key: "sick".to_string() }
    );
    assert_eq!(
        from("sick = { shape = 1, colour = \"#FF0000\" }"),
        ParseError::ExpectedString { key: "shape".to_string() }
    );
    assert_eq!(
        from("sick = { shape = \"circle\", colour = \"#FF0000\", size = \"big\" }"),
        ParseError::UnknownField { found: "size".to_string() }
    );
    assert_eq!(
        from("sick = { shape = \"circle\" }"),
        ParseError::MissingField { field: Field::Colour }
    );
    assert_eq!(
        from("sick = { colour = \"#FF0000\" }"),
        ParseError::MissingField { field: Field::Shape }
    );
    assert_eq!(
        from("sick = { shape = \"triangle\", colour = \"#FF0000\" }"),
        ParseError::BadShape { found: "triangle".to_string() }
    );
    assert_eq!(
        from("sick = { shape = \"circle\", colour = \"#ff0000\" }"),
        ParseError::BadColour { found: "#ff0000".to_string() }
    );
}

#[test]
fn duplicate_record_field_fails() {
    // a doubled field cannot be written in the source syntax either
    let v = Node::Table(vec![(
        "sick".to_string(),
        Node::Table(vec![
            ("shape".to_string(), Node::Str("circle".to_string())),
            ("shape".to_string(), Node::Str("circle".to_string())),
        ]),
    )]);
    let err = decode_highlights(&"highlights".to_string(), &v).unwrap_err();
    assert_eq!(err, ParseError::DuplicateField { field: Field::Shape });
}

#[test]
fn day_table_errors() {
    assert_eq!(
        Log::from_str("[highlights]\n[data]\n").unwrap_err(),
        ParseError::EmptyData
    );
    assert_eq!(
        Log::from_str("[highlights]\n[data]\nnotadate = { Mon = \"\" }\n").unwrap_err(),
        ParseError::BadDate { found: "notadate".to_string() }
    );
    assert_eq!(
        Log::from_str(
            "[highlights]\n[data]\n2024-01-01 = { Mon = \"\" }\n2024-01-32 = { Tue = \"\" }\n"
        )
        .unwrap_err(),
        ParseError::BadDate { found: "2024-01-32".to_string() }
    );
    assert_eq!(
        Log::from_str("[highlights]\n[data]\n2024-01-01 = {}\n").unwrap_err(),
        ParseError::NotOneEntry { key: "2024-01-01".to_string() }
    );
    assert_eq!(
        Log::from_str("[highlights]\n[data]\n2024-01-01 = { Mon = \"\", Tue = \"\" }\n")
            .unwrap_err(),
        ParseError::NotOneEntry { key: "2024-01-01".to_string() }
    );
    assert_eq!(
        Log::from_str("[highlights]\n[data]\n2024-01-01 = { Mon = 3 }\n").unwrap_err(),
        ParseError::ExpectedString { key: "Mon".to_string() }
    );
    assert_eq!(
        Log::from_str("[highlights]\n[data]\n2024-01-01 = \"x\"\n").unwrap_err(),
        ParseError::ExpectedTable { key: "2024-01-01".to_string() }
    );
}

#[test]
fn decode_data_directly() {
    // the day decoder itself, without the surface syntax in front of it
    let v = Node::Table(vec![(
        "2024-01-01".to_string(),
        Node::Table(vec![("Mon".to_string(), Node::Str("sick".to_string()))]),
    )]);
    let names = vec!["sick".to_string()];
    let (start, days) = decode_data(&"data".to_string(), &v, &names).unwrap();
    assert_eq!(start, Date { year: 2024, month: 1, day: 1 });
    assert_eq!(days.len(), 1);
    assert_eq!(days[0].highlight(), Some(0));
}
