use icalendar::Component;
use notion2ics::{
    format_property, process_page, process_pages, relation_ids, render_calendar, Bound, CalDate,
    Date, DateEntry, DateParseError, NotionDatabaseResponse, NotionDate, NotionIcon, NotionPage,
    NotionPerson, NotionProperty, NotionPropertyValue, NotionRelation, NotionSelect,
    NotionSelectType, NotionText, NotionTextType, TimeOfDay,
};

fn day(year: i32, month: u32, day: u32) -> CalDate {
    CalDate { year, month, day }
}

fn hms(hour: u32, minute: u32, second: u32) -> TimeOfDay {
    TimeOfDay { hour, minute, second, nanosecond: 0 }
}

fn text(s: &str) -> NotionText {
    NotionText { type_: NotionTextType::Text, plain_text: s.to_string() }
}

fn select(id: NotionSelectType, name: &str) -> NotionSelect {
    NotionSelect { id, name: name.to_string() }
}

fn prop(name: &str, value: NotionPropertyValue) -> (String, NotionProperty) {
    (name.to_string(), NotionProperty { value })
}

fn date_value(start: &str, end: Option<&str>) -> NotionPropertyValue {
    NotionPropertyValue::Date(Some(NotionDate {
        start: start.to_string(),
        end: end.map(|e| e.to_string()),
        timezone: None,
    }))
}

fn page(id: &str, icon: Option<&str>, properties: Vec<(String, NotionProperty)>) -> NotionPage {
    NotionPage {
        id: id.to_string(),
        icon: icon.map(|e| NotionIcon { emoji: Some(e.to_string()) }),
        url: format!("https://www.notion.so/{id}"),
        properties,
        created_time: "2024-04-01T08:00:00.000Z".to_string(),
        last_edited_time: "2024-04-02T08:00:00.000Z".to_string(),
        archived: false,
    }
}

fn no_titles() -> Vec<(String, String)> {
    Vec::new()
}

fn entry(date: Date, additional: Vec<(String, String)>) -> DateEntry {
    DateEntry {
        id: "abc".to_string(),
        title: "Launch".to_string(),
        date,
        url: "https://www.notion.so/abc".to_string(),
        additional,
    }
}

#[test]
fn normalize_timestamp_keeps_time() {
    let d = Date::normalize("2024-05-01T10:00:00Z", None).unwrap();
    assert_eq!(d.start_date, day(2024, 5, 1));
    assert_eq!(d.start_time, Some(hms(10, 0, 0)));
    assert_eq!(d.end_date, None);
    assert_eq!(d.end_time, None);
}

#[test]
fn normalize_timestamp_with_offset_keeps_local_time() {
    let d = Date::normalize("2024-05-01T23:30:15.5+02:00", None).unwrap();
    assert_eq!(d.start_date, day(2024, 5, 1));
    assert_eq!(d.start_time, Some(TimeOfDay { hour: 23, minute: 30, second: 15, nanosecond: 500_000_000 }));
}

#[test]
fn normalize_bare_date_has_no_time() {
    let d = Date::normalize("2024-05-01", None).unwrap();
    assert_eq!(d.start_date, day(2024, 5, 1));
    assert_eq!(d.start_time, None);
    assert_eq!(d.end_date, None);
}

#[test]
fn normalize_leap_day() {
    assert_eq!(Date::normalize("2024-02-29", None).unwrap().start_date, day(2024, 2, 29));
    assert_eq!(Date::normalize("2023-02-29", None), Err(DateParseError));
}

#[test]
fn normalize_not_a_date_fails() {
    assert_eq!(Date::normalize("not-a-date", None), Err(DateParseError));
    assert_eq!(Date::normalize("", None), Err(DateParseError));
}

#[test]
fn normalize_reads_the_end_value() {
    let d = Date::normalize("2024-05-01", Some("2024-05-03")).unwrap();
    assert_eq!(d.end_date, Some(day(2024, 5, 3)));
    assert_eq!(d.end_time, None);
    let d = Date::normalize("2024-05-01T10:00:00Z", Some("2024-05-02T12:15:00Z")).unwrap();
    assert_eq!(d.end_date, Some(day(2024, 5, 2)));
    assert_eq!(d.end_time, Some(hms(12, 15, 0)));
}

#[test]
fn normalize_bad_end_fails() {
    assert_eq!(Date::normalize("2024-05-01", Some("soon")), Err(DateParseError));
}

#[test]
fn event_timed_without_end_lasts_one_hour() {
    let d = Date::normalize("2024-05-01T10:00:00Z", None).unwrap();
    let parts = entry(d, vec![]).event_parts();
    assert_eq!(parts.starts, Bound::At(day(2024, 5, 1), hms(10, 0, 0)));
    assert_eq!(parts.ends, Some(Bound::At(day(2024, 5, 1), hms(11, 0, 0))));
}

#[test]
fn event_one_hour_crosses_midnight() {
    let d = Date::normalize("2024-12-31T23:30:00Z", None).unwrap();
    let parts = entry(d, vec![]).event_parts();
    assert_eq!(parts.ends, Some(Bound::At(day(2025, 1, 1), hms(0, 30, 0))));
}

#[test]
fn event_whole_day_has_no_end() {
    let d = Date::normalize("2024-05-01", None).unwrap();
    let parts = entry(d, vec![]).event_parts();
    assert_eq!(parts.starts, Bound::Day(day(2024, 5, 1)));
    assert_eq!(parts.ends, None);
}

#[test]
fn event_uses_end_value() {
    let d = Date::normalize("2024-05-01", Some("2024-05-04")).unwrap();
    assert_eq!(entry(d, vec![]).event_parts().ends, Some(Bound::Day(day(2024, 5, 4))));
    let d = Date::normalize("2024-05-01T09:00:00Z", Some("2024-05-01T17:30:00Z")).unwrap();
    assert_eq!(
        entry(d, vec![]).event_parts().ends,
        Some(Bound::At(day(2024, 5, 1), hms(17, 30, 0)))
    );
}

#[test]
fn event_description_lines() {
    let d = Date::normalize("2024-05-01", None).unwrap();
    let e = entry(
        d,
        vec![
            ("🔢 Priority".to_string(), "1".to_string()),
            ("▶️ Kind".to_string(), "Release".to_string()),
        ],
    );
    let parts = e.event_parts();
    assert_eq!(parts.uid, "abc");
    assert_eq!(parts.summary, "Launch");
    assert_eq!(parts.description, "🔢 Priority: 1\n▶️ Kind: Release\n---\nhttps://www.notion.so/abc");
    let bare = entry(d, vec![]).event_parts();
    assert_eq!(bare.description, "---\nhttps://www.notion.so/abc");
}

#[test]
fn format_multi_select_joins_labels() {
    let v = NotionPropertyValue::MultiSelect(vec![
        select(NotionSelectType::Unknown, "A"),
        select(NotionSelectType::Unknown, "B"),
    ]);
    let r = format_property(&"Tags".to_string(), &v, &no_titles());
    assert_eq!(r, Some(("➡️ Tags".to_string(), "A B".to_string())));
    let empty = NotionPropertyValue::MultiSelect(vec![]);
    assert_eq!(format_property(&"Tags".to_string(), &empty, &no_titles()), None);
}

#[test]
fn format_scalar_kinds() {
    let t = no_titles();
    let n = "Name".to_string();
    assert_eq!(
        format_property(&n, &NotionPropertyValue::Number(Some("2.5".to_string())), &t),
        Some(("🔢 Name".to_string(), "2.5".to_string()))
    );
    assert_eq!(format_property(&n, &NotionPropertyValue::Number(None), &t), None);
    assert_eq!(
        format_property(&n, &NotionPropertyValue::Url(Some("https://x.org".to_string())), &t),
        Some(("ℹ️ Name".to_string(), "https://x.org".to_string()))
    );
    assert_eq!(format_property(&n, &NotionPropertyValue::Url(None), &t), None);
    assert_eq!(
        format_property(&n, &NotionPropertyValue::Select(Some(select(NotionSelectType::Unknown, "High"))), &t),
        Some(("▶️ Name".to_string(), "High".to_string()))
    );
    assert_eq!(format_property(&n, &NotionPropertyValue::Select(None), &t), None);
    assert_eq!(
        format_property(&n, &NotionPropertyValue::Status(select(NotionSelectType::Done, "Done")), &t),
        Some(("⏺️ Name".to_string(), "Done".to_string()))
    );
}

#[test]
fn format_text_and_people() {
    let t = no_titles();
    let n = "Notes".to_string();
    let v = NotionPropertyValue::RichText(vec![text("hello"), text("world")]);
    assert_eq!(format_property(&n, &v, &t), Some(("🇹 Notes".to_string(), "hello world".to_string())));
    let people = NotionPropertyValue::People(vec![
        NotionPerson { id: "p1".to_string(), name: Some("Ada".to_string()) },
        NotionPerson { id: "p2".to_string(), name: None },
    ]);
    assert_eq!(
        format_property(&"Who".to_string(), &people, &t),
        Some(("🚹 Who".to_string(), "Ada NoName".to_string()))
    );
}

#[test]
fn format_excluded_kinds() {
    let t = no_titles();
    let n = "X".to_string();
    assert_eq!(format_property(&n, &date_value("2024-05-01", None), &t), None);
    assert_eq!(format_property(&n, &NotionPropertyValue::Title(vec![text("T")]), &t), None);
    assert_eq!(format_property(&n, &NotionPropertyValue::Unknown, &t), None);
    assert_eq!(format_property(&n, &NotionPropertyValue::Checkbox(serde_json::Value::Bool(true)), &t), None);
}

#[test]
fn format_relation_uses_last_resolved_title() {
    let v = NotionPropertyValue::Relation(vec![
        NotionRelation { id: "r1".to_string() },
        NotionRelation { id: "r2".to_string() },
        NotionRelation { id: "r3".to_string() },
    ]);
    let titles = vec![
        ("r1".to_string(), "First".to_string()),
        ("r2".to_string(), "Second".to_string()),
    ];
    assert_eq!(
        format_property(&"Project".to_string(), &v, &titles),
        Some(("↗️ Project".to_string(), "Second".to_string()))
    );
    assert_eq!(format_property(&"Project".to_string(), &v, &no_titles()), None);
}

#[test]
fn process_drops_page_without_date() {
    let p = page("abc", None, vec![prop("Name", NotionPropertyValue::Title(vec![text("Launch")]))]);
    assert_eq!(process_page(&p, &no_titles()), None);
    let empty = NotionPropertyValue::Date(None);
    let p = page("abc", None, vec![prop("When", empty)]);
    assert_eq!(process_page(&p, &no_titles()), None);
}

#[test]
fn process_drops_page_with_bad_date() {
    let p = page("abc", None, vec![prop("When", date_value("someday", None))]);
    assert_eq!(process_page(&p, &no_titles()), None);
}

fn launch_page(start: &str) -> NotionPage {
    page(
        "abc",
        None,
        vec![
            prop("Name", NotionPropertyValue::Title(vec![text("Launch")])),
            prop("Status", NotionPropertyValue::Status(select(NotionSelectType::InProgress, "In progress"))),
            prop("When", date_value(start, None)),
            prop("Priority", NotionPropertyValue::Number(Some("1".to_string()))),
        ],
    )
}

#[test]
fn end_to_end_whole_day() {
    let e = process_page(&launch_page("2024-05-01"), &no_titles()).unwrap();
    let parts = e.event_parts();
    assert!(parts.summary.starts_with("🟧"));
    assert_eq!(parts.summary, "🟧 Launch");
    assert!(parts.description.lines().any(|l| l == "🔢 Priority: 1"));
    assert_eq!(parts.starts, Bound::Day(day(2024, 5, 1)));
    assert_eq!(parts.ends, None);
    let ics = render_calendar(&vec![e]);
    assert!(ics.contains("DTSTART;VALUE=DATE:20240501"));
    assert!(!ics.contains("DTEND"));
    assert!(ics.contains("UID:abc"));
}

#[test]
fn end_to_end_timed() {
    let e = process_page(&launch_page("2024-05-01T10:00:00Z"), &no_titles()).unwrap();
    let parts = e.event_parts();
    assert_eq!(parts.starts, Bound::At(day(2024, 5, 1), hms(10, 0, 0)));
    assert_eq!(parts.ends, Some(Bound::At(day(2024, 5, 1), hms(11, 0, 0))));
    let ics = render_calendar(&vec![e]);
    assert!(ics.contains("DTSTART:20240501T100000"));
    assert!(ics.contains("DTEND:20240501T110000"));
}

#[test]
fn title_icon_and_status() {
    let mut p = launch_page("2024-05-01");
    p.icon = Some(NotionIcon { emoji: Some("🚀".to_string()) });
    assert_eq!(p.title(), "🚀 Launch");
    let e = process_page(&p, &no_titles()).unwrap();
    assert_eq!(e.title, "🚀 🟧 Launch");
    let done = page(
        "d",
        None,
        vec![
            prop("Name", NotionPropertyValue::Title(vec![text("Ship"), text("it")])),
            prop("Status", NotionPropertyValue::Status(select(NotionSelectType::Done, "Done"))),
            prop("When", date_value("2024-05-01", None)),
        ],
    );
    assert_eq!(process_page(&done, &no_titles()).unwrap().title, "✅ Ship");
    let other = page(
        "o",
        None,
        vec![
            prop("Name", NotionPropertyValue::Title(vec![text("Plan")])),
            prop("Status", NotionPropertyValue::Status(select(NotionSelectType::Unknown, "Blocked"))),
            prop("When", date_value("2024-05-01", None)),
        ],
    );
    assert_eq!(process_page(&other, &no_titles()).unwrap().title, "Plan");
}

#[test]
fn process_collects_pairs_in_order() {
    let p = page(
        "abc",
        None,
        vec![
            prop("When", date_value("2024-05-01", None)),
            prop("B", NotionPropertyValue::Number(Some("2".to_string()))),
            prop("A", NotionPropertyValue::Url(Some("https://a.org".to_string()))),
            prop("C", NotionPropertyValue::Url(None)),
        ],
    );
    let e = process_page(&p, &no_titles()).unwrap();
    assert_eq!(
        e.additional,
        vec![
            ("🔢 B".to_string(), "2".to_string()),
            ("ℹ️ A".to_string(), "https://a.org".to_string()),
        ]
    );
    assert_eq!(e.id, "abc");
    assert_eq!(e.url, "https://www.notion.so/abc");
    assert_eq!(e.title, "");
}

#[test]
fn process_pages_keeps_dated_pages() {
    let response = NotionDatabaseResponse {
        object: "list".to_string(),
        pages: vec![
            launch_page("2024-05-01"),
            page("nodate", None, vec![]),
            page("late", None, vec![prop("When", date_value("2024-06-01", None))]),
        ],
    };
    let entries = process_pages(&response, &no_titles());
    assert_eq!(entries.len(), 2);
    assert_eq!(entries[0].id, "abc");
    assert_eq!(entries[1].id, "late");
}

#[test]
fn relation_ids_in_order() {
    let p = page(
        "abc",
        None,
        vec![
            prop("P", NotionPropertyValue::Relation(vec![NotionRelation { id: "r1".to_string() }])),
            prop("Q", NotionPropertyValue::Number(None)),
            prop(
                "R",
                NotionPropertyValue::Relation(vec![
                    NotionRelation { id: "r2".to_string() },
                    NotionRelation { id: "r3".to_string() },
                ]),
            ),
        ],
    );
    assert_eq!(relation_ids(&p), vec!["r1".to_string(), "r2".to_string(), "r3".to_string()]);
}

#[test]
fn pipeline_twice_gives_same_output() {
    let response = NotionDatabaseResponse {
        object: "list".to_string(),
        pages: vec![launch_page("2024-05-01"), launch_page("2024-05-01T10:00:00Z")],
    };
    let first = process_pages(&response, &no_titles());
    let second = process_pages(&response, &no_titles());
    assert_eq!(first, second);
    let stable = |s: String| {
        s.lines().filter(|l| !l.starts_with("DTSTAMP")).collect::<Vec<_>>().join("\n")
    };
    assert_eq!(stable(render_calendar(&first)), stable(render_calendar(&second)));
}

#[test]
fn from_points_combines_readings() {
    let s = Some((day(2024, 5, 1), Some(hms(9, 0, 0))));
    let e = Some((day(2024, 5, 2), None));
    assert_eq!(
        Date::from_points(s, None),
        Ok(Date { start_date: day(2024, 5, 1), start_time: Some(hms(9, 0, 0)), end_date: None, end_time: None })
    );
    assert_eq!(
        Date::from_points(s, Some(e)),
        Ok(Date {
            start_date: day(2024, 5, 1),
            start_time: Some(hms(9, 0, 0)),
            end_date: Some(day(2024, 5, 2)),
            end_time: None,
        })
    );
    assert_eq!(Date::from_points(s, Some(None)), Err(DateParseError));
    assert_eq!(Date::from_points(None, Some(e)), Err(DateParseError));
}

#[test]
fn as_event_sets_properties() {
    let e = process_page(&launch_page("2024-05-01T10:00:00Z"), &no_titles()).unwrap();
    let event = e.as_event();
    assert_eq!(event.get_uid(), Some("abc"));
    assert_eq!(event.get_summary(), Some("🟧 Launch"));
    assert_eq!(event.get_description(), Some("⏺️ Status: In progress\n🔢 Priority: 1\n---\nhttps://www.notion.so/abc"));
    assert!(event.property_value("DTSTART").is_some());
    assert!(event.property_value("DTEND").is_some());
    let whole = process_page(&launch_page("2024-05-01"), &no_titles()).unwrap().as_event();
    assert!(whole.property_value("DTEND").is_none());
}

#[test]
fn calendar_keeps_every_entry() {
    let e = process_page(&launch_page("2024-05-01"), &no_titles()).unwrap();
    let entries = vec![e.clone(), e];
    let calendar = notion2ics::create_calendar(&entries);
    assert_eq!(calendar.len(), 2);
    assert_eq!(calendar.get_name(), Some("notion2ics"));
    let text = render_calendar(&entries);
    assert!(text.starts_with("BEGIN:VCALENDAR\r\n"));
    assert_eq!(text.split("\r\n").filter(|l| *l == "BEGIN:VEVENT").count(), 2);
}

#[test]
fn empty_calendar_has_no_events() {
    let calendar = notion2ics::create_calendar(&vec![]);
    assert_eq!(calendar.len(), 0);
    assert_eq!(calendar.get_name(), Some("notion2ics"));
    let text = render_calendar(&vec![]);
    assert!(text.starts_with("BEGIN:VCALENDAR\r\n"));
    assert!(!text.contains("BEGIN:VEVENT"));
}

#[test]
fn event_times_written_to_whole_seconds() {
    let e = process_page(&launch_page("2024-05-01T10:00:15.75Z"), &no_titles()).unwrap();
    let parts = e.event_parts();
    assert_eq!(
        parts.starts,
        Bound::At(day(2024, 5, 1), TimeOfDay { hour: 10, minute: 0, second: 15, nanosecond: 750_000_000 })
    );
    let ics = render_calendar(&vec![e]);
    assert!(ics.contains("DTSTART:20240501T100015"));
    assert!(ics.contains("DTEND:20240501T110015"));
}

#[test]
fn event_one_hour_rolls_into_next_month() {
    let d = Date::normalize("2024-02-29T23:15:00Z", None).unwrap();
    let parts = entry(d, vec![]).event_parts();
    assert_eq!(parts.ends, Some(Bound::At(day(2024, 3, 1), hms(0, 15, 0))));
}
