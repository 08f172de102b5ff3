use notionrs::block::pdf::PdfBlock;
use notionrs::error::Error;
use notionrs::json::Json;
use notionrs::others::date_time::{leap_year, month_length, DateTime, LocalDateTime};
use notionrs::others::file::File;
use notionrs::page::date::{PageDateProperty, PageDatePropertyParameter};

fn local(
    year: u16,
    month: u8,
    day: u8,
    hour: u8,
    minute: u8,
    second: u8,
    millisecond: u16,
) -> LocalDateTime {
    LocalDateTime { year, month, day, hour, minute, second, millisecond }
}

#[test]
fn local_timestamp_with_offset_names_the_instant() {
    let moment = DateTime::from_local(local(2024, 8, 20, 18, 7, 14, 256), Some(7 * 60)).unwrap();
    assert_eq!(moment.to_wire(), "2024-08-20T18:07:14.256+07:00");
    assert_eq!(moment.epoch_millis(), 1724152034256);
    let utc = DateTime::from_wire("2024-08-20T11:07:14.256Z").unwrap();
    assert_eq!(utc.epoch_millis(), moment.epoch_millis());
    assert_eq!(utc.offset_minutes(), 0);
    assert_eq!(moment.offset_minutes(), 420);
    assert_eq!(moment.local(), local(2024, 8, 20, 18, 7, 14, 256));
}

#[test]
fn local_timestamp_without_offset_is_refused() {
    assert_eq!(
        DateTime::from_local(local(2024, 8, 20, 18, 7, 14, 256), None),
        Err(Error::MissingField { field: "offset".to_string() })
    );
    assert_eq!(
        DateTime::from_wire("2024-08-20T18:07:14"),
        Err(Error::MissingField { field: "offset".to_string() })
    );
    assert_eq!(
        DateTime::from_wire("2024-08-20T18:07:14.256"),
        Err(Error::MissingField { field: "offset".to_string() })
    );
}

#[test]
fn date_field_is_written_with_its_offset() {
    let start = DateTime::from_local(local(2023, 1, 15, 9, 30, 0, 0), Some(-330)).unwrap();
    let property = PageDateProperty::from(start);
    let written = property.to_json();
    let payload = written.get("date").unwrap();
    assert_eq!(
        payload.get("start"),
        Some(&Json::Str("2023-01-15T09:30:00-05:30".to_string()))
    );
    assert_eq!(payload.get("end"), None);
    assert_eq!(written.get("id"), None);
    let again = PageDateProperty::from_json(&written).unwrap();
    assert_eq!(again, property);
    assert_eq!(again.date.unwrap().start.unwrap().epoch_millis(), 1673794800000);
}

#[test]
fn date_field_without_offset_is_refused() {
    let doc = Json::Object(vec![(
        "date".to_string(),
        Json::Object(vec![("start".to_string(), Json::Str("2023-01-15T09:30:00".to_string()))]),
    )]);
    assert_eq!(
        PageDateProperty::from_json(&doc),
        Err(Error::MissingField { field: "offset".to_string() })
    );
}

#[test]
fn record_without_a_date_is_written_as_null() {
    let property = PageDateProperty { id: Some("abc".to_string()), date: None };
    let written = property.to_json();
    assert_eq!(written, Json::Object(vec![("date".to_string(), Json::Null)]));
    assert_eq!(PageDateProperty::from_json(&written), Ok(PageDateProperty::default()));
    let span = PageDateProperty {
        id: None,
        date: Some(PageDatePropertyParameter {
            start: Some(DateTime::from_wire("2024-01-01T00:00:00Z").unwrap()),
            end: Some(DateTime::from_wire("2024-01-02T00:00:00+01:00").unwrap()),
            time_zone: Some("Europe/Paris".to_string()),
        }),
    };
    assert_eq!(PageDateProperty::from_json(&span.to_json()), Ok(span));
}

#[test]
fn epoch_is_the_first_of_january_1970() {
    let epoch = DateTime::from_local(local(1970, 1, 1, 0, 0, 0, 0), Some(0)).unwrap();
    assert_eq!(epoch.epoch_millis(), 0);
    assert_eq!(epoch.to_wire(), "1970-01-01T00:00:00Z");
    let before = DateTime::from_local(local(1969, 12, 31, 23, 59, 59, 999), Some(0)).unwrap();
    assert_eq!(before.epoch_millis(), -1);
    let leap = DateTime::from_local(local(2000, 3, 1, 0, 0, 0, 0), Some(0)).unwrap();
    assert_eq!(leap.epoch_millis(), 951868800000);
    let first = DateTime::from_local(local(1, 1, 1, 0, 0, 0, 0), Some(0)).unwrap();
    assert_eq!(first.epoch_millis(), -62135596800000);
    let last = DateTime::from_local(local(9999, 12, 31, 23, 59, 59, 999), Some(0)).unwrap();
    assert_eq!(last.epoch_millis(), 253402300799999);
    assert_eq!(last.to_wire(), "9999-12-31T23:59:59.999Z");
}

#[test]
fn offset_moves_the_instant_the_other_way() {
    let east = DateTime::from_local(local(1970, 1, 1, 0, 0, 0, 0), Some(60)).unwrap();
    assert_eq!(east.epoch_millis(), -3_600_000);
    let west = DateTime::from_local(local(1970, 1, 1, 0, 0, 0, 0), Some(-1439)).unwrap();
    assert_eq!(west.epoch_millis(), 1439 * 60_000);
    assert_eq!(west.to_wire(), "1970-01-01T00:00:00-23:59");
    assert_eq!(DateTime::from_wire("1970-01-01T00:00:00.000-23:59"), Ok(west));
}

#[test]
fn days_that_do_not_exist_are_refused() {
    let invalid = Err(Error::InvalidType { field: "date".to_string() });
    assert_eq!(DateTime::from_local(local(2023, 2, 29, 0, 0, 0, 0), Some(0)), invalid);
    assert!(DateTime::from_local(local(2024, 2, 29, 0, 0, 0, 0), Some(0)).is_ok());
    assert_eq!(DateTime::from_local(local(1900, 2, 29, 0, 0, 0, 0), Some(0)), invalid);
    assert!(DateTime::from_local(local(2000, 2, 29, 0, 0, 0, 0), Some(0)).is_ok());
    assert_eq!(DateTime::from_local(local(2024, 4, 31, 0, 0, 0, 0), Some(0)), invalid);
    assert_eq!(DateTime::from_local(local(2024, 0, 1, 0, 0, 0, 0), Some(0)), invalid);
    assert_eq!(DateTime::from_local(local(2024, 13, 1, 0, 0, 0, 0), Some(0)), invalid);
    assert_eq!(DateTime::from_local(local(2024, 1, 0, 0, 0, 0, 0), Some(0)), invalid);
    assert_eq!(DateTime::from_local(local(2024, 1, 1, 24, 0, 0, 0), Some(0)), invalid);
    assert_eq!(DateTime::from_local(local(2024, 1, 1, 0, 60, 0, 0), Some(0)), invalid);
    assert_eq!(DateTime::from_local(local(2024, 1, 1, 0, 0, 60, 0), Some(0)), invalid);
    assert_eq!(DateTime::from_local(local(2024, 1, 1, 0, 0, 0, 1000), Some(0)), invalid);
    assert_eq!(DateTime::from_local(local(10000, 1, 1, 0, 0, 0, 0), Some(0)), invalid);
    assert_eq!(DateTime::from_wire("2023-02-29T00:00:00Z"), invalid);
}

#[test]
fn offsets_of_a_day_or_more_are_refused() {
    let invalid = Err(Error::InvalidType { field: "offset".to_string() });
    assert_eq!(DateTime::from_local(local(2024, 1, 1, 0, 0, 0, 0), Some(1440)), invalid);
    assert_eq!(DateTime::from_local(local(2024, 1, 1, 0, 0, 0, 0), Some(-1440)), invalid);
    assert!(DateTime::from_local(local(2024, 1, 1, 0, 0, 0, 0), Some(1439)).is_ok());
    assert_eq!(DateTime::from_wire("2024-01-01T00:00:00+24:00"), invalid);
    assert_eq!(DateTime::from_wire("2024-01-01T00:00:00+07:60"), invalid);
    assert_eq!(DateTime::from_wire("2024-01-01T00:00:00+0700"), invalid);
    assert_eq!(DateTime::from_wire("2024-01-01T00:00:00ZZ"), invalid);
    assert_eq!(DateTime::from_wire("2024-01-01T00:00:00.2x6Z"), invalid);
    assert_eq!(DateTime::from_wire("2024-01-01T00:00:00.256+07:00 "), invalid);
    assert_eq!(DateTime::from_wire("2024-01-01T00:00:00.2560000000Z"), invalid);
    assert_eq!(DateTime::from_wire("2024-01-01T00:00:00+07:0x"), invalid);
}

#[test]
fn texts_that_are_not_laid_out_are_refused() {
    let invalid = Err(Error::InvalidType { field: "date".to_string() });
    assert_eq!(DateTime::from_wire(""), invalid);
    assert_eq!(DateTime::from_wire("2024-08-20"), invalid);
    assert_eq!(DateTime::from_wire("2024/08/20T11:07:14Z"), invalid);
    assert_eq!(DateTime::from_wire("2024-08-20_11:07:14Z"), invalid);
    assert_eq!(DateTime::from_wire("2024-08-2011:07:14ZZ"), invalid);
    assert_eq!(DateTime::from_wire("20x4-08-20T11:07:14Z"), invalid);
    assert_eq!(DateTime::from_wire("2024-08-20T11:07:14.Z"), invalid);
    assert_eq!(DateTime::from_wire("2024-08-20T11:07:14.2561Z"), invalid);
    assert_eq!(DateTime::from_wire("2024-08-20T11:07:14.256000001Z"), invalid);
    assert_eq!(DateTime::from_wire("2024-08-20T11:07:60Z"), invalid);
    assert_eq!(DateTime::from_wire("\u{663}024-08-20T11:07:14Z"), invalid);
    assert_eq!(
        DateTime::from_wire("2024-08-20T11:07:14.256+07:00 and some more"),
        invalid
    );
}

#[test]
fn fraction_of_one_to_nine_digits_is_read() {
    let whole = DateTime::from_wire("2024-08-20T11:07:14Z").unwrap();
    assert_eq!(whole.local().millisecond, 0);
    for (text, millisecond) in [
        ("2024-08-20T11:07:14.5Z", 500),
        ("2024-08-20T11:07:14.25Z", 250),
        ("2024-08-20T11:07:14.256Z", 256),
        ("2024-08-20T11:07:14.007Z", 7),
        ("2024-08-20T11:07:14.2560Z", 256),
        ("2024-08-20T11:07:14.256000Z", 256),
        ("2024-08-20T11:07:14.256000000Z", 256),
        ("2024-08-20T11:07:14.000Z", 0),
        ("2024-08-20T11:07:14.0+07:00", 0),
    ] {
        assert_eq!(DateTime::from_wire(text).unwrap().local().millisecond, millisecond);
    }
}

#[test]
fn small_letters_and_a_space_are_read() {
    let moment = DateTime::from_wire("2024-08-20T11:07:14Z").unwrap();
    assert_eq!(DateTime::from_wire("2024-08-20t11:07:14z"), Ok(moment));
    assert_eq!(DateTime::from_wire("2024-08-20 11:07:14Z"), Ok(moment));
    assert_eq!(DateTime::from_wire("2024-08-20 11:07:14+00:00"), Ok(moment));
}

#[test]
fn date_text_is_kept_as_it_is_where_it_is_stored() {
    let moment = DateTime::from_local(local(2024, 1, 1, 9, 0, 0, 0), Some(7 * 60)).unwrap();
    let text = moment.to_wire();
    assert_eq!(text, "2024-01-01T09:00:00+07:00");
    assert_eq!(moment.epoch_millis(), 1704074400000);
    assert_eq!(
        moment.epoch_millis(),
        DateTime::from_wire("2024-01-01T02:00:00Z").unwrap().epoch_millis()
    );
    let block = PdfBlock::from("https://a.example/x.pdf").name(&text);
    match block.pdf {
        File::External(e) => assert_eq!(e.name, Some(text)),
        File::File(_) => panic!(),
    }
}

#[test]
fn text_in_the_written_form_is_written_as_it_was_read() {
    for text in [
        "2024-08-20T18:07:14.256+07:00",
        "2024-08-20T18:07:14+07:00",
        "2024-08-20T11:07:14Z",
        "2024-08-20T11:07:14.256Z",
        "0000-01-01T00:00:00Z",
        "2024-02-29T23:59:59.999-11:30",
        "2024-01-01T09:00:00+07:00",
        "9999-12-31T23:59:59.001-00:01",
    ] {
        assert_eq!(DateTime::from_wire(text).unwrap().to_wire(), text);
    }
}

#[test]
fn text_in_another_form_is_written_in_the_written_form() {
    for (read, written) in [
        ("2024-08-20T11:07:14+00:00", "2024-08-20T11:07:14Z"),
        ("2024-08-20T11:07:14-00:00", "2024-08-20T11:07:14Z"),
        ("2024-08-20T11:07:14.000Z", "2024-08-20T11:07:14Z"),
        ("2024-08-20T11:07:14.000+07:00", "2024-08-20T11:07:14+07:00"),
        ("2024-08-20t11:07:14.5z", "2024-08-20T11:07:14.500Z"),
        ("2024-08-20 11:07:14.250000-03:30", "2024-08-20T11:07:14.250-03:30"),
    ] {
        let moment = DateTime::from_wire(read).unwrap();
        assert_eq!(moment.to_wire(), written);
        assert_eq!(DateTime::from_wire(written), Ok(moment));
    }
}

#[test]
fn leap_years_and_month_lengths() {
    assert!(leap_year(2024) && leap_year(2000) && leap_year(0));
    assert!(!leap_year(2023) && !leap_year(1900) && !leap_year(2100));
    assert_eq!(month_length(2024, 2), 29);
    assert_eq!(month_length(2023, 2), 28);
    assert_eq!(month_length(2023, 4), 30);
    assert_eq!(month_length(2023, 12), 31);
    assert!(local(2024, 2, 29, 23, 59, 59, 999).is_valid());
    assert!(!local(2023, 2, 29, 0, 0, 0, 0).is_valid());
}

fn chrono_moment(l: LocalDateTime, offset_minutes: i16) -> chrono::DateTime<chrono::FixedOffset> {
    let naive = chrono::NaiveDate::from_ymd_opt(l.year as i32, l.month as u32, l.day as u32)
        .unwrap()
        .and_hms_milli_opt(l.hour as u32, l.minute as u32, l.second as u32, l.millisecond as u32)
        .unwrap();
    let offset = chrono::FixedOffset::east_opt(offset_minutes as i32 * 60).unwrap();
    naive.and_local_timezone(offset).single().unwrap()
}

fn samples() -> Vec<(LocalDateTime, i16)> {
    let mut all = Vec::new();
    for year in [0, 1, 1583, 1900, 1969, 1970, 1999, 2000, 2023, 2024, 2100, 9999] {
        for month in 1..=12 {
            for day in [1, 15, month_length(year, month)] {
                for (hour, minute, second, millisecond) in [
                    (0, 0, 0, 0),
                    (9, 0, 0, 0),
                    (12, 34, 56, 7),
                    (1, 2, 3, 120),
                    (23, 59, 59, 999),
                ] {
                    for offset in [0, 1, -1, 60, 420, -330, 1439, -1439] {
                        all.push((
                            local(year, month, day, hour, minute, second, millisecond),
                            offset,
                        ));
                    }
                }
            }
        }
    }
    all
}

#[test]
fn written_text_is_the_text_that_chrono_writes() {
    for (l, offset) in samples() {
        let ours = DateTime::from_local(l, Some(offset)).unwrap();
        let theirs = chrono_moment(l, offset);
        assert_eq!(
            format!("\"{}\"", ours.to_wire()),
            serde_json::to_string(&theirs).unwrap()
        );
    }
}

#[test]
fn instant_is_the_instant_that_chrono_counts() {
    for (l, offset) in samples() {
        let ours = DateTime::from_local(l, Some(offset)).unwrap();
        assert_eq!(ours.epoch_millis(), chrono_moment(l, offset).timestamp_millis());
    }
}

#[test]
fn written_text_is_read_by_chrono_as_the_same_moment() {
    for (l, offset) in samples() {
        let ours = DateTime::from_local(l, Some(offset)).unwrap();
        let text = format!("\"{}\"", ours.to_wire());
        let read: chrono::DateTime<chrono::FixedOffset> = serde_json::from_str(&text).unwrap();
        assert_eq!(read, chrono_moment(l, offset));
        assert_eq!(read.offset().local_minus_utc(), offset as i32 * 60);
        assert_eq!(DateTime::from_wire(&ours.to_wire()), Ok(ours));
    }
}

#[test]
fn texts_that_are_read_are_read_as_chrono_reads_them() {
    for text in [
        "2024-08-20T11:07:14Z",
        "2024-08-20T11:07:14z",
        "2024-08-20t11:07:14Z",
        "2024-08-20 11:07:14Z",
        "2024-08-20T11:07:14+00:00",
        "2024-08-20T11:07:14-00:00",
        "2024-08-20T11:07:14.5Z",
        "2024-08-20T11:07:14.25+07:00",
        "2024-08-20T11:07:14.256-05:30",
        "2024-08-20T11:07:14.256000Z",
        "2024-08-20T11:07:14.256000000+23:59",
        "0000-01-01T00:00:00.000-23:59",
        "9999-12-31T23:59:59.999Z",
    ] {
        let ours = DateTime::from_wire(text).unwrap();
        let theirs = chrono::DateTime::parse_from_rfc3339(text).unwrap();
        assert_eq!(ours.epoch_millis(), theirs.timestamp_millis());
        assert_eq!(ours.offset_minutes() as i32 * 60, theirs.offset().local_minus_utc());
        let quoted = format!("\"{}\"", text);
        let by_serde: chrono::DateTime<chrono::FixedOffset> =
            serde_json::from_str(&quoted).unwrap();
        assert_eq!(by_serde, theirs);
    }
}

#[test]
fn days_that_exist_are_the_days_that_chrono_knows() {
    for year in [0, 1, 1900, 1999, 2000, 2023, 2024, 2100, 9999] {
        for month in 0..=13 {
            for day in 0..=32 {
                let ours = local(year, month, day, 0, 0, 0, 0).is_valid();
                let theirs =
                    chrono::NaiveDate::from_ymd_opt(year as i32, month as u32, day as u32)
                        .is_some();
                assert_eq!(ours, theirs);
            }
        }
    }
}
