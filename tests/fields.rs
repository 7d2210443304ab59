use form_adapters::calendar::{
    FixedOffsetDateTime, FixedOffsetDateTimeConfig, LocalDateTime, LocalDateTimeConfig, NaiveDate,
    NaiveDateConfig, NaiveDateTime, NaiveDateTimeConfig, UtcDateTime, UtcDateTimeConfig,
};
use form_adapters::identifiers::{Ulid, Uuid};
use form_adapters::signal::{FormError, FormFieldSignal};

const SAMPLE_UUID: &str = "550e8400-e29b-41d4-a716-446655440000";
const SAMPLE_UUID_BITS: u128 = 0x550e8400_e29b_41d4_a716_446655440000;

fn date(year: i32, month: u32, day: u32) -> NaiveDate {
    NaiveDate { year, month, day }
}

fn datetime(year: i32, month: u32, day: u32, secs: u32, nanos: u32) -> NaiveDateTime {
    NaiveDateTime { date: date(year, month, day), secs, nanos }
}

#[test]
fn uuid_invalid_then_valid_commit() {
    let mut signal = Uuid::default_signal(&(), None);
    signal.input("not-a-uuid".to_string());
    Uuid::commit(&mut signal, &(), false);
    assert!(matches!(signal.error, Some(FormError::Parse { .. })));
    signal.input(SAMPLE_UUID.to_string());
    assert_eq!(SAMPLE_UUID.len(), 36);
    Uuid::commit(&mut signal, &(), false);
    assert!(signal.error.is_none());
    assert_eq!(Uuid::try_from_signal(&signal, &()), Ok(Uuid { bits: SAMPLE_UUID_BITS }));
}

#[test]
fn date_invalid_then_valid_commit() {
    let config = NaiveDateConfig::default();
    let mut signal = NaiveDate::default_signal(&config, None).unwrap();
    signal.input("2024-02-30".to_string());
    NaiveDate::commit(&mut signal, &config, false);
    assert!(matches!(signal.error, Some(FormError::Parse { .. })));
    signal.input("2024-02-29".to_string());
    NaiveDate::commit(&mut signal, &config, false);
    assert!(signal.error.is_none());
    assert_eq!(NaiveDate::try_from_signal(&signal, &config), Ok(date(2024, 2, 29)));
}

#[test]
fn config_defaults() {
    assert_eq!(NaiveDateConfig::default().format, "%F");
    assert_eq!(NaiveDateTimeConfig::default().format, "%FT%T");
    assert_eq!(FixedOffsetDateTimeConfig::default().format, "%+");
    assert_eq!(UtcDateTimeConfig::default().format, "%+");
    assert_eq!(LocalDateTimeConfig::default().format, "%FT%T");
}

#[test]
fn uuid_text_and_round_trip() {
    let value = Uuid { bits: SAMPLE_UUID_BITS };
    let signal = value.into_signal(&(), None);
    assert_eq!(signal.value, SAMPLE_UUID);
    assert_eq!(signal.initial, None);
    assert_eq!(Uuid::try_from_signal(&signal, &()), Ok(value));
}

#[test]
fn uuid_accepts_uppercase_simple_form() {
    let signal = FormFieldSignal::new("550E8400E29B41D4A716446655440000".to_string(), None);
    assert_eq!(Uuid::try_from_signal(&signal, &()), Ok(Uuid { bits: SAMPLE_UUID_BITS }));
}

#[test]
fn ulid_text_and_round_trip() {
    let value = Ulid { bits: 0x41414141414141414141414141414141 };
    let signal = value.into_signal(&(), Some(Ulid { bits: 0 }));
    assert_eq!(signal.value, "21850M2GA1850M2GA1850M2GA1");
    assert_eq!(signal.initial, Some("00000000000000000000000000".to_string()));
    assert_eq!(Ulid::try_from_signal(&signal, &()), Ok(value));
}

#[test]
fn ulid_rejects_wrong_length() {
    let signal = FormFieldSignal::new("21850M2GA1".to_string(), None);
    let r = Ulid::try_from_signal(&signal, &());
    assert!(matches!(r, Err(FormError::Parse { .. })));
}

#[test]
fn identifier_default_signal_seeds_both_texts() {
    let signal = Uuid::default_signal(&(), Some(Uuid { bits: SAMPLE_UUID_BITS }));
    assert_eq!(signal.value, SAMPLE_UUID);
    assert_eq!(signal.initial, Some(SAMPLE_UUID.to_string()));
    assert!(signal.error.is_none());
    let empty = Ulid::default_signal(&(), None);
    assert_eq!(empty.value, "");
    assert_eq!(empty.initial, None);
}

#[test]
fn reset_initial_value_twice() {
    let mut signal = FormFieldSignal::new("abc".to_string(), Some("old".to_string()));
    signal.reset_initial_value();
    assert_eq!(signal.initial, Some("abc".to_string()));
    signal.reset_initial_value();
    assert_eq!(signal.initial, Some("abc".to_string()));
    assert_eq!(signal.value, "abc");
}

#[test]
fn default_value_is_empty_text() {
    assert!(FormFieldSignal::new(String::new(), None).is_default_value());
    assert!(!FormFieldSignal::new(" ".to_string(), None).is_default_value());
    assert!(NaiveDate::default_signal(&NaiveDateConfig::default(), None).unwrap().is_default_value());
    assert!(!Uuid::default_signal(&(), Some(Uuid { bits: 1 })).is_default_value());
}

#[test]
fn optional_empty_commit_clears_error() {
    let mut signal = FormFieldSignal::new("bad".to_string(), None);
    Uuid::commit(&mut signal, &(), true);
    assert!(signal.error.is_some());
    signal.input(String::new());
    Uuid::commit(&mut signal, &(), true);
    assert!(signal.error.is_none());
}

#[test]
fn required_empty_commit_sets_error() {
    let config = UtcDateTimeConfig::default();
    let mut signal = UtcDateTime::default_signal(&config, None).unwrap();
    UtcDateTime::commit(&mut signal, &config, false);
    assert!(signal.error.is_some());
}

#[test]
fn error_keeps_parser_message() {
    let signal = FormFieldSignal::new("2024-02-30".to_string(), None);
    let err = NaiveDate::try_from_signal(&signal, &NaiveDateConfig::default()).unwrap_err();
    assert!(!err.message().is_empty());
    assert_eq!(FormError::parse("x".to_string()).message(), "x");
}

#[test]
fn date_text_and_round_trip() {
    let config = NaiveDateConfig::default();
    let value = date(2024, 2, 29);
    let signal = value.into_signal(&config, Some(date(-5, 12, 31))).unwrap();
    assert_eq!(signal.value, "2024-02-29");
    assert_eq!(signal.initial, Some("-0005-12-31".to_string()));
    assert_eq!(NaiveDate::try_from_signal(&signal, &config), Ok(value));
}

#[test]
fn date_pattern_without_date_fields_cannot_be_written() {
    let config = NaiveDateConfig { format: "%H:%M" };
    assert!(date(2024, 1, 1).into_signal(&config, None).is_none());
    assert!(NaiveDate::default_signal(&config, Some(date(2024, 1, 1))).is_none());
    assert!(NaiveDate::default_signal(&config, None).is_some());
}

#[test]
fn datetime_text_and_round_trip() {
    let config = NaiveDateTimeConfig::default();
    let value = datetime(2023, 7, 14, 3_723, 0);
    let signal = value.into_signal(&config, None).unwrap();
    assert_eq!(signal.value, "2023-07-14T01:02:03");
    assert_eq!(NaiveDateTime::try_from_signal(&signal, &config), Ok(value));
}

#[test]
fn fixed_offset_parse_keeps_offset() {
    let config = FixedOffsetDateTimeConfig::default();
    let signal = FormFieldSignal::new("2024-02-29T10:00:00+02:00".to_string(), None);
    let expected = FixedOffsetDateTime { utc: datetime(2024, 2, 29, 8 * 3600, 0), offset: 7200 };
    assert_eq!(FixedOffsetDateTime::try_from_signal(&signal, &config), Ok(expected));
    let written = expected.into_signal(&config, None).unwrap();
    assert_eq!(written.value, "2024-02-29T10:00:00+02:00");
}

#[test]
fn utc_parse_and_text() {
    let config = UtcDateTimeConfig::default();
    let signal = FormFieldSignal::new("2024-02-29T10:00:00+02:00".to_string(), None);
    let expected = UtcDateTime { utc: datetime(2024, 2, 29, 8 * 3600, 0) };
    assert_eq!(UtcDateTime::try_from_signal(&signal, &config), Ok(expected));
    let written = expected.into_signal(&config, None).unwrap();
    assert_eq!(written.value, "2024-02-29T08:00:00+00:00");
    assert_eq!(UtcDateTime::try_from_signal(&written, &config), Ok(expected));
}

#[test]
fn local_parse_keeps_instant() {
    let config = LocalDateTimeConfig { format: "%+" };
    let signal = FormFieldSignal::new("2024-02-29T10:00:00+02:00".to_string(), None);
    let expected = LocalDateTime { utc: datetime(2024, 2, 29, 8 * 3600, 0) };
    assert_eq!(LocalDateTime::try_from_signal(&signal, &config), Ok(expected));
    let written = expected.into_signal(&config, None).unwrap();
    assert_eq!(LocalDateTime::try_from_signal(&written, &config), Ok(expected));
}

#[test]
fn local_default_config_needs_an_offset() {
    let config = LocalDateTimeConfig::default();
    let signal = FormFieldSignal::new("2024-02-29T10:00:00".to_string(), None);
    assert!(LocalDateTime::try_from_signal(&signal, &config).is_err());
}

#[test]
fn input_and_error_access() {
    let mut signal = FormFieldSignal::new_with_default_value(Some("a".to_string()));
    assert_eq!(signal.value, "a");
    signal.input("b".to_string());
    assert_eq!(signal.value, "b");
    assert_eq!(signal.initial, Some("a".to_string()));
    assert!(signal.with_error().is_none());
    Ulid::commit(&mut signal, &(), false);
    assert!(signal.with_error().is_some());
    signal.recurse();
}

#[test]
fn uuid_accepts_braced_and_urn_forms() {
    let braced = FormFieldSignal::new("{550e8400-e29b-41d4-a716-446655440000}".to_string(), None);
    assert_eq!(Uuid::try_from_signal(&braced, &()), Ok(Uuid { bits: SAMPLE_UUID_BITS }));
    let urn = FormFieldSignal::new("URN:uuid:550E8400-E29B-41D4-A716-446655440000".to_string(), None);
    assert_eq!(Uuid::try_from_signal(&urn, &()), Ok(Uuid { bits: SAMPLE_UUID_BITS }));
    let misplaced = FormFieldSignal::new("550e840-0e29b-41d4-a716-446655440000".to_string(), None);
    assert!(Uuid::try_from_signal(&misplaced, &()).is_err());
}

#[test]
fn ulid_accepts_lowercase_and_rejects_excluded_letters() {
    let lower = FormFieldSignal::new("2d9rw50ma499cmaghm6dd42dtp".to_string(), None);
    assert_eq!(Ulid::try_from_signal(&lower, &()), Ok(Ulid { bits: 0x4d4e385051444a59454234335a413756 }));
    let with_u = FormFieldSignal::new("2D9RW50MA499CMAGHM6DD42DTU".to_string(), None);
    assert!(Ulid::try_from_signal(&with_u, &()).is_err());
}
