use rctrl::influx::attribute::{
    unquote, AttributeError, ContainerAttributes, FieldAttributes, ParsedAttribute,
};
use rctrl::influx::record::TimeSeriesRecord;
use rctrl::influx::time::TimestampPrecision;
use rctrl::influx::ToFieldValue;

fn tag(name: &str) -> ParsedAttribute {
    ParsedAttribute::Tag(name.to_string())
}

fn property(name: &str, value: &str) -> ParsedAttribute {
    ParsedAttribute::Property(name.to_string(), value.to_string())
}

fn container(attributes: Vec<ParsedAttribute>) -> Result<(String, TimestampPrecision), AttributeError> {
    ContainerAttributes::parse(&attributes).map(|c| (c.measurement, c.timestamp_precision))
}

fn member(attributes: Vec<ParsedAttribute>) -> Result<String, AttributeError> {
    FieldAttributes::parse(&attributes).map(|f| format!("{:?}", f))
}

#[test]
fn record_with_tags_and_fields() {
    let mut record = TimeSeriesRecord::new("weather".to_string());
    assert!(record.tag("location".to_string(), "us-midwest".to_string()));
    assert!(record.tag("season".to_string(), "summer".to_string()));
    assert!(record.field("temperature".to_string(), 82i64.to_field_value()));
    assert!(record.field("humid".to_string(), true.to_field_value()));
    assert!(record.field("count".to_string(), 3u64.to_field_value()));
    assert_eq!(record.tag_count(), 2);
    assert_eq!(record.field_count(), 3);
    assert_eq!(
        record.to_line(1465839830100400200),
        Some(
            "weather,location=us-midwest,season=summer temperature=82i,humid=true,count=3u 1465839830100400200"
                .to_string()
        )
    );
}

#[test]
fn record_without_tags() {
    let mut record = TimeSeriesRecord::new("m".to_string());
    assert!(record.field("x".to_string(), "1.5".to_string()));
    assert_eq!(record.to_line(0), Some("m x=1.5 0".to_string()));
}

#[test]
fn record_without_fields_is_dropped() {
    let mut record = TimeSeriesRecord::new("m".to_string());
    assert_eq!(record.to_line(1), None);
    assert!(record.tag("a".to_string(), "b".to_string()));
    assert_eq!(record.field_count(), 0);
    assert_eq!(record.to_line(1), None);
}

#[test]
fn record_keys_are_unique() {
    let mut record = TimeSeriesRecord::new("m".to_string());
    assert!(record.tag("a".to_string(), "1".to_string()));
    assert!(!record.tag("a".to_string(), "2".to_string()));
    assert!(!record.field("a".to_string(), "3i".to_string()));
    assert!(record.field("b".to_string(), "4i".to_string()));
    assert!(!record.field("b".to_string(), "5i".to_string()));
    assert!(!record.tag("b".to_string(), "6".to_string()));
    assert_eq!(record.tag_count(), 1);
    assert_eq!(record.field_count(), 1);
    assert_eq!(record.to_line(9), Some("m,a=1 b=4i 9".to_string()));
}

#[test]
fn string_literals() {
    assert_eq!(unquote("\"pressure\""), Some("pressure".to_string()));
    assert_eq!(unquote("\"\""), Some("".to_string()));
    assert_eq!(unquote("\"\u{e9}t\u{e9}\""), Some("\u{e9}t\u{e9}".to_string()));
    assert_eq!(unquote("\"a\"b\""), Some("a\"b".to_string()));
    assert_eq!(unquote("pressure"), None);
    assert_eq!(unquote("\"pressure"), None);
    assert_eq!(unquote("pressure\""), None);
    assert_eq!(unquote("\""), None);
    assert_eq!(unquote(""), None);
}

#[test]
fn container_defaults() {
    let defaults = ContainerAttributes::default();
    assert_eq!(defaults.measurement, "measurment");
    assert_eq!(defaults.timestamp_precision, TimestampPrecision::Nanoseconds);
    assert_eq!(container(vec![]), Ok(("measurment".to_string(), TimestampPrecision::Nanoseconds)));
}

#[test]
fn container_settings() {
    assert_eq!(
        container(vec![property("measurement", "\"pressure\"")]),
        Ok(("pressure".to_string(), TimestampPrecision::Nanoseconds))
    );
    assert_eq!(
        container(vec![property("timestamp_precision", "\"milliseconds\"")]),
        Ok(("measurment".to_string(), TimestampPrecision::Milliseconds))
    );
    assert_eq!(
        container(vec![
            property("measurement", "\"a\""),
            property("timestamp_precision", "\"seconds\""),
            property("measurement", "\"b\""),
            property("timestamp_precision", "\"microseconds\""),
        ]),
        Ok(("b".to_string(), TimestampPrecision::Microseconds))
    );
}

#[test]
fn container_refusals() {
    assert_eq!(container(vec![property("measurement", "pressure")]), Err(AttributeError::NotALiteralStr));
    assert_eq!(container(vec![property("timestamp_precision", "seconds")]), Err(AttributeError::NotALiteralStr));
    assert_eq!(
        container(vec![property("timestamp_precision", "\"minutes\"")]),
        Err(AttributeError::UnknownTimestampPrecision)
    );
    assert_eq!(container(vec![tag("measurement")]), Err(AttributeError::UnknownContainerAttribute));
    assert_eq!(container(vec![property("series", "\"x\"")]), Err(AttributeError::UnknownContainerAttribute));
    // The first attribute that is refused decides.
    assert_eq!(
        container(vec![property("measurement", "\"a\""), tag("x"), property("measurement", "b")]),
        Err(AttributeError::UnknownContainerAttribute)
    );
}

#[test]
fn member_settings() {
    assert_eq!(format!("{:?}", FieldAttributes::default()), "Untracked");
    assert_eq!(member(vec![]), Ok("Untracked".to_string()));
    assert_eq!(member(vec![tag("tag")]), Ok("Tag(None)".to_string()));
    assert_eq!(member(vec![tag("field")]), Ok("Field(None)".to_string()));
    assert_eq!(member(vec![property("tag", "\"id\"")]), Ok("Tag(Some(\"id\"))".to_string()));
    assert_eq!(member(vec![property("field", "\"value2\"")]), Ok("Field(Some(\"value2\"))".to_string()));
    // A value that is no string literal changes nothing.
    assert_eq!(member(vec![property("tag", "id")]), Ok("Untracked".to_string()));
    assert_eq!(member(vec![tag("field"), property("tag", "id")]), Ok("Field(None)".to_string()));
    // A later attribute overrides an earlier one.
    assert_eq!(member(vec![tag("tag"), property("field", "\"v\"")]), Ok("Field(Some(\"v\"))".to_string()));
}

#[test]
fn member_refusals() {
    assert_eq!(member(vec![tag("untracked")]), Err(AttributeError::UnknownFieldAttribute));
    assert_eq!(member(vec![property("key", "\"v\"")]), Err(AttributeError::UnknownFieldAttribute));
    assert_eq!(member(vec![tag("tag"), tag("other")]), Err(AttributeError::UnknownFieldAttribute));
}
