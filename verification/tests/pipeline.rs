use wxwarn::Alert;
use wxwarn::AttributeRecord;
use wxwarn::ContextClass;
use wxwarn::ContextElement;
use wxwarn::FieldValue;
use wxwarn::Geocode;
use wxwarn::Parameters;
use wxwarn::PipelineError;
use wxwarn::Properties;
use wxwarn::Resolution;
use wxwarn::SchemaIssue;
use wxwarn::extract_identifier;
use wxwarn::match_records;
use wxwarn::render_report;
use wxwarn::run_pipeline;

fn record_with(fields: Vec<(&str, FieldValue)>) -> AttributeRecord {
    let mut r = AttributeRecord::new();
    for (name, value) in fields {
        r.push_field(name.to_owned(), value);
    }
    r
}

fn text(s: &str) -> FieldValue {
    FieldValue::Character(Some(s.to_owned()))
}

fn alert_with(headline: &str, description: &str, instruction: &str, area_desc: &str) -> Alert {
    Alert {
        context: vec![
            ContextElement::Text("https://geojson.org/geojson-ld/geojson-context.jsonld".to_owned()),
            ContextElement::ContextClass(ContextClass {
                version: "1.0".to_owned(),
                wx: "https://api.weather.gov/ontology#".to_owned(),
                vocab: "https://api.weather.gov/ontology#".to_owned(),
            }),
        ],
        id: "https://api.weather.gov/alerts/test".to_owned(),
        alert_type: "Feature".to_owned(),
        geometry: serde_json::Value::Null,
        properties: Properties {
            id: "https://api.weather.gov/alerts/test".to_owned(),
            properties_type: "wx:Alert".to_owned(),
            properties_id: "test".to_owned(),
            area_desc: area_desc.to_owned(),
            geocode: Geocode { same: vec!["023009".to_owned()], ugc: vec!["MEZ023".to_owned()] },
            affected_zones: vec!["https://api.weather.gov/zones/forecast/MEZ023".to_owned()],
            references: vec![],
            sent: "2023-01-01T00:00:00-05:00".to_owned(),
            effective: "2023-01-01T00:00:00-05:00".to_owned(),
            onset: "2023-01-01T01:00:00-05:00".to_owned(),
            expires: "2023-01-02T00:00:00-05:00".to_owned(),
            ends: "2023-01-02T00:00:00-05:00".to_owned(),
            status: "Actual".to_owned(),
            message_type: "Alert".to_owned(),
            category: "Met".to_owned(),
            severity: "Moderate".to_owned(),
            certainty: "Likely".to_owned(),
            urgency: "Expected".to_owned(),
            event: "Winter Weather Advisory".to_owned(),
            sender: "w-nws.webmaster@noaa.gov".to_owned(),
            sender_name: "NWS Gray ME".to_owned(),
            headline: headline.to_owned(),
            description: description.to_owned(),
            instruction: instruction.to_owned(),
            response: "Execute".to_owned(),
            parameters: Parameters {
                awip_sidentifier: vec!["WSWGYX".to_owned()],
                wm_oidentifier: vec!["WWUS41 KGYX".to_owned()],
                nw_sheadline: vec!["ADVISORY IN EFFECT".to_owned()],
                blockchannel: vec!["EAS".to_owned()],
                vtec: vec!["/O.NEW.KGYX.WW.Y.0001.000000T0000Z/".to_owned()],
                event_ending_time: vec!["2023-01-02T00:00:00+00:00".to_owned()],
                expired_references: None,
            },
        },
    }
}

#[test]
fn extract_identifier_present() {
    let r = record_with(vec![("WARNGRP", FieldValue::Other), ("CAP_ID", text("NWS-IDP-1"))]);
    assert_eq!(extract_identifier(&r).unwrap(), "NWS-IDP-1");
}

#[test]
fn extract_identifier_missing_field() {
    let r = record_with(vec![("WARNGRP", FieldValue::Other)]);
    assert_eq!(
        extract_identifier(&r).unwrap_err(),
        PipelineError::Schema(SchemaIssue::MissingIdentifier)
    );
}

#[test]
fn extract_identifier_not_character() {
    let r = record_with(vec![("CAP_ID", FieldValue::Other)]);
    assert_eq!(
        extract_identifier(&r).unwrap_err(),
        PipelineError::Schema(SchemaIssue::NotCharacter)
    );
}

#[test]
fn extract_identifier_blank_character() {
    let r = record_with(vec![("CAP_ID", FieldValue::Character(None))]);
    assert_eq!(
        extract_identifier(&r).unwrap_err(),
        PipelineError::Schema(SchemaIssue::NotCharacter)
    );
}

#[test]
fn get_returns_first_field_of_name() {
    let r = record_with(vec![("CAP_ID", text("first")), ("CAP_ID", text("second"))]);
    assert_eq!(r.get(&"CAP_ID".to_owned()), Some(&text("first")));
    assert_eq!(r.get(&"ABSENT".to_owned()), None);
}

#[test]
fn match_records_keeps_flagged_in_order() {
    let entries = vec![
        (true, record_with(vec![("CAP_ID", text("a"))])),
        (false, record_with(vec![("CAP_ID", text("b"))])),
        (true, record_with(vec![("CAP_ID", text("c"))])),
    ];
    let matched = match_records(&entries);
    assert_eq!(matched.len(), 2);
    assert_eq!(extract_identifier(&matched[0]).unwrap(), "a");
    assert_eq!(extract_identifier(&matched[1]).unwrap(), "c");
}

#[test]
fn match_records_none_flagged() {
    let entries = vec![
        (false, record_with(vec![("CAP_ID", text("a"))])),
        (false, record_with(vec![("CAP_ID", text("b"))])),
    ];
    assert_eq!(match_records(&entries).len(), 0);
}

#[test]
fn run_pipeline_zero_matches_yields_no_identifiers() {
    let entries = vec![
        (false, record_with(vec![("CAP_ID", text("a"))])),
        (false, record_with(vec![("WARNGRP", FieldValue::Other)])),
    ];
    assert_eq!(run_pipeline(&entries).unwrap(), Vec::<String>::new());
}

#[test]
fn run_pipeline_identifiers_in_match_order() {
    let entries = vec![
        (true, record_with(vec![("CAP_ID", text("one"))])),
        (false, record_with(vec![("CAP_ID", text("skipped"))])),
        (true, record_with(vec![("CAP_ID", text("two"))])),
    ];
    assert_eq!(run_pipeline(&entries).unwrap(), vec!["one".to_owned(), "two".to_owned()]);
}

#[test]
fn run_pipeline_schema_error_aborts_whole_run() {
    let entries = vec![
        (true, record_with(vec![("CAP_ID", text("fine"))])),
        (true, record_with(vec![("WARNGRP", FieldValue::Other)])),
        (true, record_with(vec![("CAP_ID", text("also fine"))])),
    ];
    assert_eq!(
        run_pipeline(&entries).unwrap_err(),
        PipelineError::Schema(SchemaIssue::MissingIdentifier)
    );
}

#[test]
fn run_pipeline_unmatched_records_never_abort() {
    let entries = vec![
        (false, record_with(vec![("WARNGRP", FieldValue::Other)])),
        (true, record_with(vec![("CAP_ID", text("kept"))])),
    ];
    assert_eq!(run_pipeline(&entries).unwrap(), vec!["kept".to_owned()]);
}

#[test]
fn run_pipeline_is_deterministic() {
    let entries = vec![
        (true, record_with(vec![("CAP_ID", text("one"))])),
        (false, record_with(vec![("CAP_ID", text("two"))])),
        (true, record_with(vec![("CAP_ID", text("three"))])),
    ];
    let first = run_pipeline(&entries).unwrap();
    let second = run_pipeline(&entries).unwrap();
    assert_eq!(first, second);
}

#[test]
fn render_report_no_matches_prints_nothing() {
    assert_eq!(render_report(&Vec::new()), "");
}

#[test]
fn render_report_single_success() {
    let outcomes = vec![Resolution::Resolved(alert_with(
        "Winter Weather Advisory issued",
        "Snow expected.",
        "Slow down.",
        "Kennebec; Knox",
    ))];
    let expected = "===============================\n\
                    Winter Weather Advisory issued\n\n\
                    Snow expected.\n\n\
                    Slow down.\n\n\
                    Kennebec; Knox\n\n";
    assert_eq!(render_report(&outcomes), expected);
}

#[test]
fn render_report_single_error() {
    let outcomes = vec![Resolution::FetchFailed];
    assert_eq!(render_report(&outcomes), "===============================\nERROR\n");
}

#[test]
fn render_report_error_then_success() {
    let outcomes = vec![
        Resolution::FetchFailed,
        Resolution::Resolved(alert_with("H", "D", "I", "A")),
    ];
    let expected = "===============================\n\
                    ERROR\n\
                    ===============================\n\
                    H\n\nD\n\nI\n\nA\n\n";
    assert_eq!(render_report(&outcomes), expected);
}

#[test]
fn render_report_one_separator_per_result() {
    let outcomes = vec![
        Resolution::Resolved(alert_with("H1", "D1", "I1", "A1")),
        Resolution::FetchFailed,
        Resolution::Resolved(alert_with("H3", "D3", "I3", "A3")),
    ];
    let out = render_report(&outcomes);
    assert_eq!(out.matches("===============================\n").count(), 3);
    let expected = "===============================\n\
                    H1\n\nD1\n\nI1\n\nA1\n\n\
                    ===============================\n\
                    ERROR\n\
                    ===============================\n\
                    H3\n\nD3\n\nI3\n\nA3\n\n";
    assert_eq!(out, expected);
}
