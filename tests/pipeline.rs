use worldlycli::audio::{artifact_path_for, cache_key};
use worldlycli::enrich::{Action, Event};
use worldlycli::error::{EnrichError, Failure, RowError};
use worldlycli::geo::PlaceMatch;
use worldlycli::pipeline::Pipeline;

const HEADER: &str = "SHORT_FORM_NAME,LONG_FORM_NAME,GENC_2A_CODE,GENC_3A_CODE,CAPITAL_INDEPENDENT_STATES,STATUS,MEMBER_OF_UNITED_NATIONS\n";

fn place(lat: &str, lon: &str) -> PlaceMatch {
    PlaceMatch { lat: lat.to_string(), lon: lon.to_string() }
}

fn expect_geocode(a: Option<Action>, city: &str, code: &str) {
    match a {
        Some(Action::Geocode { city: c, country_code }) => {
            assert_eq!(c, city);
            assert_eq!(country_code, code);
        }
        other => panic!("expected a geocoding action, got {:?}", other),
    }
}

fn expect_check(a: Option<Action>, expected: &str) {
    match a {
        Some(Action::CheckAudio { path }) => assert_eq!(path, expected),
        other => panic!("expected a store check, got {:?}", other),
    }
}

/// Runs one record through with every artifact already stored.
fn run_cached(p: &mut Pipeline, lat: &str, lon: &str) -> Option<Action> {
    let a = p.step(Event::Matches(vec![place(lat, lon)]));
    assert!(matches!(a, Some(Action::CheckAudio { .. })));
    let a = p.step(Event::AudioExists(true));
    assert!(matches!(a, Some(Action::CheckAudio { .. })));
    p.step(Event::AudioExists(true))
}

#[test]
fn end_to_end_single_record() {
    let input = format!("{}Aurelia,Republic of Aurelia,AU2,AUR,Starhaven,Independent,TRUE\n", HEADER);
    let mut p = Pipeline::new(input.as_bytes(), "output/audio");
    let a = p.advance();
    expect_geocode(a, "Starhaven", "AU2");
    let a = p.step(Event::Matches(vec![place("10.5", "20.25")]));
    let country_path = format!("output/audio/{}.mp3", cache_key("Aurelia"));
    let capital_path = format!("output/audio/{}.mp3", cache_key("Starhaven"));
    expect_check(a, &country_path);
    let a = p.step(Event::AudioExists(false));
    match a {
        Some(Action::Synthesize { ref request }) => {
            assert!(request.contains("\"text\":\"Aurelia\""));
        }
        ref other => panic!("expected a synthesis, got {:?}", other),
    }
    let a = p.step(Event::Synthesized("YWJj".to_string()));
    match a {
        Some(Action::StoreAudio { path, bytes }) => {
            assert_eq!(path, country_path);
            assert_eq!(bytes, b"abc".to_vec());
        }
        other => panic!("expected a write, got {:?}", other),
    }
    let a = p.step(Event::Stored);
    expect_check(a, &capital_path);
    let a = p.step(Event::AudioExists(true));
    assert!(a.is_none());
    let out = p.output();
    let expected = format!(
        "[\n{{\"id\":1,\"country\":\"Aurelia\",\"country_long\":\"Republic of Aurelia\",\"country_code\":\"AU2\",\"country_code_3\":\"AUR\",\"capital\":\"Starhaven\",\"independent\":true,\"member_of_un\":true,\"capital_latitude\":10.5,\"capital_longitude\":20.25,\"country_audio_filename\":\"{}\",\"capital_audio_filename\":\"{}\"}}\n]\n",
        country_path, capital_path
    );
    assert_eq!(out, expected);
    let v: serde_json::Value = serde_json::from_str(&out).unwrap();
    assert_eq!(v[0]["capital_latitude"].as_f64(), Some(10.5));
    assert_eq!(v[0]["capital_longitude"].as_f64(), Some(20.25));
}

#[test]
fn malformed_row_is_skipped_and_still_counted() {
    let input = format!(
        "{}Borealis,Kingdom of Borealis,BO,BOR\nAurelia,Republic of Aurelia,AU,AUR,Starhaven,Independent,TRUE\n",
        HEADER
    );
    let mut p = Pipeline::new(input.as_bytes(), "out");
    let a = p.advance();
    expect_geocode(a, "Starhaven", "AU");
    let a = run_cached(&mut p, "1", "2");
    assert!(a.is_none());
    let out = p.output();
    let v: serde_json::Value = serde_json::from_str(&out).unwrap();
    let arr = v.as_array().unwrap();
    assert_eq!(arr.len(), 1);
    assert_eq!(arr[0]["id"].as_u64(), Some(2));
    assert_eq!(arr[0]["country"].as_str(), Some("Aurelia"));
    assert_eq!(p.skipped, 1);
    assert_eq!(p.failures, vec![Failure::Row(RowError::Malformed)]);
}

#[test]
fn no_geocoding_match_leaves_record_out() {
    let input = format!("{}Aurelia,Republic of Aurelia,AU,AUR,Starhaven,Independent,TRUE\n", HEADER);
    let mut p = Pipeline::new(input.as_bytes(), "out");
    let _ = p.advance();
    let a = p.step(Event::Matches(vec![]));
    assert!(a.is_none());
    assert_eq!(p.output(), "[\n\n]\n");
    assert_eq!(p.skipped, 1);
    assert_eq!(p.failures, vec![Failure::Record(1, EnrichError::NotFound)]);
}

#[test]
fn output_is_valid_array_when_trailing_rows_fail() {
    let input = format!(
        "{}A,Long A,AA,AAA,Acity,Independent,TRUE\nB,Long B,BB,BBB,Bcity,Dependency,FALSE\nC,Long C,CC,CCC,Ccity,Independent,TRUE\nD,broken\n",
        HEADER
    );
    let mut p = Pipeline::new(input.as_bytes(), "out");
    let a = p.advance();
    expect_geocode(a, "Acity", "AA");
    let a = run_cached(&mut p, "1.5", "-2");
    expect_geocode(a, "Bcity", "BB");
    let a = run_cached(&mut p, "0", "0.25");
    expect_geocode(a, "Ccity", "CC");
    let a = p.step(Event::Matches(vec![]));
    assert!(a.is_none());
    let out = p.output();
    let v: serde_json::Value = serde_json::from_str(&out).unwrap();
    let arr = v.as_array().unwrap();
    assert_eq!(arr.len(), 2);
    assert_eq!(arr[0]["id"].as_u64(), Some(1));
    assert_eq!(arr[1]["id"].as_u64(), Some(2));
    assert_eq!(arr[1]["independent"].as_bool(), Some(false));
    assert_eq!(arr[1]["member_of_un"].as_bool(), Some(false));
    assert_eq!(arr[0]["capital_longitude"].as_f64(), Some(-2.0));
    assert_eq!(p.skipped, 2);
    assert_eq!(p.failures, vec![Failure::Record(3, EnrichError::NotFound), Failure::Row(RowError::Malformed)]);
}

#[test]
fn second_run_with_stored_artifacts_synthesizes_nothing() {
    let input = format!("{}Aurelia,Republic of Aurelia,AU,AUR,Starhaven,Independent,TRUE\n", HEADER);
    let mut first = Pipeline::new(input.as_bytes(), "out");
    let _ = first.advance();
    let _ = first.step(Event::Matches(vec![place("1", "2")]));
    let _ = first.step(Event::AudioExists(false));
    let _ = first.step(Event::Synthesized("YWJj".to_string()));
    let _ = first.step(Event::Stored);
    let _ = first.step(Event::AudioExists(false));
    let _ = first.step(Event::Synthesized("YWJj".to_string()));
    assert!(first.step(Event::Stored).is_none());

    let mut second = Pipeline::new(input.as_bytes(), "out");
    let _ = second.advance();
    assert!(run_cached(&mut second, "1", "2").is_none());
    assert_eq!(first.output(), second.output());
}

#[test]
fn identical_texts_share_one_artifact() {
    assert_eq!(artifact_path_for("out", "Singapore"), artifact_path_for("out", "Singapore"));
    let input = format!("{}Singapore,Republic of Singapore,SN,SGP,Singapore,Independent,TRUE\n", HEADER);
    let mut p = Pipeline::new(input.as_bytes(), "out");
    let _ = p.advance();
    let a = p.step(Event::Matches(vec![place("1.29", "103.85")]));
    let path = format!("out/{}.mp3", cache_key("Singapore"));
    expect_check(a, &path);
    let _ = p.step(Event::AudioExists(false));
    let _ = p.step(Event::Synthesized("YWJj".to_string()));
    let a = p.step(Event::Stored);
    expect_check(a, &path);
}

#[test]
fn bad_audio_payload_fails_record() {
    let input = format!("{}Aurelia,Republic of Aurelia,AU,AUR,Starhaven,Independent,TRUE\n", HEADER);
    let mut p = Pipeline::new(input.as_bytes(), "out");
    let _ = p.advance();
    let _ = p.step(Event::Matches(vec![place("1", "2")]));
    let _ = p.step(Event::AudioExists(false));
    assert!(!p.accepts(&Event::Stored));
    let a = p.step(Event::Synthesized("@@not base64@@".to_string()));
    assert!(a.is_none());
    assert_eq!(p.output(), "[\n\n]\n");
    assert_eq!(p.failures, vec![Failure::Record(1, EnrichError::Decode)]);
}
