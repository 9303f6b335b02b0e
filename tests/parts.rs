use worldlycli::audio::{cache_key, decode_audio, file_name, join, synthesis_request_for};
use worldlycli::error::{EnrichError, RowError};
use worldlycli::geo::{coordinate_text_of, resolve_coordinates, PlaceMatch};
use worldlycli::record::{deserialize_independent_to_bool, deserialize_member_of_un_to_bool};
use worldlycli::rows::{parse_record, parse_rows};
use worldlycli::text::{push_decimal, push_json_string};

fn strings(v: &[&str]) -> Vec<String> {
    v.iter().map(|s| s.to_string()).collect()
}

#[test]
fn distinct_texts_get_distinct_keys() {
    let corpus = ["Aurelia", "Starhaven", "aurelia", "Aurelia ", "Paris", "France", "", "Hello, world!"];
    for (i, a) in corpus.iter().enumerate() {
        for b in corpus.iter().skip(i + 1) {
            assert_ne!(cache_key(a), cache_key(b));
        }
    }
    assert_eq!(cache_key("Aurelia"), cache_key("Aurelia"));
}

#[test]
fn decimal_digits() {
    let mut s = String::new();
    push_decimal(&mut s, 0);
    assert_eq!(s, "0");
    let mut s = String::from("x");
    push_decimal(&mut s, 18446744073709551615);
    assert_eq!(s, "x18446744073709551615");
}

#[test]
fn artifact_names_and_paths() {
    assert_eq!(file_name(42, "mp3"), "42.mp3");
    assert_eq!(join("out/audio", "1.mp3"), "out/audio/1.mp3");
    assert_eq!(join("out/", "1.mp3"), "out/1.mp3");
    assert_eq!(join("", "1.mp3"), "1.mp3");
}

#[test]
fn synthesis_request_quotes_text() {
    let r = synthesis_request_for("Say \"hi\"");
    assert_eq!(
        r,
        "{\"input\":{\"text\":\"Say \\\"hi\\\"\"},\"voice\":{\"languageCode\":\"en-GB\",\"name\":\"en-GB-Chirp-HD-O\"},\"audioConfig\":{\"audioEncoding\":\"MP3\"}}"
    );
}

#[test]
fn audio_decoding() {
    assert_eq!(decode_audio("SGVsbG8=").unwrap(), b"Hello".to_vec());
    assert_eq!(decode_audio("***").unwrap_err(), EnrichError::Decode);
}

#[test]
fn float_coordinates() {
    let cases = [
        ("0", "0"),
        ("10.5", "10.5"),
        ("-33.8688", "-33.8688"),
        ("+1", "1"),
        ("01", "1"),
        ("-007.25", "-7.25"),
        ("000", "0"),
        (".5", "0.5"),
        ("-.5", "-0.5"),
        ("5.", "5"),
        ("1e5", "1e5"),
        ("2.5E-3", "2.5E-3"),
        ("1e+05", "1e+05"),
        ("inf", "null"),
        ("-Infinity", "null"),
        ("NaN", "null"),
    ];
    for (input, expected) in cases {
        assert_eq!(coordinate_text_of(input).as_deref(), Some(expected), "{}", input);
    }
    for bad in ["", "-", ".", "+.", "1e", "1e+", "e5", "1.2.3", "12a", "1 ", "infin", "nanx", "--1"] {
        assert_eq!(coordinate_text_of(bad), None, "{}", bad);
    }
}

#[test]
fn coordinate_resolution() {
    let m = vec![
        PlaceMatch { lat: "10.5".to_string(), lon: "20.25".to_string() },
        PlaceMatch { lat: "x".to_string(), lon: "y".to_string() },
    ];
    let c = resolve_coordinates(&m).unwrap();
    assert_eq!(c.lat, "10.5");
    assert_eq!(c.lon, "20.25");
    assert_eq!(resolve_coordinates(&vec![]).unwrap_err(), EnrichError::NotFound);
    let bad = vec![PlaceMatch { lat: "north".to_string(), lon: "1".to_string() }];
    assert_eq!(resolve_coordinates(&bad).unwrap_err(), EnrichError::CoordinateParse);
    let exp = vec![PlaceMatch { lat: "1e5".to_string(), lon: "+1".to_string() }];
    let c = resolve_coordinates(&exp).unwrap();
    assert_eq!(c.lat, "1e5");
    assert_eq!(c.lon, "1");
}

#[test]
fn status_flags() {
    assert!(deserialize_independent_to_bool("Independent"));
    assert!(!deserialize_independent_to_bool("independent"));
    assert!(!deserialize_independent_to_bool("Dependency"));
    assert!(deserialize_member_of_un_to_bool("TRUE"));
    assert!(!deserialize_member_of_un_to_bool("True"));
    assert!(!deserialize_member_of_un_to_bool(""));
}

#[test]
fn record_from_named_columns() {
    let header = strings(&["country", "LONG_FORM_NAME", "GENC_2A_CODE", "GENC_3A_CODE", "capital", "STATUS", "MEMBER_OF_UNITED_NATIONS", "EXTRA"]);
    let row = strings(&["Aurelia", "Republic of Aurelia", "AU", "AUR", "Starhaven", "Independent", "FALSE", "x"]);
    let r = parse_record(&header, &row, 7).unwrap();
    assert_eq!(r.id, 7);
    assert_eq!(r.country, "Aurelia");
    assert_eq!(r.country_long, "Republic of Aurelia");
    assert_eq!(r.country_code, "AU");
    assert_eq!(r.country_code_3, "AUR");
    assert_eq!(r.capital, "Starhaven");
    assert!(r.independent);
    assert!(!r.member_of_un);
    assert!(r.coordinate.is_none());
    let short = strings(&["Aurelia", "Republic of Aurelia"]);
    assert_eq!(parse_record(&header, &short, 1).unwrap_err(), RowError::Malformed);
    let missing = strings(&["country", "LONG_FORM_NAME", "GENC_2A_CODE", "GENC_3A_CODE", "STATUS", "MEMBER_OF_UNITED_NATIONS"]);
    assert_eq!(parse_record(&missing, &row, 1).unwrap_err(), RowError::MissingColumn);
}

#[test]
fn rows_are_trimmed_and_numbered() {
    let input = " SHORT_FORM_NAME , LONG_FORM_NAME,GENC_2A_CODE,GENC_3A_CODE,CAPITAL_INDEPENDENT_STATES,STATUS,MEMBER_OF_UNITED_NATIONS\n Aurelia ,R,AU,AUR,Starhaven, Independent ,TRUE\nshort\nB,RB,BB,BBB,Bcity,x,y\n";
    let rows = parse_rows(input.as_bytes());
    assert_eq!(rows.len(), 3);
    let a = rows[0].as_ref().unwrap();
    assert_eq!(a.id, 1);
    assert_eq!(a.country, "Aurelia");
    assert!(a.independent);
    assert_eq!(*rows[1].as_ref().unwrap_err(), RowError::Malformed);
    assert_eq!(rows[2].as_ref().unwrap().id, 3);
}

#[test]
fn json_string_escapes() {
    let mut s = String::from(">");
    push_json_string(&mut s, "a\u{1}\u{1f}\n\t\r\u{8}\u{c}\\\"é");
    assert_eq!(s, ">\"a\\u0001\\u001f\\n\\t\\r\\b\\f\\\\\\\"é\"");
}
