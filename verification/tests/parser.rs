use entur_display::check_status;
use entur_display::model::Departure;
use entur_display::parse::parse_response;
use entur_display::query::build_query;
use entur_display::query::json_escape;
use entur_display::query::request_body;
use entur_display::query::PlacePair;
use entur_display::query::TripRequest;
use entur_display::strutil::trim_nuls;

fn single_request(from: &str, to: &str) -> TripRequest {
    TripRequest {
        first: PlacePair { from: String::from(from), to: String::from(to) },
        second: None,
    }
}

#[test]
fn round_trip_query_and_canned_response() {
    // Build a query for the two stop places, then decode a canned
    // response of two trip patterns with two legs each: exactly the
    // four legs come out as departures, in response order.
    let q = build_query(&single_request("NSR:StopPlace:1", "NSR:StopPlace:2"));
    assert!(q.starts_with('{'));
    assert!(q.ends_with('}'));
    assert!(q.contains("place: \"NSR:StopPlace:1\""));
    assert!(q.contains("place: \"NSR:StopPlace:2\""));
    assert!(q.contains("numTripPatterns: 4"));
    assert!(q.contains("transportMode: bus"));

    let body = "{\"data\":{\"trip\":{\"tripPatterns\":[{\"legs\":[{\"expectedStartTime\":\"1970-01-01T00:01:00+00:00\",\"line\":{\"publicCode\":\"11\"}},{\"expectedStartTime\":\"1970-01-01T00:02:00+00:00\",\"line\":{\"publicCode\":\"12\"}}]},{\"legs\":[{\"expectedStartTime\":\"1970-01-01T00:03:00+00:00\",\"line\":{\"publicCode\":\"13\"}},{\"expectedStartTime\":\"1970-01-01T00:04:00+00:00\",\"line\":{\"publicCode\":\"14\"}}]}]}}}";
    let raw = parse_response(body).unwrap();
    assert_eq!(raw.trips.len(), 1);
    let ds = Departure::from_top_level_data(&raw, 0);
    assert_eq!(ds.len(), 4);
    let codes: Vec<&str> = ds.iter().map(|d| d.line_number.as_str()).collect();
    assert_eq!(codes, vec!["11", "12", "13", "14"]);
    assert_eq!(ds[0].leaving_in, "1 Min");
    assert_eq!(ds[3].leaving_in, "4 Min");
}

#[test]
fn dual_trip_response_concatenates_in_request_order() {
    let body = "{\"data\":{\"trip1\":{\"tripPatterns\":[{\"legs\":[{\"expectedStartTime\":\"1970-01-01T00:05:00+00:00\",\"line\":{\"publicCode\":\"21\"}}]}]},\"trip2\":{\"tripPatterns\":[{\"legs\":[{\"expectedStartTime\":\"1970-01-01T00:01:00+00:00\",\"line\":{\"publicCode\":\"22\"}}]}]}}}";
    let raw = parse_response(body).unwrap();
    assert_eq!(raw.trips.len(), 2);
    let ds = Departure::from_top_level_data(&raw, 0);
    // The first request's departures precede the second's even though
    // the second leaves earlier.
    let codes: Vec<&str> = ds.iter().map(|d| d.line_number.as_str()).collect();
    assert_eq!(codes, vec!["21", "22"]);
}

#[test]
fn whitespace_and_escapes_are_accepted() {
    let body = "{ \"data\" : {\n\t\"trip\" : { \"tripPatterns\" : [ { \"legs\" : [\n{ \"expectedStartTime\" : \"1970-01-01T00:01:00+00:00\" ,\n  \"line\" : { \"publicCode\" : \"5\\\"A\\\\B\" } }\n] } ] } } }";
    let raw = parse_response(body).unwrap();
    let ds = Departure::from_top_level_data(&raw, 0);
    assert_eq!(ds.len(), 1);
    assert_eq!(ds[0].line_number, "5\"A\\B");
}

#[test]
fn empty_trip_patterns_parse() {
    let body = "{\"data\":{\"trip\":{\"tripPatterns\":[]}}}";
    let raw = parse_response(body).unwrap();
    assert_eq!(raw.trips.len(), 1);
    assert!(raw.trips[0].trip_patterns.is_empty());
}

#[test]
fn malformed_bodies_are_decode_errors() {
    assert!(parse_response("").is_err());
    assert!(parse_response("not json").is_err());
    assert!(parse_response("{\"data\":{}}").is_err());
    // Truncated mid-object, as a fixed-capacity buffer would leave it.
    assert!(parse_response("{\"data\":{\"trip\":{\"tripPatterns\":[{\"legs\":[").is_err());
    // A leg without its line member is missing a required field.
    assert!(parse_response(
        "{\"data\":{\"trip\":{\"tripPatterns\":[{\"legs\":[{\"expectedStartTime\":\"x\"}]}]}}}"
    )
    .is_err());
    // Trailing content after the response object.
    assert!(parse_response("{\"data\":{\"trip\":{\"tripPatterns\":[]}}}x").is_err());
    // The decoder accepts the exact response shape only: a member the
    // query never asks for is rejected.
    assert!(parse_response(
        "{\"data\":{\"trip\":{\"tripPatterns\":[]},\"extra\":1}}"
    )
    .is_err());
    // A lone trip1 without its trip2 counterpart is incomplete.
    assert!(parse_response("{\"data\":{\"trip1\":{\"tripPatterns\":[]}}}").is_err());
}

#[test]
fn nul_padding_is_stripped() {
    let padded = "\0\0{\"data\":{\"trip\":{\"tripPatterns\":[]}}}\0\0\0";
    let body = trim_nuls(padded);
    assert!(parse_response(body).is_ok());
    assert_eq!(trim_nuls("\0\0ab\0"), "ab");
    assert_eq!(trim_nuls("\0\0\0"), "");
    assert_eq!(trim_nuls(""), "");
}

#[test]
fn status_codes_gate_success() {
    assert!(check_status(200).is_ok());
    assert!(check_status(204).is_ok());
    assert!(check_status(299).is_ok());
    let e = check_status(404).unwrap_err();
    assert_eq!(e.status, 404);
    assert!(check_status(199).is_err());
    assert!(check_status(300).is_err());
    assert!(check_status(500).is_err());
}

#[test]
fn request_body_escapes_like_the_wire_format() {
    assert_eq!(request_body("abc"), "{\"query\":\"abc\"}");
    assert_eq!(request_body("a\"b\\c\nd\te"), "{\"query\":\"a\\\"b\\\\c\\nd\\te\"}");
    assert_eq!(json_escape("\r\u{8}\u{c}"), "\\r\\b\\f");
    assert_eq!(json_escape("\u{1f}\u{1}"), "\\u001f\\u0001");
    assert_eq!(json_escape("plain"), "plain");
}

#[test]
fn dual_query_uses_aliases() {
    let req = TripRequest {
        first: PlacePair {
            from: String::from("NSR:StopPlace:1"),
            to: String::from("NSR:StopPlace:2"),
        },
        second: Some(PlacePair {
            from: String::from("NSR:StopPlace:3"),
            to: String::from("NSR:StopPlace:4"),
        }),
    };
    let q = build_query(&req);
    assert!(q.contains("trip1: "));
    assert!(q.contains(", trip2: "));
    assert!(q.contains("NSR:StopPlace:3"));
    assert!(q.contains("NSR:StopPlace:4"));
}
