use entur_display::model::Departure;
use entur_display::project::project_at_current_instant;
use entur_display::model::Leg;
use entur_display::model::Line;
use entur_display::model::RawTrip;
use entur_display::model::Trip;
use entur_display::model::TripPattern;

fn leg(ts: &str, code: &str) -> Leg {
    Leg {
        expected_start_time: String::from(ts),
        line: Line { public_code: String::from(code) },
    }
}

#[test]
fn leg_with_offset_timestamp_projects() {
    // 01:00 at +01:00 is midnight UTC, the Unix epoch.
    let l = leg("1970-01-01T01:00:00+01:00", "12");
    let d = Departure::from_leg(&l, 0).unwrap();
    assert_eq!(d.start_time, 0);
    assert_eq!(d.leaving_in, "0 Min");
    assert_eq!(d.line_number, "12");
}

#[test]
fn leg_countdown_is_live() {
    let l = leg("1970-01-01T00:02:00+00:00", "21");
    let d = Departure::from_leg(&l, 1).unwrap();
    assert_eq!(d.start_time, 120);
    assert_eq!(d.leaving_in, "1 Min");
    let d2 = Departure::from_leg(&l, 120).unwrap();
    assert_eq!(d2.leaving_in, "0 Min");
}

#[test]
fn timestamp_parsing_matches_known_instants() {
    // 2023-06-15 10:30 at +02:00 is 2023-06-15 08:30 UTC.
    let l = leg("2023-06-15T10:30:00+02:00", "4");
    let d = Departure::from_leg(&l, 1_686_817_800).unwrap();
    assert_eq!(d.start_time, 1_686_817_800);
    assert_eq!(d.leaving_in, "0 Min");
    let z = leg("1970-01-01T00:02:00Z", "4");
    let dz = Departure::from_leg(&z, 0).unwrap();
    assert_eq!(dz.start_time, 120);
    assert_eq!(dz.leaving_in, "2 Min");
}

#[test]
fn malformed_leg_timestamp_is_error() {
    let l = leg("not-a-date", "12");
    assert!(Departure::from_leg(&l, 0).is_err());
}

#[test]
fn malformed_leg_is_dropped_siblings_kept() {
    let trip = Trip {
        trip_patterns: vec![TripPattern {
            legs: vec![
                leg("1970-01-01T00:10:00+00:00", "1"),
                leg("not-a-date", "2"),
                leg("1970-01-01T00:20:00+00:00", "3"),
            ],
        }],
    };
    let ds = Departure::from_trip(&trip, 0);
    assert_eq!(ds.len(), 2);
    assert_eq!(ds[0].line_number, "1");
    assert_eq!(ds[0].leaving_in, "10 Min");
    assert_eq!(ds[1].line_number, "3");
    assert_eq!(ds[1].leaving_in, "20 Min");
}

#[test]
fn empty_trip_patterns_project_to_empty_list() {
    let raw = RawTrip { trips: vec![Trip { trip_patterns: vec![] }] };
    let ds = Departure::from_top_level_data(&raw, 0);
    assert!(ds.is_empty());
}

#[test]
fn projection_against_the_wall_clock() {
    let raw = RawTrip {
        trips: vec![Trip {
            trip_patterns: vec![TripPattern {
                legs: vec![leg("1970-01-01T00:00:00+00:00", "9")],
            }],
        }],
    };
    let (ds, now) = project_at_current_instant(&raw);
    assert_eq!(ds.len(), 1);
    assert_eq!(ds[0].start_time, 0);
    // The clock is synchronized well past the epoch, so the countdown
    // is deeply negative and recomputed against the returned instant.
    assert!(now > 0);
    assert!(ds[0].leaving_in.starts_with('-'));
}

#[test]
fn projection_preserves_leg_order_across_trips() {
    let t1 = Trip {
        trip_patterns: vec![
            TripPattern {
                legs: vec![
                    leg("1970-01-01T00:30:00+00:00", "a1"),
                    leg("1970-01-01T00:01:00+00:00", "a2"),
                ],
            },
            TripPattern { legs: vec![leg("1970-01-01T00:05:00+00:00", "b1")] },
        ],
    };
    let t2 = Trip {
        trip_patterns: vec![TripPattern {
            legs: vec![leg("1970-01-01T00:02:00+00:00", "c1")],
        }],
    };
    let raw = RawTrip { trips: vec![t1, t2] };
    let ds = Departure::from_top_level_data(&raw, 0);
    // Response order within each trip, first request's trips first:
    // no re-sorting by time ever happens.
    let codes: Vec<&str> = ds.iter().map(|d| d.line_number.as_str()).collect();
    assert_eq!(codes, vec!["a1", "a2", "b1", "c1"]);
    assert_eq!(ds.len(), 4);
}
