//! The departure projector: flattens a decoded trip response into an
//! ordered list of `Departure` records, computing each leg's live
//! countdown against the instant handed in by the caller. A leg whose
//! timestamp does not parse is dropped; everything else is kept in the
//! source order, with the trip results concatenated in request order.

use vstd::prelude::*;

use crate::clock::iso_unix_seconds;
use crate::clock::parse_iso_timestamp;
use crate::errors::LegTimeParseError;
use crate::model::Departure;
use crate::model::DepartureView;
use crate::model::LegView;
use crate::model::RawTrip;
use crate::model::RawTripView;
use crate::model::Trip;
use crate::model::TripPatternView;
use crate::model::TripView;
use crate::model::Leg;
use crate::numfmt::countdown_text;

verus! {

/// Whether a leg's expected-start timestamp parses.
pub open spec fn leg_parses(l: LegView) -> bool {
    iso_unix_seconds(l.expected_start_time) is Some
}

/// The departure record a parsable leg projects to, seen at `now`.
pub open spec fn leg_departure(l: LegView, now: int) -> DepartureView {
    DepartureView {
        start_time: iso_unix_seconds(l.expected_start_time)->Some_0,
        leaving_in: countdown_text(iso_unix_seconds(l.expected_start_time)->Some_0 - now),
        line_number: l.line.public_code,
    }
}

/// What one leg projects to: its departure record when its timestamp
/// parses, nothing when it does not.
pub open spec fn spec_from_leg(l: LegView, now: int) -> Option<DepartureView> {
    if leg_parses(l) {
        Some(leg_departure(l, now))
    } else {
        None
    }
}

/// Projection of a leg sequence: each parsable leg's departure, in order.
pub open spec fn project_legs(legs: Seq<LegView>, now: int) -> Seq<DepartureView> {
    legs.filter_map(|l: LegView| spec_from_leg(l, now))
}

/// All legs of a trip result, pattern by pattern, in response order.
pub open spec fn trip_legs(t: TripView) -> Seq<LegView> {
    t.trip_patterns.flat_map(|p: TripPatternView| p.legs)
}

/// Projection of one trip result.
pub open spec fn project_trip(t: TripView, now: int) -> Seq<DepartureView> {
    project_legs(trip_legs(t), now)
}

/// All legs of the whole response, trip result by trip result, in
/// request order.
pub open spec fn all_legs(raw: RawTripView) -> Seq<LegView> {
    raw.trips.flat_map(|t: TripView| trip_legs(t))
}

/// Projection of the whole response.
pub open spec fn project_raw(raw: RawTripView, now: int) -> Seq<DepartureView> {
    project_legs(all_legs(raw), now)
}

impl Departure {
    /// Projects one leg, seen at Unix second `now`: parses its timestamp
    /// and renders the countdown; an unparsable timestamp is an error the
    /// caller recovers from by dropping the leg.
    pub fn from_leg(leg: &Leg, now: i64) -> (r: Result<Departure, LegTimeParseError>)
        ensures
            match r {
                Ok(d) => spec_from_leg(leg@, now as int) == Some(d@),
                Err(_) => spec_from_leg(leg@, now as int) is None,
            },
    {
        match parse_iso_timestamp(leg.expected_start_time.as_str()) {
            Some(start) => {
                let leaving = crate::numfmt::countdown_string(start, now);
                Ok(
                    Departure {
                        start_time: start,
                        leaving_in: leaving,
                        line_number: leg.line.public_code.clone(),
                    },
                )
            },
            None => Err(LegTimeParseError),
        }
    }

    /// Projects one trip result: every parsable leg of every pattern, in
    /// response order, seen at Unix second `now`.
    pub fn from_trip(trip: &Trip, now: i64) -> (r: Vec<Departure>)
        ensures
            r@.map_values(|d: Departure| d@) == project_trip(trip@, now as int),
    {
        let ghost f = |l: LegView| spec_from_leg(l, now as int);
        let ghost pl = |p: TripPatternView| p.legs;
        let mut out: Vec<Departure> = Vec::new();
        let mut i: usize = 0;
        while i < trip.trip_patterns.len()
            invariant
                i <= trip.trip_patterns@.len(),
                f == (|l: LegView| spec_from_leg(l, now as int)),
                pl == (|p: TripPatternView| p.legs),
                out@.map_values(|d: Departure| d@) == trip@.trip_patterns.take(
                    i as int,
                ).flat_map(pl).filter_map(f),
            decreases trip.trip_patterns@.len() - i,
        {
            let pat = &trip.trip_patterns[i];
            let ghost prefix = trip@.trip_patterns.take(i as int).flat_map(pl).filter_map(f);
            let mut j: usize = 0;
            while j < pat.legs.len()
                invariant
                    j <= pat.legs@.len(),
                    f == (|l: LegView| spec_from_leg(l, now as int)),
                    out@.map_values(|d: Departure| d@) == prefix + pat@.legs.take(
                        j as int,
                    ).filter_map(f),
                decreases pat.legs@.len() - j,
            {
                let ghost old_out = out@;
                match Departure::from_leg(&pat.legs[j], now) {
                    Ok(d) => {
                        out.push(d);
                        proof {
                            assert(out@.map_values(|d: Departure| d@) =~= old_out.map_values(
                                |d: Departure| d@,
                            ) + seq![out@.last()@]);
                        }
                    },
                    Err(_) => {},
                }
                proof {
                    assert(pat@.legs[j as int] == pat.legs@.map_values(|l: Leg| l@)[j as int]);
                    pat@.legs.lemma_filter_map_take_succ(f, j as int);
                }
                j += 1;
            }
            proof {
                assert(pat@.legs.take(pat.legs@.len() as int) =~= pat@.legs);
                trip@.trip_patterns.lemma_flat_map_take_append(pl, i as int);
                lemma_filter_map_concat(
                    trip@.trip_patterns.take(i as int).flat_map(pl),
                    pl(trip@.trip_patterns[i as int]),
                    f,
                );
                assert(trip@.trip_patterns[i as int] == pat@);
            }
            i += 1;
        }
        proof {
            assert(trip@.trip_patterns.take(trip.trip_patterns@.len() as int)
                =~= trip@.trip_patterns);
        }
        out
    }

    /// Projects the whole response: the trip results' projections
    /// concatenated in request order, seen at Unix second `now`.
    pub fn from_top_level_data(raw: &RawTrip, now: i64) -> (r: Vec<Departure>)
        ensures
            r@.map_values(|d: Departure| d@) == project_raw(raw@, now as int),
    {
        let ghost f = |l: LegView| spec_from_leg(l, now as int);
        let ghost tl = |t: TripView| trip_legs(t);
        let mut out: Vec<Departure> = Vec::new();
        let mut i: usize = 0;
        while i < raw.trips.len()
            invariant
                i <= raw.trips@.len(),
                f == (|l: LegView| spec_from_leg(l, now as int)),
                tl == (|t: TripView| trip_legs(t)),
                out@.map_values(|d: Departure| d@) == raw@.trips.take(i as int).flat_map(
                    tl,
                ).filter_map(f),
            decreases raw.trips@.len() - i,
        {
            let ghost old_out = out@;
            let mut ds = Departure::from_trip(&raw.trips[i], now);
            let ghost ds_view = ds@;
            out.append(&mut ds);
            proof {
                assert(out@.map_values(|d: Departure| d@) =~= old_out.map_values(
                    |d: Departure| d@,
                ) + ds_view.map_values(|d: Departure| d@));
                assert(raw@.trips[i as int] == raw.trips@.map_values(|t: Trip| t@)[i as int]);
                raw@.trips.lemma_flat_map_take_append(tl, i as int);
                lemma_filter_map_concat(
                    raw@.trips.take(i as int).flat_map(tl),
                    tl(raw@.trips[i as int]),
                    f,
                );
            }
            i += 1;
        }
        proof {
            assert(raw@.trips.take(raw.trips@.len() as int) =~= raw@.trips);
        }
        out
    }
}

/// Projects the whole response against the wall clock's current
/// instant, returning the departures together with the instant they
/// were computed against. A fresh call recomputes every countdown, so
/// each rendered frame reflects the instant it was drawn at.
pub fn project_at_current_instant(raw: &RawTrip) -> (r: (Vec<Departure>, i64))
    ensures
        r.0@.map_values(|d: Departure| d@) == project_raw(raw@, r.1 as int),
{
    let now = crate::clock::now_unix_seconds();
    let ds = Departure::from_top_level_data(raw, now);
    (ds, now)
}

/// LAW: projection keeps exactly the legs whose timestamps parse, in
/// their original order — it equals the in-order filtering of the legs
/// down to the parsable ones, each mapped to its departure record; in
/// particular, its length is the count of parsable legs.
pub proof fn lemma_projection_keeps_parsable_legs(legs: Seq<LegView>, now: int)
    ensures
        project_legs(legs, now) == legs.filter(|l: LegView| leg_parses(l)).map_values(
            |l: LegView| leg_departure(l, now),
        ),
        project_legs(legs, now).len() == legs.filter(|l: LegView| leg_parses(l)).len(),
    decreases legs.len(),
{
    reveal(Seq::filter);
    let p = |l: LegView| leg_parses(l);
    let f = |l: LegView| spec_from_leg(l, now);
    let m = |l: LegView| leg_departure(l, now);
    if legs.len() == 0 {
        assert(legs.filter_map(f) =~= legs.filter(p).map_values(m));
    } else {
        let rest = legs.drop_last();
        let last = legs.last();
        lemma_projection_keeps_parsable_legs(rest, now);
        if p(last) {
            assert(legs.filter_map(f) =~= rest.filter_map(f) + seq![m(last)]);
            assert(legs.filter(p) == rest.filter(p).push(last));
            assert(legs.filter(p).map_values(m) =~= rest.filter(p).map_values(m) + seq![m(last)]);
        } else {
            assert(legs.filter_map(f) == rest.filter_map(f));
            assert(legs.filter(p) == rest.filter(p));
        }
    }
}

/// LAW: the projection of a combined response is the concatenation of
/// the per-trip projections, in request order — no re-sorting across
/// trip results ever happens.
pub proof fn lemma_projection_concatenates_in_request_order(raw: RawTripView, now: int)
    ensures
        project_raw(raw, now) == raw.trips.map_values(
            |t: TripView| project_trip(t, now),
        ).flatten(),
    decreases raw.trips.len(),
{
    let tl = |t: TripView| trip_legs(t);
    let f = |l: LegView| spec_from_leg(l, now);
    let pt = |t: TripView| project_trip(t, now);
    if raw.trips.len() == 0 {
        assert(project_raw(raw, now) =~= raw.trips.map_values(pt).flatten());
    } else {
        let sub = RawTripView { trips: raw.trips.drop_last() };
        let last = raw.trips.last();
        lemma_projection_concatenates_in_request_order(sub, now);
        assert(raw.trips =~= sub.trips.push(last));
        sub.trips.lemma_flat_map_push(tl, last);
        assert(all_legs(raw) == sub.trips.flat_map(tl) + tl(last)) by {
            assert(raw.trips.flat_map(tl) == sub.trips.push(last).flat_map(tl));
        }
        lemma_filter_map_concat(sub.trips.flat_map(tl), tl(last), f);
        assert(raw.trips.map_values(pt) =~= sub.trips.map_values(pt).push(pt(last)));
        sub.trips.map_values(pt).lemma_flatten_push(pt(last));
        assert(project_raw(raw, now) =~= raw.trips.map_values(pt).flatten());
    }
}

/// `filter_map` distributes over concatenation.
pub proof fn lemma_filter_map_concat<A, B>(a: Seq<A>, b: Seq<A>, f: spec_fn(A) -> Option<B>)
    ensures
        (a + b).filter_map(f) == a.filter_map(f) + b.filter_map(f),
    decreases b.len(),
{
    if b.len() == 0 {
        assert(a + b =~= a);
        assert(a.filter_map(f) + b.filter_map(f) =~= a.filter_map(f));
    } else {
        lemma_filter_map_concat(a, b.drop_last(), f);
        assert((a + b).drop_last() =~= a + b.drop_last());
        assert((a + b).last() == b.last());
        match f(b.last()) {
            Some(d) => {
                assert((a + b).filter_map(f) =~= a.filter_map(f) + b.filter_map(f));
            },
            None => {
                assert((a + b).filter_map(f) =~= a.filter_map(f) + b.filter_map(f));
            },
        }
    }
}

} // verus!
