//! The data model: the decoded trip response shape (`RawTrip` down to
//! `Line`) and the display-ready `Departure` record, together with the
//! mathematical views that the contracts speak about.

use vstd::prelude::*;

verus! {

/// The line a leg rides on, carrying its short public code (e.g. `"12"`).
#[derive(Debug, Clone, PartialEq, Eq)]
pub struct Line {
    pub public_code: String,
}

/// One scheduled ride segment of a trip: when it is expected to start
/// (an ISO-8601, offset-aware timestamp, kept as received) and its line.
#[derive(Debug, Clone, PartialEq, Eq)]
pub struct Leg {
    pub expected_start_time: String,
    pub line: Line,
}

/// One complete suggested journey: an ordered sequence of legs.
#[derive(Debug, Clone, PartialEq, Eq)]
pub struct TripPattern {
    pub legs: Vec<Leg>,
}

/// One named trip result: an ordered sequence of trip patterns.
#[derive(Debug, Clone, PartialEq, Eq)]
pub struct Trip {
    pub trip_patterns: Vec<TripPattern>,
}

/// The decoded response: one or two named trip results, in request order.
#[derive(Debug, Clone, PartialEq, Eq)]
pub struct RawTrip {
    pub trips: Vec<Trip>,
}

/// The display-ready record: the leg's start as Unix seconds, the live
/// countdown text, and the line's public code.
#[derive(Debug, Clone, PartialEq, Eq)]
pub struct Departure {
    pub start_time: i64,
    pub leaving_in: String,
    pub line_number: String,
}

/// Mathematical image of a `Line`.
pub struct LineView {
    pub public_code: Seq<char>,
}

/// Mathematical image of a `Leg`.
pub struct LegView {
    pub expected_start_time: Seq<char>,
    pub line: LineView,
}

/// Mathematical image of a `TripPattern`.
pub struct TripPatternView {
    pub legs: Seq<LegView>,
}

/// Mathematical image of a `Trip`.
pub struct TripView {
    pub trip_patterns: Seq<TripPatternView>,
}

/// Mathematical image of a `RawTrip`.
pub struct RawTripView {
    pub trips: Seq<TripView>,
}

/// Mathematical image of a `Departure`.
pub struct DepartureView {
    pub start_time: int,
    pub leaving_in: Seq<char>,
    pub line_number: Seq<char>,
}

impl View for Line {
    type V = LineView;

    open spec fn view(&self) -> LineView {
        LineView { public_code: self.public_code@ }
    }
}

impl View for Leg {
    type V = LegView;

    open spec fn view(&self) -> LegView {
        LegView { expected_start_time: self.expected_start_time@, line: self.line@ }
    }
}

impl View for TripPattern {
    type V = TripPatternView;

    open spec fn view(&self) -> TripPatternView {
        TripPatternView { legs: self.legs@.map_values(|l: Leg| l@) }
    }
}

impl View for Trip {
    type V = TripView;

    open spec fn view(&self) -> TripView {
        TripView { trip_patterns: self.trip_patterns@.map_values(|p: TripPattern| p@) }
    }
}

impl View for RawTrip {
    type V = RawTripView;

    open spec fn view(&self) -> RawTripView {
        RawTripView { trips: self.trips@.map_values(|t: Trip| t@) }
    }
}

impl View for Departure {
    type V = DepartureView;

    open spec fn view(&self) -> DepartureView {
        DepartureView {
            start_time: self.start_time as int,
            leaving_in: self.leaving_in@,
            line_number: self.line_number@,
        }
    }
}

} // verus!
