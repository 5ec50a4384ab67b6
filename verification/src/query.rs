//! The trip query builder: composes the wire-ready query text for one
//! or two origin/destination place pairs, with the fixed mode filters
//! (foot access and egress, local-bus legs only, up to four trip
//! patterns per pair), and wraps it in the JSON request body with the
//! escaping the wire format requires. Building is pure string
//! composition over already-validated, non-empty places.

use vstd::prelude::*;
use vstd::string::StrSliceExecFns;
use vstd::string::StringExecFns;

use crate::numfmt::digit_char;
use crate::strutil::push_char;

verus! {

/// An origin/destination pair of opaque place identifiers.
#[derive(Debug, Clone, PartialEq, Eq)]
pub struct PlacePair {
    pub from: String,
    pub to: String,
}

/// One or two place pairs; the fixed mode constraints are part of the
/// query template and take no configuration.
#[derive(Debug, Clone, PartialEq, Eq)]
pub struct TripRequest {
    pub first: PlacePair,
    pub second: Option<PlacePair>,
}

/// Mathematical image of a `PlacePair`.
pub struct PlacePairView {
    pub from: Seq<char>,
    pub to: Seq<char>,
}

/// Mathematical image of a `TripRequest`.
pub struct TripRequestView {
    pub first: PlacePairView,
    pub second: Option<PlacePairView>,
}

impl View for PlacePair {
    type V = PlacePairView;

    open spec fn view(&self) -> PlacePairView {
        PlacePairView { from: self.from@, to: self.to@ }
    }
}

impl View for TripRequest {
    type V = TripRequestView;

    open spec fn view(&self) -> TripRequestView {
        TripRequestView {
            first: self.first@,
            second: match self.second {
                Some(ref p) => Some(p@),
                None => None,
            },
        }
    }
}

/// Every place named by the request is non-empty.
pub open spec fn request_wf(r: TripRequestView) -> bool {
    &&& r.first.from.len() > 0
    &&& r.first.to.len() > 0
    &&& match r.second {
        Some(p) => p.from.len() > 0 && p.to.len() > 0,
        None => true,
    }
}

/// The query text for one place pair: the fixed trip-field template
/// with the two places spliced in.
pub open spec fn spec_make_query(from: Seq<char>, to: Seq<char>) -> Seq<char> {
    "\n\t\t\ttrip(\n\t\t\t\tfrom: {\n\t\t\t\t\tplace: \""@ + from + "\"\n\t\t\t\t},\n\t\t\t\tto: {\n\t\t\t\t\tplace: \""@ + to + "\"\n\t\t\t\t},\n\t\t\t\tnumTripPatterns: 4\n\t\t\t\tmodes: {\n\t\t\t\t\taccessMode: foot\n\t\t\t\t\tegressMode: foot\n\t\t\t\t\ttransportModes: [{\n\t\t\t\t\t\ttransportMode: bus\n\t\t\t\t\t\ttransportSubModes: [localBus]\n\t\t\t\t\t}]\n\t\t\t\t}\n\t\t\t) {\n\t\t\t\ttripPatterns {\n\t\t\t\t\tlegs {\n\t\t\t\t\t\texpectedStartTime\n\t\t\t\t\t\tline {\n\t\t\t\t\t\t\tpublicCode\n\t\t\t\t\t\t}\n\t\t\t\t\t}\n\t\t\t\t}\n\t\t\t}\n\t\t"@
}

/// The full query document: a single unaliased `trip` field for one
/// pair, or `trip1`/`trip2` aliases for two, in request order.
pub open spec fn spec_build_query(r: TripRequestView) -> Seq<char> {
    match r.second {
        None => "{"@ + spec_make_query(r.first.from, r.first.to) + "}"@,
        Some(p) => "{\n\t\t\ttrip1: "@ + spec_make_query(r.first.from, r.first.to) + ", trip2: "@
            + spec_make_query(p.from, p.to) + "\n\t\t}"@,
    }
}

/// How one character is written inside a JSON string: quote, backslash
/// and the named control characters get a backslash escape, any other
/// control character a `\u00..` escape, everything else itself.
pub open spec fn esc_char(c: char) -> Seq<char> {
    if c == '"' {
        seq!['\\', '"']
    } else if c == '\\' {
        seq!['\\', '\\']
    } else if c == '\n' {
        seq!['\\', 'n']
    } else if c == '\t' {
        seq!['\\', 't']
    } else if c == '\r' {
        seq!['\\', 'r']
    } else if c == '\u{8}' {
        seq!['\\', 'b']
    } else if c == '\u{c}' {
        seq!['\\', 'f']
    } else if (c as u32) < 32 {
        seq!['\\', 'u', '0', '0', hex_digit((c as u32) as int / 16), hex_digit(
            (c as u32) as int % 16,
        )]
    } else {
        seq![c]
    }
}

/// A whole string, JSON-escaped character by character.
pub open spec fn json_escaped(s: Seq<char>) -> Seq<char>
    decreases s.len(),
{
    if s.len() == 0 {
        Seq::empty()
    } else {
        json_escaped(s.drop_last()) + esc_char(s.last())
    }
}

/// The POST body carrying a query: `{"query":"<escaped query>"}`.
pub open spec fn spec_request_body(q: Seq<char>) -> Seq<char> {
    "{\"query\":\""@ + json_escaped(q) + "\"}"@
}

/// The lower-case hexadecimal digit for a value in `0..16`.
pub open spec fn hex_digit(d: int) -> char {
    if d < 10 {
        digit_char(d)
    } else if d == 10 {
        'a'
    } else if d == 11 {
        'b'
    } else if d == 12 {
        'c'
    } else if d == 13 {
        'd'
    } else if d == 14 {
        'e'
    } else {
        'f'
    }
}

fn hex_char(d: u32) -> (c: char)
    requires
        d < 16,
    ensures
        c == hex_digit(d as int),
{
    match d {
        0 => '0',
        1 => '1',
        2 => '2',
        3 => '3',
        4 => '4',
        5 => '5',
        6 => '6',
        7 => '7',
        8 => '8',
        9 => '9',
        10 => 'a',
        11 => 'b',
        12 => 'c',
        13 => 'd',
        14 => 'e',
        _ => 'f',
    }
}

/// Builds the query text for one origin/destination pair.
pub fn make_query(from: &str, to: &str) -> (q: String)
    requires
        from@.len() > 0,
        to@.len() > 0,
    ensures
        q@ == spec_make_query(from@, to@),
{
    let mut q = String::from_str("\n\t\t\ttrip(\n\t\t\t\tfrom: {\n\t\t\t\t\tplace: \"");
    q.append(from);
    q.append("\"\n\t\t\t\t},\n\t\t\t\tto: {\n\t\t\t\t\tplace: \"");
    q.append(to);
    q.append("\"\n\t\t\t\t},\n\t\t\t\tnumTripPatterns: 4\n\t\t\t\tmodes: {\n\t\t\t\t\taccessMode: foot\n\t\t\t\t\tegressMode: foot\n\t\t\t\t\ttransportModes: [{\n\t\t\t\t\t\ttransportMode: bus\n\t\t\t\t\t\ttransportSubModes: [localBus]\n\t\t\t\t\t}]\n\t\t\t\t}\n\t\t\t) {\n\t\t\t\ttripPatterns {\n\t\t\t\t\tlegs {\n\t\t\t\t\t\texpectedStartTime\n\t\t\t\t\t\tline {\n\t\t\t\t\t\t\tpublicCode\n\t\t\t\t\t\t}\n\t\t\t\t\t}\n\t\t\t\t}\n\t\t\t}\n\t\t");
    proof {
        assert(q@ =~= spec_make_query(from@, to@));
    }
    q
}

/// Builds the full query document for a request of one or two pairs.
pub fn build_query(req: &TripRequest) -> (q: String)
    requires
        request_wf(req@),
    ensures
        q@ == spec_build_query(req@),
{
    match &req.second {
        None => {
            let mut q = String::from_str("{");
            let inner = make_query(req.first.from.as_str(), req.first.to.as_str());
            q.append(inner.as_str());
            q.append("}");
            proof {
                assert(q@ =~= spec_build_query(req@));
            }
            q
        },
        Some(p) => {
            let mut q = String::from_str("{\n\t\t\ttrip1: ");
            let inner1 = make_query(req.first.from.as_str(), req.first.to.as_str());
            q.append(inner1.as_str());
            q.append(", trip2: ");
            let inner2 = make_query(p.from.as_str(), p.to.as_str());
            q.append(inner2.as_str());
            q.append("\n\t\t}");
            proof {
                assert(q@ =~= spec_build_query(req@));
            }
            q
        },
    }
}

/// JSON-escapes a string for inclusion in the request body.
pub fn json_escape(s: &str) -> (r: String)
    ensures
        r@ == json_escaped(s@),
{
    let n = s.unicode_len();
    let mut out = String::new();
    let mut i: usize = 0;
    proof {
        assert(s@.take(0) =~= Seq::<char>::empty());
    }
    while i < n
        invariant
            i <= n,
            n == s@.len(),
            out@ == json_escaped(s@.take(i as int)),
        decreases n - i,
    {
        let c = s.get_char(i);
        if c == '"' {
            out.append("\\\"");
            proof {
                reveal_strlit("\\\"");
            }
        } else if c == '\\' {
            out.append("\\\\");
            proof {
                reveal_strlit("\\\\");
            }
        } else if c == '\n' {
            out.append("\\n");
            proof {
                reveal_strlit("\\n");
            }
        } else if c == '\t' {
            out.append("\\t");
            proof {
                reveal_strlit("\\t");
            }
        } else if c == '\r' {
            out.append("\\r");
            proof {
                reveal_strlit("\\r");
            }
        } else if c == '\u{8}' {
            out.append("\\b");
            proof {
                reveal_strlit("\\b");
            }
        } else if c == '\u{c}' {
            out.append("\\f");
            proof {
                reveal_strlit("\\f");
            }
        } else if (c as u32) < 32 {
            let code = c as u32;
            out.append("\\u00");
            push_char(&mut out, hex_char(code / 16));
            push_char(&mut out, hex_char(code % 16));
            proof {
                reveal_strlit("\\u00");
            }
        } else {
            push_char(&mut out, c);
        }
        proof {
            assert(s@.take(i + 1).drop_last() =~= s@.take(i as int));
            assert(s@.take(i + 1).last() == s@[i as int]);
            assert(out@ =~= json_escaped(s@.take(i + 1)));
        }
        i += 1;
    }
    proof {
        assert(s@.take(n as int) =~= s@);
    }
    out
}

/// Wraps a query in the JSON request body sent to the endpoint.
pub fn request_body(query: &str) -> (body: String)
    ensures
        body@ == spec_request_body(query@),
{
    let mut body = String::from_str("{\"query\":\"");
    let esc = json_escape(query);
    body.append(esc.as_str());
    body.append("\"}");
    proof {
        assert(body@ =~= spec_request_body(query@));
    }
    body
}

} // verus!
