//! The response parser: a recursive-descent decoder for the journey
//! planner's trip response, written directly against the response
//! grammar. The response is an object `{"data": ...}` whose data member
//! holds either one trip result under `"trip"` or two under `"trip1"`
//! and `"trip2"`, each a `{"tripPatterns": [...]}` object whose patterns
//! hold `{"legs": [...]}`, each leg carrying `"expectedStartTime"` and
//! `"line": {"publicCode": ...}`. Members must appear in that order;
//! JSON whitespace is accepted between tokens, and string values may use
//! the common backslash escapes (`\u` escapes are not accepted). Any
//! other shape is a `DecodeError`.
//!
//! Each executable function mirrors a spec-level grammar function and is
//! proved to return exactly what the grammar says, so the top-level
//! parser accepts an input if and only if the grammar does.

use vstd::prelude::*;
use vstd::string::StrSliceExecFns;
use vstd::string::StringExecFns;

use crate::errors::DecodeError;
use crate::model::Leg;
use crate::model::LegView;
use crate::model::Line;
use crate::model::LineView;
use crate::model::RawTrip;
use crate::model::RawTripView;
use crate::model::Trip;
use crate::model::TripPattern;
use crate::model::TripPatternView;
use crate::model::TripView;
use crate::strutil::push_char;

verus! {

/// JSON whitespace.
pub open spec fn is_ws(c: char) -> bool {
    c == ' ' || c == '\t' || c == '\n' || c == '\r'
}

/// The first position at or after `pos` holding no whitespace.
pub open spec fn sp_ws(s: Seq<char>, pos: int) -> int
    decreases s.len() - pos,
{
    if pos < s.len() && is_ws(s[pos]) {
        sp_ws(s, pos + 1)
    } else {
        pos
    }
}

pub proof fn lemma_ws_bounds(s: Seq<char>, pos: int)
    requires
        0 <= pos <= s.len(),
    ensures
        pos <= sp_ws(s, pos) <= s.len(),
    decreases s.len() - pos,
{
    if pos < s.len() && is_ws(s[pos]) {
        lemma_ws_bounds(s, pos + 1);
    }
}

/// Matches the literal token `tok` at exactly `pos`: the position just
/// after it, or nothing.
pub open spec fn sp_exact(s: Seq<char>, pos: int, tok: Seq<char>) -> Option<int>
    decreases tok.len(),
{
    if tok.len() == 0 {
        Some(pos)
    } else if pos < s.len() && s[pos] == tok[0] {
        sp_exact(s, pos + 1, tok.drop_first())
    } else {
        None
    }
}

pub proof fn lemma_exact_bounds(s: Seq<char>, pos: int, tok: Seq<char>)
    requires
        0 <= pos <= s.len(),
    ensures
        sp_exact(s, pos, tok) matches Some(e) ==> e == pos + tok.len() && e <= s.len(),
    decreases tok.len(),
{
    if tok.len() == 0 {
    } else if pos < s.len() && s[pos] == tok[0] {
        lemma_exact_bounds(s, pos + 1, tok.drop_first());
    }
}

/// Skips whitespace, then matches the literal token `tok`.
pub open spec fn sp_tok(s: Seq<char>, pos: int, tok: Seq<char>) -> Option<int> {
    sp_exact(s, sp_ws(s, pos), tok)
}

pub proof fn lemma_tok_bounds(s: Seq<char>, pos: int, tok: Seq<char>)
    requires
        0 <= pos <= s.len(),
    ensures
        sp_tok(s, pos, tok) matches Some(e) ==> pos + tok.len() <= e <= s.len(),
{
    lemma_ws_bounds(s, pos);
    lemma_exact_bounds(s, sp_ws(s, pos), tok);
}

/// What a backslash escape stands for; `\u` escapes are not accepted.
pub open spec fn sp_unescape(c: char) -> Option<char> {
    if c == '"' {
        Some('"')
    } else if c == '\\' {
        Some('\\')
    } else if c == '/' {
        Some('/')
    } else if c == 'n' {
        Some('\n')
    } else if c == 't' {
        Some('\t')
    } else if c == 'r' {
        Some('\r')
    } else if c == 'b' {
        Some('\u{8}')
    } else if c == 'f' {
        Some('\u{c}')
    } else {
        None
    }
}

/// The body of a string whose opening quote stands just before `pos`:
/// the decoded content and the position after the closing quote.
pub open spec fn sp_string_end(s: Seq<char>, pos: int) -> Option<(Seq<char>, int)>
    decreases s.len() - pos,
{
    if pos >= s.len() {
        None
    } else if s[pos] == '"' {
        Some((Seq::empty(), pos + 1))
    } else if s[pos] == '\\' {
        if pos + 1 < s.len() {
            match sp_unescape(s[pos + 1]) {
                Some(c) => match sp_string_end(s, pos + 2) {
                    Some((rest, e)) => Some((seq![c] + rest, e)),
                    None => None,
                },
                None => None,
            }
        } else {
            None
        }
    } else {
        match sp_string_end(s, pos + 1) {
            Some((rest, e)) => Some((seq![s[pos]] + rest, e)),
            None => None,
        }
    }
}

pub proof fn lemma_string_end_bounds(s: Seq<char>, pos: int)
    requires
        0 <= pos,
    ensures
        sp_string_end(s, pos) matches Some(r) ==> pos < r.1 <= s.len(),
    decreases s.len() - pos,
{
    if pos >= s.len() {
    } else if s[pos] == '"' {
    } else if s[pos] == '\\' {
        if pos + 1 < s.len() {
            lemma_string_end_bounds(s, pos + 2);
        }
    } else {
        lemma_string_end_bounds(s, pos + 1);
    }
}

/// Skips whitespace, then parses a quoted string value.
pub open spec fn sp_string(s: Seq<char>, pos: int) -> Option<(Seq<char>, int)> {
    match sp_tok(s, pos, seq!['"']) {
        Some(p) => sp_string_end(s, p),
        None => None,
    }
}

pub proof fn lemma_string_bounds(s: Seq<char>, pos: int)
    requires
        0 <= pos <= s.len(),
    ensures
        sp_string(s, pos) matches Some(r) ==> pos < r.1 <= s.len(),
{
    lemma_tok_bounds(s, pos, seq!['"']);
    match sp_tok(s, pos, seq!['"']) {
        Some(p) => lemma_string_end_bounds(s, p),
        None => (),
    }
}

/// A line object: `{"publicCode": <string>}`.
pub open spec fn sp_line(s: Seq<char>, pos: int) -> Option<(LineView, int)> {
    match sp_tok(s, pos, "{"@) {
        Some(p1) => match sp_tok(s, p1, "\"publicCode\""@) {
            Some(p2) => match sp_tok(s, p2, ":"@) {
                Some(p3) => match sp_string(s, p3) {
                    Some((code, p4)) => match sp_tok(s, p4, "}"@) {
                        Some(e) => Some((LineView { public_code: code }, e)),
                        None => None,
                    },
                    None => None,
                },
                None => None,
            },
            None => None,
        },
        None => None,
    }
}

pub proof fn lemma_line_bounds(s: Seq<char>, pos: int)
    requires
        0 <= pos <= s.len(),
    ensures
        sp_line(s, pos) matches Some(r) ==> pos < r.1 <= s.len(),
{
    lemma_tok_bounds(s, pos, "{"@);
    if let Some(p1) = sp_tok(s, pos, "{"@) {
        lemma_tok_bounds(s, p1, "\"publicCode\""@);
        if let Some(p2) = sp_tok(s, p1, "\"publicCode\""@) {
            lemma_tok_bounds(s, p2, ":"@);
            if let Some(p3) = sp_tok(s, p2, ":"@) {
                lemma_string_bounds(s, p3);
                if let Some((code, p4)) = sp_string(s, p3) {
                    lemma_tok_bounds(s, p4, "}"@);
                }
            }
        }
    }
}

/// A leg object: `{"expectedStartTime": <string>, "line": <line>}`.
pub open spec fn sp_leg(s: Seq<char>, pos: int) -> Option<(LegView, int)> {
    match sp_tok(s, pos, "{"@) {
        Some(p1) => match sp_tok(s, p1, "\"expectedStartTime\""@) {
            Some(p2) => match sp_tok(s, p2, ":"@) {
                Some(p3) => match sp_string(s, p3) {
                    Some((est, p4)) => match sp_tok(s, p4, ","@) {
                        Some(p5) => match sp_tok(s, p5, "\"line\""@) {
                            Some(p6) => match sp_tok(s, p6, ":"@) {
                                Some(p7) => match sp_line(s, p7) {
                                    Some((line, p8)) => match sp_tok(s, p8, "}"@) {
                                        Some(e) => Some(
                                            (LegView { expected_start_time: est, line }, e),
                                        ),
                                        None => None,
                                    },
                                    None => None,
                                },
                                None => None,
                            },
                            None => None,
                        },
                        None => None,
                    },
                    None => None,
                },
                None => None,
            },
            None => None,
        },
        None => None,
    }
}

pub proof fn lemma_leg_bounds(s: Seq<char>, pos: int)
    requires
        0 <= pos <= s.len(),
    ensures
        sp_leg(s, pos) matches Some(r) ==> pos < r.1 <= s.len(),
{
    lemma_tok_bounds(s, pos, "{"@);
    if let Some(p1) = sp_tok(s, pos, "{"@) {
        lemma_tok_bounds(s, p1, "\"expectedStartTime\""@);
        if let Some(p2) = sp_tok(s, p1, "\"expectedStartTime\""@) {
            lemma_tok_bounds(s, p2, ":"@);
            if let Some(p3) = sp_tok(s, p2, ":"@) {
                lemma_string_bounds(s, p3);
                if let Some((est, p4)) = sp_string(s, p3) {
                    lemma_tok_bounds(s, p4, ","@);
                    if let Some(p5) = sp_tok(s, p4, ","@) {
                        lemma_tok_bounds(s, p5, "\"line\""@);
                        if let Some(p6) = sp_tok(s, p5, "\"line\""@) {
                            lemma_tok_bounds(s, p6, ":"@);
                            if let Some(p7) = sp_tok(s, p6, ":"@) {
                                lemma_line_bounds(s, p7);
                                if let Some((line, p8)) = sp_line(s, p7) {
                                    lemma_tok_bounds(s, p8, "}"@);
                                }
                            }
                        }
                    }
                }
            }
        }
    }
}

/// After one leg of a legs array: either `]` ends the array, or `,`
/// introduces the next leg.
pub open spec fn sp_legs_tail(s: Seq<char>, pos: int) -> Option<(Seq<LegView>, int)>
    decreases s.len() - pos,
{
    if !(0 <= pos <= s.len()) {
        None
    } else {
        match sp_tok(s, pos, "]"@) {
            Some(e) => Some((Seq::empty(), e)),
            None => match sp_tok(s, pos, ","@) {
                Some(p1) => match sp_leg(s, p1) {
                    Some((l, p2)) => {
                        proof {
                            lemma_tok_bounds(s, pos, ","@);
                            lemma_leg_bounds(s, p1);
                        }
                        match sp_legs_tail(s, p2) {
                            Some((rest, e)) => Some((seq![l] + rest, e)),
                            None => None,
                        }
                    },
                    None => None,
                },
                None => None,
            },
        }
    }
}

pub proof fn lemma_legs_tail_bounds(s: Seq<char>, pos: int)
    requires
        0 <= pos <= s.len(),
    ensures
        sp_legs_tail(s, pos) matches Some(r) ==> pos < r.1 <= s.len(),
    decreases s.len() - pos,
{
    reveal_strlit("]");
    lemma_tok_bounds(s, pos, "]"@);
    if sp_tok(s, pos, "]"@) is None {
        lemma_tok_bounds(s, pos, ","@);
        if let Some(p1) = sp_tok(s, pos, ","@) {
            lemma_leg_bounds(s, p1);
            if let Some((l, p2)) = sp_leg(s, p1) {
                lemma_legs_tail_bounds(s, p2);
            }
        }
    }
}

/// A legs array body, after the `[`: empty, or one leg and its tail.
pub open spec fn sp_legs_list(s: Seq<char>, pos: int) -> Option<(Seq<LegView>, int)> {
    match sp_tok(s, pos, "]"@) {
        Some(e) => Some((Seq::empty(), e)),
        None => match sp_leg(s, pos) {
            Some((l, p1)) => match sp_legs_tail(s, p1) {
                Some((rest, e)) => Some((seq![l] + rest, e)),
                None => None,
            },
            None => None,
        },
    }
}

pub proof fn lemma_legs_list_bounds(s: Seq<char>, pos: int)
    requires
        0 <= pos <= s.len(),
    ensures
        sp_legs_list(s, pos) matches Some(r) ==> pos < r.1 <= s.len(),
{
    reveal_strlit("]");
    lemma_tok_bounds(s, pos, "]"@);
    if sp_tok(s, pos, "]"@) is None {
        lemma_leg_bounds(s, pos);
        if let Some((l, p1)) = sp_leg(s, pos) {
            lemma_legs_tail_bounds(s, p1);
        }
    }
}

/// A trip pattern object: `{"legs": [...]}`.
pub open spec fn sp_pattern(s: Seq<char>, pos: int) -> Option<(TripPatternView, int)> {
    match sp_tok(s, pos, "{"@) {
        Some(p1) => match sp_tok(s, p1, "\"legs\""@) {
            Some(p2) => match sp_tok(s, p2, ":"@) {
                Some(p3) => match sp_tok(s, p3, "["@) {
                    Some(p4) => match sp_legs_list(s, p4) {
                        Some((legs, p5)) => match sp_tok(s, p5, "}"@) {
                            Some(e) => Some((TripPatternView { legs }, e)),
                            None => None,
                        },
                        None => None,
                    },
                    None => None,
                },
                None => None,
            },
            None => None,
        },
        None => None,
    }
}

pub proof fn lemma_pattern_bounds(s: Seq<char>, pos: int)
    requires
        0 <= pos <= s.len(),
    ensures
        sp_pattern(s, pos) matches Some(r) ==> pos < r.1 <= s.len(),
{
    lemma_tok_bounds(s, pos, "{"@);
    if let Some(p1) = sp_tok(s, pos, "{"@) {
        lemma_tok_bounds(s, p1, "\"legs\""@);
        if let Some(p2) = sp_tok(s, p1, "\"legs\""@) {
            lemma_tok_bounds(s, p2, ":"@);
            if let Some(p3) = sp_tok(s, p2, ":"@) {
                lemma_tok_bounds(s, p3, "["@);
                if let Some(p4) = sp_tok(s, p3, "["@) {
                    lemma_legs_list_bounds(s, p4);
                    if let Some((legs, p5)) = sp_legs_list(s, p4) {
                        lemma_tok_bounds(s, p5, "}"@);
                    }
                }
            }
        }
    }
}

/// After one pattern of a patterns array: `]` or `,` and the next.
pub open spec fn sp_patterns_tail(s: Seq<char>, pos: int) -> Option<(Seq<TripPatternView>, int)>
    decreases s.len() - pos,
{
    if !(0 <= pos <= s.len()) {
        None
    } else {
        match sp_tok(s, pos, "]"@) {
            Some(e) => Some((Seq::empty(), e)),
            None => match sp_tok(s, pos, ","@) {
                Some(p1) => match sp_pattern(s, p1) {
                    Some((pat, p2)) => {
                        proof {
                            lemma_tok_bounds(s, pos, ","@);
                            lemma_pattern_bounds(s, p1);
                        }
                        match sp_patterns_tail(s, p2) {
                            Some((rest, e)) => Some((seq![pat] + rest, e)),
                            None => None,
                        }
                    },
                    None => None,
                },
                None => None,
            },
        }
    }
}

pub proof fn lemma_patterns_tail_bounds(s: Seq<char>, pos: int)
    requires
        0 <= pos <= s.len(),
    ensures
        sp_patterns_tail(s, pos) matches Some(r) ==> pos < r.1 <= s.len(),
    decreases s.len() - pos,
{
    reveal_strlit("]");
    lemma_tok_bounds(s, pos, "]"@);
    if sp_tok(s, pos, "]"@) is None {
        lemma_tok_bounds(s, pos, ","@);
        if let Some(p1) = sp_tok(s, pos, ","@) {
            lemma_pattern_bounds(s, p1);
            if let Some((pat, p2)) = sp_pattern(s, p1) {
                lemma_patterns_tail_bounds(s, p2);
            }
        }
    }
}

/// A patterns array body, after the `[`.
pub open spec fn sp_patterns_list(s: Seq<char>, pos: int) -> Option<(Seq<TripPatternView>, int)> {
    match sp_tok(s, pos, "]"@) {
        Some(e) => Some((Seq::empty(), e)),
        None => match sp_pattern(s, pos) {
            Some((pat, p1)) => match sp_patterns_tail(s, p1) {
                Some((rest, e)) => Some((seq![pat] + rest, e)),
                None => None,
            },
            None => None,
        },
    }
}

pub proof fn lemma_patterns_list_bounds(s: Seq<char>, pos: int)
    requires
        0 <= pos <= s.len(),
    ensures
        sp_patterns_list(s, pos) matches Some(r) ==> pos < r.1 <= s.len(),
{
    reveal_strlit("]");
    lemma_tok_bounds(s, pos, "]"@);
    if sp_tok(s, pos, "]"@) is None {
        lemma_pattern_bounds(s, pos);
        if let Some((pat, p1)) = sp_pattern(s, pos) {
            lemma_patterns_tail_bounds(s, p1);
        }
    }
}

/// A trip result object: `{"tripPatterns": [...]}`.
pub open spec fn sp_trip(s: Seq<char>, pos: int) -> Option<(TripView, int)> {
    match sp_tok(s, pos, "{"@) {
        Some(p1) => match sp_tok(s, p1, "\"tripPatterns\""@) {
            Some(p2) => match sp_tok(s, p2, ":"@) {
                Some(p3) => match sp_tok(s, p3, "["@) {
                    Some(p4) => match sp_patterns_list(s, p4) {
                        Some((pats, p5)) => match sp_tok(s, p5, "}"@) {
                            Some(e) => Some((TripView { trip_patterns: pats }, e)),
                            None => None,
                        },
                        None => None,
                    },
                    None => None,
                },
                None => None,
            },
            None => None,
        },
        None => None,
    }
}

pub proof fn lemma_trip_bounds(s: Seq<char>, pos: int)
    requires
        0 <= pos <= s.len(),
    ensures
        sp_trip(s, pos) matches Some(r) ==> pos < r.1 <= s.len(),
{
    lemma_tok_bounds(s, pos, "{"@);
    if let Some(p1) = sp_tok(s, pos, "{"@) {
        lemma_tok_bounds(s, p1, "\"tripPatterns\""@);
        if let Some(p2) = sp_tok(s, p1, "\"tripPatterns\""@) {
            lemma_tok_bounds(s, p2, ":"@);
            if let Some(p3) = sp_tok(s, p2, ":"@) {
                lemma_tok_bounds(s, p3, "["@);
                if let Some(p4) = sp_tok(s, p3, "["@) {
                    lemma_patterns_list_bounds(s, p4);
                    if let Some((pats, p5)) = sp_patterns_list(s, p4) {
                        lemma_tok_bounds(s, p5, "}"@);
                    }
                }
            }
        }
    }
}

/// The data object: either one trip result under `"trip"`, or two under
/// `"trip1"` and `"trip2"`, in request order.
pub open spec fn sp_data(s: Seq<char>, pos: int) -> Option<(Seq<TripView>, int)> {
    match sp_tok(s, pos, "{"@) {
        Some(p1) => match sp_tok(s, p1, "\"trip\""@) {
            Some(p2) => match sp_tok(s, p2, ":"@) {
                Some(p3) => match sp_trip(s, p3) {
                    Some((t, p4)) => match sp_tok(s, p4, "}"@) {
                        Some(e) => Some((seq![t], e)),
                        None => None,
                    },
                    None => None,
                },
                None => None,
            },
            None => match sp_tok(s, p1, "\"trip1\""@) {
                Some(p2) => match sp_tok(s, p2, ":"@) {
                    Some(p3) => match sp_trip(s, p3) {
                        Some((t1, p4)) => match sp_tok(s, p4, ","@) {
                            Some(p5) => match sp_tok(s, p5, "\"trip2\""@) {
                                Some(p6) => match sp_tok(s, p6, ":"@) {
                                    Some(p7) => match sp_trip(s, p7) {
                                        Some((t2, p8)) => match sp_tok(s, p8, "}"@) {
                                            Some(e) => Some((seq![t1, t2], e)),
                                            None => None,
                                        },
                                        None => None,
                                    },
                                    None => None,
                                },
                                None => None,
                            },
                            None => None,
                        },
                        None => None,
                    },
                    None => None,
                },
                None => None,
            },
        },
        None => None,
    }
}

pub proof fn lemma_data_bounds(s: Seq<char>, pos: int)
    requires
        0 <= pos <= s.len(),
    ensures
        sp_data(s, pos) matches Some(r) ==> pos < r.1 <= s.len(),
{
    lemma_tok_bounds(s, pos, "{"@);
    if let Some(p1) = sp_tok(s, pos, "{"@) {
        lemma_tok_bounds(s, p1, "\"trip\""@);
        match sp_tok(s, p1, "\"trip\""@) {
            Some(p2) => {
                lemma_tok_bounds(s, p2, ":"@);
                if let Some(p3) = sp_tok(s, p2, ":"@) {
                    lemma_trip_bounds(s, p3);
                    if let Some((t, p4)) = sp_trip(s, p3) {
                        lemma_tok_bounds(s, p4, "}"@);
                    }
                }
            },
            None => {
                lemma_tok_bounds(s, p1, "\"trip1\""@);
                if let Some(p2) = sp_tok(s, p1, "\"trip1\""@) {
                    lemma_tok_bounds(s, p2, ":"@);
                    if let Some(p3) = sp_tok(s, p2, ":"@) {
                        lemma_trip_bounds(s, p3);
                        if let Some((t1, p4)) = sp_trip(s, p3) {
                            lemma_tok_bounds(s, p4, ","@);
                            if let Some(p5) = sp_tok(s, p4, ","@) {
                                lemma_tok_bounds(s, p5, "\"trip2\""@);
                                if let Some(p6) = sp_tok(s, p5, "\"trip2\""@) {
                                    lemma_tok_bounds(s, p6, ":"@);
                                    if let Some(p7) = sp_tok(s, p6, ":"@) {
                                        lemma_trip_bounds(s, p7);
                                        if let Some((t2, p8)) = sp_trip(s, p7) {
                                            lemma_tok_bounds(s, p8, "}"@);
                                        }
                                    }
                                }
                            }
                        }
                    }
                }
            },
        }
    }
}

/// The whole response: `{"data": <data>}` with nothing but whitespace
/// after it.
pub open spec fn sp_response(s: Seq<char>) -> Option<RawTripView> {
    match sp_tok(s, 0, "{"@) {
        Some(p1) => match sp_tok(s, p1, "\"data\""@) {
            Some(p2) => match sp_tok(s, p2, ":"@) {
                Some(p3) => match sp_data(s, p3) {
                    Some((trips, p4)) => match sp_tok(s, p4, "}"@) {
                        Some(p5) => if sp_ws(s, p5) == s.len() {
                            Some(RawTripView { trips })
                        } else {
                            None
                        },
                        None => None,
                    },
                    None => None,
                },
                None => None,
            },
            None => None,
        },
        None => None,
    }
}

/// Skips whitespace from `pos`.
fn exec_ws(s: &str, pos: usize) -> (r: usize)
    requires
        pos <= s@.len(),
    ensures
        r == sp_ws(s@, pos as int),
        pos <= r <= s@.len(),
{
    let n = s.unicode_len();
    let mut cur = pos;
    loop
        invariant
            pos <= cur <= n,
            n == s@.len(),
            sp_ws(s@, pos as int) == sp_ws(s@, cur as int),
        decreases n - cur,
    {
        if cur >= n {
            return cur;
        }
        let c = s.get_char(cur);
        if !(c == ' ' || c == '\t' || c == '\n' || c == '\r') {
            return cur;
        }
        cur += 1;
    }
}

/// Matches the literal token `tok` at exactly `pos`.
fn exec_exact(s: &str, pos: usize, tok: &str) -> (r: Option<usize>)
    requires
        pos <= s@.len(),
    ensures
        match r {
            Some(e) => sp_exact(s@, pos as int, tok@) == Some(e as int) && e <= s@.len(),
            None => sp_exact(s@, pos as int, tok@) is None,
        },
{
    let n = s.unicode_len();
    let m = tok.unicode_len();
    let mut i: usize = 0;
    proof {
        assert(tok@.skip(0) =~= tok@);
    }
    while i < m
        invariant
            0 <= i <= m,
            n == s@.len(),
            m == tok@.len(),
            pos + i <= n,
            sp_exact(s@, pos as int, tok@) == sp_exact(s@, pos + i, tok@.skip(i as int)),
        decreases m - i,
    {
        if pos + i >= n {
            return None;
        }
        if s.get_char(pos + i) != tok.get_char(i) {
            return None;
        }
        proof {
            assert(tok@.skip(i as int).drop_first() =~= tok@.skip(i + 1));
        }
        i += 1;
    }
    proof {
        assert(tok@.skip(m as int).len() == 0);
    }
    Some(pos + m)
}

/// Skips whitespace, then matches `tok`.
fn exec_tok(s: &str, pos: usize, tok: &str) -> (r: Option<usize>)
    requires
        pos <= s@.len(),
    ensures
        match r {
            Some(e) => sp_tok(s@, pos as int, tok@) == Some(e as int) && pos <= e <= s@.len(),
            None => sp_tok(s@, pos as int, tok@) is None,
        },
{
    proof {
        lemma_tok_bounds(s@, pos as int, tok@);
    }
    let p = exec_ws(s, pos);
    exec_exact(s, p, tok)
}

/// Parses a string body whose opening quote stands just before `pos`.
fn exec_string_end(s: &str, pos: usize) -> (r: Option<(String, usize)>)
    requires
        pos <= s@.len(),
    ensures
        match r {
            Some((c, e)) => sp_string_end(s@, pos as int) == Some((c@, e as int)) && e <= s@.len(),
            None => sp_string_end(s@, pos as int) is None,
        },
{
    let n = s.unicode_len();
    let mut out = String::new();
    let mut cur = pos;
    loop
        invariant
            pos <= cur <= n,
            n == s@.len(),
            sp_string_end(s@, pos as int) == (match sp_string_end(s@, cur as int) {
                Some((rest, e)) => Some((out@ + rest, e)),
                None => None::<(Seq<char>, int)>,
            }),
        decreases n - cur,
    {
        if cur >= n {
            return None;
        }
        let c = s.get_char(cur);
        if c == '"' {
            proof {
                assert(out@ + Seq::<char>::empty() =~= out@);
            }
            return Some((out, cur + 1));
        } else if c == '\\' {
            if cur + 1 >= n {
                return None;
            }
            let esc = s.get_char(cur + 1);
            let dec: char = if esc == '"' {
                '"'
            } else if esc == '\\' {
                '\\'
            } else if esc == '/' {
                '/'
            } else if esc == 'n' {
                '\n'
            } else if esc == 't' {
                '\t'
            } else if esc == 'r' {
                '\r'
            } else if esc == 'b' {
                '\u{8}'
            } else if esc == 'f' {
                '\u{c}'
            } else {
                return None;
            };
            let ghost old_out = out@;
            push_char(&mut out, dec);
            proof {
                assert(forall|rest: Seq<char>| old_out + (seq![dec] + rest) =~= out@ + rest);
            }
            cur += 2;
        } else {
            let ghost old_out = out@;
            push_char(&mut out, c);
            proof {
                assert(forall|rest: Seq<char>| old_out + (seq![c] + rest) =~= out@ + rest);
            }
            cur += 1;
        }
    }
}

/// Skips whitespace, then parses a quoted string value.
fn exec_string(s: &str, pos: usize) -> (r: Option<(String, usize)>)
    requires
        pos <= s@.len(),
    ensures
        match r {
            Some((c, e)) => sp_string(s@, pos as int) == Some((c@, e as int)) && pos < e
                <= s@.len(),
            None => sp_string(s@, pos as int) is None,
        },
{
    proof {
        reveal_strlit("\"");
        assert("\""@ =~= seq!['"']);
        lemma_string_bounds(s@, pos as int);
    }
    match exec_tok(s, pos, "\"") {
        Some(p) => exec_string_end(s, p),
        None => None,
    }
}


/// Parses a line object.
fn exec_line(s: &str, pos: usize) -> (r: Option<(Line, usize)>)
    requires
        pos <= s@.len(),
    ensures
        match r {
            Some((line, e)) => sp_line(s@, pos as int) == Some((line@, e as int)) && pos < e
                <= s@.len(),
            None => sp_line(s@, pos as int) is None,
        },
{
    proof {
        lemma_line_bounds(s@, pos as int);
    }
    let p1 = match exec_tok(s, pos, "{") {
        Some(p) => p,
        None => return None,
    };
    let p2 = match exec_tok(s, p1, "\"publicCode\"") {
        Some(p) => p,
        None => return None,
    };
    let p3 = match exec_tok(s, p2, ":") {
        Some(p) => p,
        None => return None,
    };
    let (code, p4) = match exec_string(s, p3) {
        Some(x) => x,
        None => return None,
    };
    let e = match exec_tok(s, p4, "}") {
        Some(p) => p,
        None => return None,
    };
    Some((Line { public_code: code }, e))
}

/// Parses a leg object.
fn exec_leg(s: &str, pos: usize) -> (r: Option<(Leg, usize)>)
    requires
        pos <= s@.len(),
    ensures
        match r {
            Some((leg, e)) => sp_leg(s@, pos as int) == Some((leg@, e as int)) && pos < e
                <= s@.len(),
            None => sp_leg(s@, pos as int) is None,
        },
{
    proof {
        lemma_leg_bounds(s@, pos as int);
    }
    let p1 = match exec_tok(s, pos, "{") {
        Some(p) => p,
        None => return None,
    };
    let p2 = match exec_tok(s, p1, "\"expectedStartTime\"") {
        Some(p) => p,
        None => return None,
    };
    let p3 = match exec_tok(s, p2, ":") {
        Some(p) => p,
        None => return None,
    };
    let (est, p4) = match exec_string(s, p3) {
        Some(x) => x,
        None => return None,
    };
    let p5 = match exec_tok(s, p4, ",") {
        Some(p) => p,
        None => return None,
    };
    let p6 = match exec_tok(s, p5, "\"line\"") {
        Some(p) => p,
        None => return None,
    };
    let p7 = match exec_tok(s, p6, ":") {
        Some(p) => p,
        None => return None,
    };
    let (line, p8) = match exec_line(s, p7) {
        Some(x) => x,
        None => return None,
    };
    let e = match exec_tok(s, p8, "}") {
        Some(p) => p,
        None => return None,
    };
    Some((Leg { expected_start_time: est, line }, e))
}

/// Parses a legs array body, after the `[`.
fn exec_legs_list(s: &str, pos: usize) -> (r: Option<(Vec<Leg>, usize)>)
    requires
        pos <= s@.len(),
    ensures
        match r {
            Some((v, e)) => sp_legs_list(s@, pos as int) == Some(
                (v@.map_values(|l: Leg| l@), e as int),
            ) && pos < e <= s@.len(),
            None => sp_legs_list(s@, pos as int) is None,
        },
{
    proof {
        lemma_legs_list_bounds(s@, pos as int);
    }
    match exec_tok(s, pos, "]") {
        Some(e) => {
            let v: Vec<Leg> = Vec::new();
            proof {
                assert(v@.map_values(|l: Leg| l@) =~= Seq::<LegView>::empty());
                reveal_strlit("]");
            }
            return Some((v, e));
        },
        None => {},
    }
    let (l0, p1) = match exec_leg(s, pos) {
        Some(x) => x,
        None => return None,
    };
    let mut legs: Vec<Leg> = Vec::new();
    legs.push(l0);
    proof {
        assert(legs@.map_values(|l: Leg| l@) =~= seq![l0@]);
    }
    let mut cur = p1;
    loop
        invariant
            pos < cur <= s@.len(),
            (match sp_legs_tail(s@, cur as int) {
                Some((rest, e)) => sp_legs_list(s@, pos as int) == Some(
                    (legs@.map_values(|l: Leg| l@) + rest, e),
                ) && e <= s@.len(),
                None => sp_legs_list(s@, pos as int) is None,
            }),
        decreases s@.len() - cur,
    {
        proof {
            lemma_legs_tail_bounds(s@, cur as int);
        }
        match exec_tok(s, cur, "]") {
            Some(e) => {
                proof {
                    assert(legs@.map_values(|l: Leg| l@) + Seq::<LegView>::empty()
                        =~= legs@.map_values(|l: Leg| l@));
                }
                return Some((legs, e));
            },
            None => {},
        }
        let pc = match exec_tok(s, cur, ",") {
            Some(p) => p,
            None => return None,
        };
        let (l, pn) = match exec_leg(s, pc) {
            Some(x) => x,
            None => return None,
        };
        let ghost old_map = legs@.map_values(|x: Leg| x@);
        legs.push(l);
        proof {
            assert(legs@.map_values(|x: Leg| x@) =~= old_map + seq![l@]);
            assert(forall|rest: Seq<LegView>|
                old_map + (seq![l@] + rest) =~= (old_map + seq![l@]) + rest);
        }
        cur = pn;
    }
}

/// Parses a trip pattern object.
fn exec_pattern(s: &str, pos: usize) -> (r: Option<(TripPattern, usize)>)
    requires
        pos <= s@.len(),
    ensures
        match r {
            Some((pat, e)) => sp_pattern(s@, pos as int) == Some((pat@, e as int)) && pos < e
                <= s@.len(),
            None => sp_pattern(s@, pos as int) is None,
        },
{
    proof {
        lemma_pattern_bounds(s@, pos as int);
    }
    let p1 = match exec_tok(s, pos, "{") {
        Some(p) => p,
        None => return None,
    };
    let p2 = match exec_tok(s, p1, "\"legs\"") {
        Some(p) => p,
        None => return None,
    };
    let p3 = match exec_tok(s, p2, ":") {
        Some(p) => p,
        None => return None,
    };
    let p4 = match exec_tok(s, p3, "[") {
        Some(p) => p,
        None => return None,
    };
    let (legs, p5) = match exec_legs_list(s, p4) {
        Some(x) => x,
        None => return None,
    };
    let e = match exec_tok(s, p5, "}") {
        Some(p) => p,
        None => return None,
    };
    Some((TripPattern { legs }, e))
}

/// Parses a patterns array body, after the `[`.
fn exec_patterns_list(s: &str, pos: usize) -> (r: Option<(Vec<TripPattern>, usize)>)
    requires
        pos <= s@.len(),
    ensures
        match r {
            Some((v, e)) => sp_patterns_list(s@, pos as int) == Some(
                (v@.map_values(|p: TripPattern| p@), e as int),
            ) && pos < e <= s@.len(),
            None => sp_patterns_list(s@, pos as int) is None,
        },
{
    proof {
        lemma_patterns_list_bounds(s@, pos as int);
    }
    match exec_tok(s, pos, "]") {
        Some(e) => {
            let v: Vec<TripPattern> = Vec::new();
            proof {
                assert(v@.map_values(|p: TripPattern| p@) =~= Seq::<TripPatternView>::empty());
                reveal_strlit("]");
            }
            return Some((v, e));
        },
        None => {},
    }
    let (pat0, p1) = match exec_pattern(s, pos) {
        Some(x) => x,
        None => return None,
    };
    let mut pats: Vec<TripPattern> = Vec::new();
    pats.push(pat0);
    proof {
        assert(pats@.map_values(|p: TripPattern| p@) =~= seq![pat0@]);
    }
    let mut cur = p1;
    loop
        invariant
            pos < cur <= s@.len(),
            (match sp_patterns_tail(s@, cur as int) {
                Some((rest, e)) => sp_patterns_list(s@, pos as int) == Some(
                    (pats@.map_values(|p: TripPattern| p@) + rest, e),
                ) && e <= s@.len(),
                None => sp_patterns_list(s@, pos as int) is None,
            }),
        decreases s@.len() - cur,
    {
        proof {
            lemma_patterns_tail_bounds(s@, cur as int);
        }
        match exec_tok(s, cur, "]") {
            Some(e) => {
                proof {
                    assert(pats@.map_values(|p: TripPattern| p@) + Seq::<TripPatternView>::empty()
                        =~= pats@.map_values(|p: TripPattern| p@));
                }
                return Some((pats, e));
            },
            None => {},
        }
        let pc = match exec_tok(s, cur, ",") {
            Some(p) => p,
            None => return None,
        };
        let (pat, pn) = match exec_pattern(s, pc) {
            Some(x) => x,
            None => return None,
        };
        let ghost old_map = pats@.map_values(|x: TripPattern| x@);
        pats.push(pat);
        proof {
            assert(pats@.map_values(|x: TripPattern| x@) =~= old_map + seq![pat@]);
            assert(forall|rest: Seq<TripPatternView>|
                old_map + (seq![pat@] + rest) =~= (old_map + seq![pat@]) + rest);
        }
        cur = pn;
    }
}

/// Parses a trip result object.
fn exec_trip(s: &str, pos: usize) -> (r: Option<(Trip, usize)>)
    requires
        pos <= s@.len(),
    ensures
        match r {
            Some((t, e)) => sp_trip(s@, pos as int) == Some((t@, e as int)) && pos < e <= s@.len(),
            None => sp_trip(s@, pos as int) is None,
        },
{
    proof {
        lemma_trip_bounds(s@, pos as int);
    }
    let p1 = match exec_tok(s, pos, "{") {
        Some(p) => p,
        None => return None,
    };
    let p2 = match exec_tok(s, p1, "\"tripPatterns\"") {
        Some(p) => p,
        None => return None,
    };
    let p3 = match exec_tok(s, p2, ":") {
        Some(p) => p,
        None => return None,
    };
    let p4 = match exec_tok(s, p3, "[") {
        Some(p) => p,
        None => return None,
    };
    let (pats, p5) = match exec_patterns_list(s, p4) {
        Some(x) => x,
        None => return None,
    };
    let e = match exec_tok(s, p5, "}") {
        Some(p) => p,
        None => return None,
    };
    Some((Trip { trip_patterns: pats }, e))
}

/// Parses the data object: one trip result or two.
fn exec_data(s: &str, pos: usize) -> (r: Option<(Vec<Trip>, usize)>)
    requires
        pos <= s@.len(),
    ensures
        match r {
            Some((v, e)) => sp_data(s@, pos as int) == Some(
                (v@.map_values(|t: Trip| t@), e as int),
            ) && pos < e <= s@.len(),
            None => sp_data(s@, pos as int) is None,
        },
{
    proof {
        lemma_data_bounds(s@, pos as int);
    }
    let p1 = match exec_tok(s, pos, "{") {
        Some(p) => p,
        None => return None,
    };
    match exec_tok(s, p1, "\"trip\"") {
        Some(p2) => {
            let p3 = match exec_tok(s, p2, ":") {
                Some(p) => p,
                None => return None,
            };
            let (t, p4) = match exec_trip(s, p3) {
                Some(x) => x,
                None => return None,
            };
            let e = match exec_tok(s, p4, "}") {
                Some(p) => p,
                None => return None,
            };
            let mut v: Vec<Trip> = Vec::new();
            v.push(t);
            proof {
                assert(v@.map_values(|t: Trip| t@) =~= seq![v@[0]@]);
            }
            Some((v, e))
        },
        None => {
            let p2 = match exec_tok(s, p1, "\"trip1\"") {
                Some(p) => p,
                None => return None,
            };
            let p3 = match exec_tok(s, p2, ":") {
                Some(p) => p,
                None => return None,
            };
            let (t1, p4) = match exec_trip(s, p3) {
                Some(x) => x,
                None => return None,
            };
            let p5 = match exec_tok(s, p4, ",") {
                Some(p) => p,
                None => return None,
            };
            let p6 = match exec_tok(s, p5, "\"trip2\"") {
                Some(p) => p,
                None => return None,
            };
            let p7 = match exec_tok(s, p6, ":") {
                Some(p) => p,
                None => return None,
            };
            let (t2, p8) = match exec_trip(s, p7) {
                Some(x) => x,
                None => return None,
            };
            let e = match exec_tok(s, p8, "}") {
                Some(p) => p,
                None => return None,
            };
            let ghost gt1 = t1@;
            let ghost gt2 = t2@;
            let mut v: Vec<Trip> = Vec::new();
            v.push(t1);
            v.push(t2);
            proof {
                assert(v@.map_values(|t: Trip| t@) =~= seq![gt1, gt2]);
            }
            Some((v, e))
        },
    }
}

/// Decodes a full response body: the `RawTrip` the grammar assigns to
/// it, or a `DecodeError` exactly when the body does not fit the
/// grammar.
pub fn parse_response(body: &str) -> (r: Result<RawTrip, DecodeError>)
    ensures
        match r {
            Ok(v) => sp_response(body@) == Some(v@),
            Err(_) => sp_response(body@) is None,
        },
{
    let p1 = match exec_tok(body, 0, "{") {
        Some(p) => p,
        None => return Err(DecodeError),
    };
    let p2 = match exec_tok(body, p1, "\"data\"") {
        Some(p) => p,
        None => return Err(DecodeError),
    };
    let p3 = match exec_tok(body, p2, ":") {
        Some(p) => p,
        None => return Err(DecodeError),
    };
    let (trips, p4) = match exec_data(body, p3) {
        Some(x) => x,
        None => return Err(DecodeError),
    };
    let p5 = match exec_tok(body, p4, "}") {
        Some(p) => p,
        None => return Err(DecodeError),
    };
    let p6 = exec_ws(body, p5);
    let n = body.unicode_len();
    if p6 == n {
        Ok(RawTrip { trips })
    } else {
        Err(DecodeError)
    }
}

} // verus!
