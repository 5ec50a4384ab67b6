//! Decimal text for the countdown: whole minutes until departure,
//! truncated toward zero, rendered as `"<minutes> Min"`, plus the
//! fixed-width left padding that keeps the countdown column aligned.

use vstd::prelude::*;
use vstd::string::StrSliceExecFns;
use vstd::string::StringExecFns;

verus! {

/// The decimal digit character for a value in `0..10`.
pub open spec fn digit_char(d: int) -> char {
    if d == 0 {
        '0'
    } else if d == 1 {
        '1'
    } else if d == 2 {
        '2'
    } else if d == 3 {
        '3'
    } else if d == 4 {
        '4'
    } else if d == 5 {
        '5'
    } else if d == 6 {
        '6'
    } else if d == 7 {
        '7'
    } else if d == 8 {
        '8'
    } else {
        '9'
    }
}

/// The decimal digit string of a non-negative value, without sign and
/// without leading zeros (except for the value zero itself).
pub open spec fn dec_digits(n: nat) -> Seq<char>
    decreases n,
{
    if n < 10 {
        seq![digit_char(n as int)]
    } else {
        dec_digits(n / 10) + seq![digit_char((n % 10) as int)]
    }
}

/// The decimal string of an integer: a minus sign before the digits when
/// the value is negative.
pub open spec fn dec_str(n: int) -> Seq<char> {
    if n < 0 {
        seq!['-'] + dec_digits((-n) as nat)
    } else {
        dec_digits(n as nat)
    }
}

/// Whole minutes in `diff` seconds, truncated toward zero (so `-90`
/// seconds is `-1` minute and `-30` seconds is `0` minutes).
pub open spec fn minutes_until(diff: int) -> int {
    if diff >= 0 {
        diff / 60
    } else {
        -((-diff) / 60)
    }
}

/// The countdown text for a departure `diff` seconds away: the truncated
/// whole-minutes value with the unit suffix.
pub open spec fn countdown_text(diff: int) -> Seq<char> {
    dec_str(minutes_until(diff)) + " Min"@
}

/// `s` left-padded with spaces to at least five characters.
pub open spec fn pad_left_5(s: Seq<char>) -> Seq<char> {
    if s.len() >= 5 {
        s
    } else {
        spaces((5 - s.len()) as nat) + s
    }
}

/// A run of `n` spaces.
pub open spec fn spaces(n: nat) -> Seq<char>
    decreases n,
{
    if n == 0 {
        Seq::empty()
    } else {
        spaces((n - 1) as nat) + seq![' ']
    }
}

/// LAW: the displayed minutes value truncates toward zero. For a
/// departure `diff` seconds away, the minutes value `m` shown satisfies
/// `m * 60 <= diff < (m + 1) * 60` when the departure lies in the
/// future (119 seconds shows 1 minute, 120 shows 2), and
/// `(m - 1) * 60 < diff <= m * 60` when it lies in the past (90 seconds
/// ago shows minus one minute, 30 seconds ago shows zero).
pub proof fn lemma_minutes_truncation(diff: int)
    ensures
        diff >= 0 ==> minutes_until(diff) * 60 <= diff < (minutes_until(diff) + 1) * 60,
        diff < 0 ==> (minutes_until(diff) - 1) * 60 < diff <= minutes_until(diff) * 60,
{
    if diff >= 0 {
        vstd::arithmetic::div_mod::lemma_fundamental_div_mod(diff, 60);
        vstd::arithmetic::div_mod::lemma_mod_division_less_than_divisor(diff, 60);
    } else {
        vstd::arithmetic::div_mod::lemma_fundamental_div_mod(-diff, 60);
        vstd::arithmetic::div_mod::lemma_mod_division_less_than_divisor(-diff, 60);
    }
}

/// The one-character string for a decimal digit.
fn digit_str(d: u64) -> (s: &'static str)
    requires
        d < 10,
    ensures
        s@ == seq![digit_char(d as int)],
{
    proof {
        reveal_strlit("0");
        reveal_strlit("1");
        reveal_strlit("2");
        reveal_strlit("3");
        reveal_strlit("4");
        reveal_strlit("5");
        reveal_strlit("6");
        reveal_strlit("7");
        reveal_strlit("8");
        reveal_strlit("9");
    }
    let s = match d {
        0 => "0",
        1 => "1",
        2 => "2",
        3 => "3",
        4 => "4",
        5 => "5",
        6 => "6",
        7 => "7",
        8 => "8",
        _ => "9",
    };
    proof {
        assert(s@ =~= seq![digit_char(d as int)]);
    }
    s
}

/// The decimal digit string of `n`.
pub fn u64_to_dec(n: u64) -> (s: String)
    ensures
        s@ == dec_digits(n as nat),
    decreases n,
{
    if n < 10 {
        String::from_str(digit_str(n))
    } else {
        let mut s = u64_to_dec(n / 10);
        s.append(digit_str(n % 10));
        s
    }
}

/// The countdown text for a leg expected to start at Unix second `start`,
/// seen at Unix second `now`: whole minutes, truncated toward zero, with
/// the `" Min"` suffix.
pub fn countdown_string(start: i64, now: i64) -> (s: String)
    ensures
        s@ == countdown_text(start as int - now as int),
{
    let s128: i128 = start as i128;
    let n128: i128 = now as i128;
    let neg: bool = s128 < n128;
    let mag: u64 = if neg {
        (n128 - s128) as u64
    } else {
        (s128 - n128) as u64
    };
    let minutes: u64 = mag / 60;
    let digits = u64_to_dec(minutes);
    let head: String = if neg && minutes > 0 {
        proof {
            reveal_strlit("-");
        }
        String::from_str("-").concat(digits.as_str())
    } else {
        digits
    };
    let out = head.concat(" Min");
    proof {
        let diff = start as int - now as int;
        if neg {
            assert(mag == -diff);
            if minutes > 0 {
                assert(head@ =~= seq!['-'] + dec_digits(mag as nat / 60));
            }
        }
        assert(out@ =~= countdown_text(diff));
    }
    out
}

/// `s` left-padded with spaces to at least five characters, so short
/// countdown strings stay column-aligned.
pub fn pad_start_5(s: &str) -> (r: String)
    ensures
        r@ == pad_left_5(s@),
{
    let n = s.unicode_len();
    if n >= 5 {
        return String::from_str(s);
    }
    let target: usize = 5 - n;
    let mut out = String::new();
    let mut i: usize = 0;
    while i < target
        invariant
            i <= target,
            target == 5 - s@.len(),
            s@.len() < 5,
            out@ == spaces(i as nat),
        decreases target - i,
    {
        out.append(" ");
        proof {
            reveal_strlit(" ");
            assert(out@ =~= spaces((i + 1) as nat));
        }
        i += 1;
    }
    out.append(s);
    proof {
        assert(out@ =~= pad_left_5(s@));
    }
    out
}

} // verus!
