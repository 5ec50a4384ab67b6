//! String plumbing: appending one character to a `String`, and
//! stripping the NUL fill bytes that a fixed-capacity receive buffer
//! leaves around a response body.

use vstd::prelude::*;
use vstd::string::StrSliceExecFns;

verus! {

/// Relies on `std::string::String::push`: appends exactly the given
/// character to the end of the string.
#[verifier::external_body]
pub fn push_char(s: &mut String, c: char)
    ensures
        final(s)@ == old(s)@ + seq![c],
{
    s.push(c)
}

/// `s` without its leading NUL characters.
pub open spec fn trim_start_nuls(s: Seq<char>) -> Seq<char>
    decreases s.len(),
{
    if s.len() > 0 && s[0] == '\0' {
        trim_start_nuls(s.drop_first())
    } else {
        s
    }
}

/// `s` without its trailing NUL characters.
pub open spec fn trim_end_nuls(s: Seq<char>) -> Seq<char>
    decreases s.len(),
{
    if s.len() > 0 && s.last() == '\0' {
        trim_end_nuls(s.drop_last())
    } else {
        s
    }
}

/// `s` without NUL characters on either end.
pub open spec fn trimmed_nuls(s: Seq<char>) -> Seq<char> {
    trim_end_nuls(trim_start_nuls(s))
}

proof fn lemma_trim_start(s: Seq<char>, i: int)
    requires
        0 <= i <= s.len(),
        forall|k: int| 0 <= k < i ==> s[k] == '\0',
        i == s.len() || s[i] != '\0',
    ensures
        trim_start_nuls(s) == s.subrange(i, s.len() as int),
    decreases i,
{
    if i == 0 {
        assert(trim_start_nuls(s) =~= s.subrange(0, s.len() as int));
    } else {
        assert(s[0] == '\0');
        lemma_trim_start(s.drop_first(), i - 1);
        assert(s.drop_first().subrange(i - 1, s.drop_first().len() as int) =~= s.subrange(
            i,
            s.len() as int,
        ));
    }
}

proof fn lemma_trim_end(s: Seq<char>, j: int)
    requires
        0 <= j <= s.len(),
        forall|k: int| j <= k < s.len() ==> s[k] == '\0',
        j == 0 || s[j - 1] != '\0',
    ensures
        trim_end_nuls(s) == s.subrange(0, j),
    decreases s.len() - j,
{
    if j == s.len() {
        assert(trim_end_nuls(s) =~= s.subrange(0, j));
    } else {
        assert(s.last() == '\0');
        lemma_trim_end(s.drop_last(), j);
        assert(s.drop_last().subrange(0, j) =~= s.subrange(0, j));
    }
}

/// Strips the NUL fill characters a fixed-size receive buffer leaves
/// before and after the received body.
pub fn trim_nuls(s: &str) -> (r: &str)
    ensures
        r@ == trimmed_nuls(s@),
{
    let n = s.unicode_len();
    let mut i: usize = 0;
    loop
        invariant
            i <= n,
            n == s@.len(),
            forall|k: int| 0 <= k < i ==> s@[k] == '\0',
        ensures
            i <= n,
            i == n || s@[i as int] != '\0',
            forall|k: int| 0 <= k < i ==> s@[k] == '\0',
        decreases n - i,
    {
        if i >= n {
            break ;
        }
        if s.get_char(i) != '\0' {
            break ;
        }
        i += 1;
    }
    let mut j: usize = n;
    loop
        invariant
            i <= j <= n,
            n == s@.len(),
            forall|k: int| j <= k < n ==> s@[k] == '\0',
        ensures
            i <= j <= n,
            j == i || s@[j - 1] != '\0',
            forall|k: int| j <= k < n ==> s@[k] == '\0',
        decreases j,
    {
        if j <= i {
            break ;
        }
        if s.get_char(j - 1) != '\0' {
            break ;
        }
        j -= 1;
    }
    let r = s.substring_char(i, j);
    proof {
        lemma_trim_start(s@, i as int);
        let t = s@.subrange(i as int, n as int);
        lemma_trim_end(t, j - i);
        assert(t.subrange(0, j - i) =~= s@.subrange(i as int, j as int));
    }
    r
}

} // verus!
