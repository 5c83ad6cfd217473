//! Character-level helpers for the SSE framing layer.
//!
//! The wire protocol is line-oriented text; these helpers give the rest of
//! the crate exact, view-level contracts for the few string operations the
//! framing needs: equality, prefix tests, and whitespace trimming.

use vstd::prelude::*;

verus! {

/// The whitespace characters that may surround an SSE line: blanks, tabs
/// and the carriage return left by CRLF framing.
pub open spec fn is_line_ws(c: char) -> bool {
    c == ' ' || c == '\t' || c == '\r'
}

/// `s` with its leading whitespace removed.
pub open spec fn trim_front(s: Seq<char>) -> Seq<char>
    decreases s.len(),
{
    if s.len() > 0 && is_line_ws(s[0]) {
        trim_front(s.drop_first())
    } else {
        s
    }
}

/// `s` with its trailing whitespace removed.
pub open spec fn trim_back(s: Seq<char>) -> Seq<char>
    decreases s.len(),
{
    if s.len() > 0 && is_line_ws(s.last()) {
        trim_back(s.drop_last())
    } else {
        s
    }
}

/// `s` with whitespace removed from both ends.
pub open spec fn trimmed(s: Seq<char>) -> Seq<char> {
    trim_back(trim_front(s))
}

/// Whether `c` counts as line whitespace.
pub fn is_ws_char(c: char) -> (r: bool)
    ensures
        r == is_line_ws(c),
{
    c == ' ' || c == '\t' || c == '\r'
}

/// Character-for-character string equality, pinned to the views.
pub fn str_eq(a: &str, b: &str) -> (r: bool)
    ensures
        r == (a@ == b@),
{
    let an = a.unicode_len();
    let bn = b.unicode_len();
    if an != bn {
        proof {
            assert(a@ != b@);
        }
        return false;
    }
    let mut i: usize = 0;
    while i < an
        invariant
            i <= an,
            an == a@.len(),
            an == b@.len(),
            forall|j: int| 0 <= j < i ==> a@[j] == b@[j],
        decreases an - i,
    {
        if a.get_char(i) != b.get_char(i) {
            proof {
                assert(a@ != b@);
            }
            return false;
        }
        i += 1;
    }
    proof {
        assert(a@ =~= b@);
    }
    true
}

/// Whether `p` is a prefix of `s`.
pub fn str_starts_with(s: &str, p: &str) -> (r: bool)
    ensures
        r == p@.is_prefix_of(s@),
{
    let sn = s.unicode_len();
    let pn = p.unicode_len();
    if pn > sn {
        proof {
            assert(!p@.is_prefix_of(s@));
        }
        return false;
    }
    let mut i: usize = 0;
    while i < pn
        invariant
            i <= pn,
            pn <= sn,
            sn == s@.len(),
            pn == p@.len(),
            forall|j: int| 0 <= j < i ==> s@[j] == p@[j],
        decreases pn - i,
    {
        if s.get_char(i) != p.get_char(i) {
            proof {
                assert(p@[i as int] != s@.subrange(0, p@.len() as int)[i as int]);
                assert(!p@.is_prefix_of(s@));
            }
            return false;
        }
        i += 1;
    }
    proof {
        assert(p@ =~= s@.subrange(0, p@.len() as int));
    }
    true
}

/// The characters of `s` after the prefix `p`, as an owned string.
pub fn strip_prefix(s: &str, p: &str) -> (r: String)
    requires
        p@.is_prefix_of(s@),
    ensures
        r@ == s@.skip(p@.len() as int),
{
    let sn = s.unicode_len();
    let pn = p.unicode_len();
    let rest = s.substring_char(pn, sn);
    proof {
        assert(rest@ =~= s@.skip(p@.len() as int));
    }
    String::from_str(rest)
}

/// ASCII lowercase of one character; everything outside `'A'..='Z'` is kept.
pub open spec fn lower_char(c: char) -> char {
    if 'A' <= c && c <= 'Z' {
        (((c as u32) + 32) as u8) as char
    } else {
        c
    }
}

/// ASCII lowercase of a character sequence.
pub open spec fn lower(s: Seq<char>) -> Seq<char> {
    s.map_values(|c: char| lower_char(c))
}

/// Whether `s`, lowered ASCII-wise, equals `lit`.
pub fn eq_lower(s: &str, lit: &str) -> (r: bool)
    ensures
        r == (lower(s@) == lit@),
{
    let sn = s.unicode_len();
    let ln = lit.unicode_len();
    if sn != ln {
        proof {
            assert(lower(s@).len() == s@.len());
            assert(lower(s@) != lit@);
        }
        return false;
    }
    let mut i: usize = 0;
    while i < sn
        invariant
            i <= sn,
            sn == s@.len(),
            sn == lit@.len(),
            forall|j: int| 0 <= j < i ==> lower_char(s@[j]) == lit@[j],
        decreases sn - i,
    {
        let c = s.get_char(i);
        let lc: char = if c >= 'A' && c <= 'Z' {
            proof {
                assert((c as u32) + 32 <= 122) by {
                    assert(c <= 'Z');
                }
            }
            (((c as u32) + 32) as u8) as char
        } else {
            c
        };
        proof {
            assert(lc == lower_char(s@[i as int]));
        }
        if lc != lit.get_char(i) {
            proof {
                assert(lower(s@)[i as int] == lower_char(s@[i as int]));
                assert(lower(s@) != lit@);
            }
            return false;
        }
        i += 1;
    }
    proof {
        assert(lower(s@) =~= lit@);
    }
    true
}

proof fn lemma_trim_front_skip(s: Seq<char>, a: int)
    requires
        0 <= a <= s.len(),
        forall|j: int| 0 <= j < a ==> is_line_ws(s[j]),
    ensures
        trim_front(s) == trim_front(s.skip(a)),
    decreases a,
{
    if a > 0 {
        assert(s.len() > 0 && is_line_ws(s[0]));
        assert(trim_front(s) == trim_front(s.drop_first()));
        assert(s.drop_first().skip(a - 1) =~= s.skip(a));
        lemma_trim_front_skip(s.drop_first(), a - 1);
    } else {
        assert(s.skip(0) =~= s);
    }
}

proof fn lemma_trim_back_sub(s: Seq<char>, b: int)
    requires
        0 <= b <= s.len(),
        forall|j: int| b <= j < s.len() ==> is_line_ws(s[j]),
    ensures
        trim_back(s) == trim_back(s.take(b)),
    decreases s.len() - b,
{
    if b < s.len() {
        assert(s.len() > 0 && is_line_ws(s.last()));
        assert(trim_back(s) == trim_back(s.drop_last()));
        assert(s.drop_last().take(b) =~= s.take(b));
        lemma_trim_back_sub(s.drop_last(), b);
    } else {
        assert(s.take(b) =~= s);
    }
}

/// A copy of `s` with line whitespace removed from both ends.
pub fn trim_str(s: &str) -> (r: String)
    ensures
        r@ == trimmed(s@),
{
    let n = s.unicode_len();
    let mut a: usize = 0;
    while a < n && is_ws_char(s.get_char(a))
        invariant
            a <= n,
            n == s@.len(),
            forall|j: int| 0 <= j < a ==> is_line_ws(s@[j]),
        decreases n - a,
    {
        a += 1;
    }
    proof {
        lemma_trim_front_skip(s@, a as int);
        if a < n {
            assert(s@.skip(a as int)[0] == s@[a as int]);
            assert(trim_front(s@.skip(a as int)) == s@.skip(a as int));
        } else {
            assert(s@.skip(a as int) =~= Seq::<char>::empty());
            assert(trim_front(s@.skip(a as int)) == s@.skip(a as int));
        }
    }
    let mut b: usize = n;
    while b > a && is_ws_char(s.get_char(b - 1))
        invariant
            a <= b <= n,
            n == s@.len(),
            forall|j: int| b <= j < n ==> is_line_ws(s@[j]),
        decreases b,
    {
        b -= 1;
    }
    let core = s.substring_char(a, b);
    proof {
        let t = s@.skip(a as int);
        assert(forall|j: int| (b - a) <= j < t.len() ==> is_line_ws(t[j]));
        lemma_trim_back_sub(t, b - a);
        if b > a {
            assert(t.take(b - a).last() == s@[b - 1]);
            assert(trim_back(t.take(b - a)) == t.take(b - a));
        } else {
            assert(t.take(b - a) =~= Seq::<char>::empty());
            assert(trim_back(t.take(b - a)) == t.take(b - a));
        }
        assert(core@ =~= t.take(b - a));
        assert(core@ == trimmed(s@));
    }
    String::from_str(core)
}

} // verus!
