//! Line trimming and recognition of the quit sentinel, over sequences of
//! characters.

use vstd::prelude::*;

verus! {

/// A character treated as blank when a line is trimmed: the ASCII whitespace
/// that shows up around newline-delimited chat frames.
pub open spec fn is_blank(c: char) -> bool {
    c == ' ' || c == '\t' || c == '\r' || c == '\n'
}

/// `s` with every trailing blank character removed.
pub open spec fn trim_end_spec(s: Seq<char>) -> Seq<char>
    decreases s.len(),
{
    if s.len() > 0 && is_blank(s.last()) {
        trim_end_spec(s.drop_last())
    } else {
        s
    }
}

/// `s` with every leading blank character removed.
pub open spec fn trim_start_spec(s: Seq<char>) -> Seq<char>
    decreases s.len(),
{
    if s.len() > 0 && is_blank(s.first()) {
        trim_start_spec(s.drop_first())
    } else {
        s
    }
}

/// `s` with blank characters removed from both ends.
pub open spec fn trim_spec(s: Seq<char>) -> Seq<char> {
    trim_start_spec(trim_end_spec(s))
}

fn is_blank_char(c: char) -> (r: bool)
    ensures
        r == is_blank(c),
{
    c == ' ' || c == '\t' || c == '\r' || c == '\n'
}

proof fn lemma_trim_end_all_blank_suffix(s: Seq<char>, k: int)
    requires
        0 <= k <= s.len(),
        forall|i: int| k <= i < s.len() ==> is_blank(s[i]),
    ensures
        trim_end_spec(s) == trim_end_spec(s.subrange(0, k)),
    decreases s.len() - k,
{
    if k == s.len() {
        assert(s.subrange(0, k) =~= s);
    } else {
        lemma_trim_end_all_blank_suffix(s, k + 1);
        let t = s.subrange(0, k + 1);
        assert(t.last() == s[k]);
        assert(t.drop_last() =~= s.subrange(0, k));
    }
}

/// The index just past the last non-blank character of `s`, which delimits
/// what end-trimming keeps.
fn trim_end_bound(s: &str) -> (hi: usize)
    ensures
        hi <= s@.len(),
        trim_end_spec(s@) == s@.subrange(0, hi as int),
{
    let n = s.unicode_len();
    let mut hi = n;
    while hi > 0 && is_blank_char(s.get_char(hi - 1))
        invariant
            hi <= n,
            n == s@.len(),
            forall|i: int| hi <= i < s@.len() ==> is_blank(s@[i]),
        decreases hi,
    {
        hi = hi - 1;
    }
    proof {
        lemma_trim_end_all_blank_suffix(s@, hi as int);
        if hi > 0 {
            let t = s@.subrange(0, hi as int);
            assert(t.last() == s@[hi - 1]);
            assert(!is_blank(t.last()));
        }
    }
    hi
}

/// `s` with exactly one trailing newline removed, when there is one; nothing
/// else of the content is touched.
pub open spec fn strip_newline_spec(s: Seq<char>) -> Seq<char> {
    if s.len() > 0 && s.last() == '\n' {
        s.drop_last()
    } else {
        s
    }
}

/// Returns `s` with exactly one trailing newline removed, as an owned
/// string; a frame's content is delivered otherwise untouched.
pub fn strip_newline_line(s: &str) -> (r: String)
    ensures
        r@ == strip_newline_spec(s@),
{
    let n = s.unicode_len();
    if n > 0 && s.get_char(n - 1) == '\n' {
        let kept = s.substring_char(0, n - 1);
        proof {
            assert(s@.subrange(0, n - 1) =~= s@.drop_last());
        }
        kept.to_owned()
    } else {
        s.to_owned()
    }
}

proof fn lemma_trim_start_all_blank_prefix(s: Seq<char>, k: int)
    requires
        0 <= k <= s.len(),
        forall|i: int| 0 <= i < k ==> is_blank(s[i]),
    ensures
        trim_start_spec(s) == trim_start_spec(s.subrange(k, s.len() as int)),
    decreases k,
{
    if k == 0 {
        assert(s.subrange(0, s.len() as int) =~= s);
    } else {
        let t = s.subrange(k - 1, s.len() as int);
        assert(t.first() == s[k - 1]);
        assert(t.drop_first() =~= s.subrange(k, s.len() as int));
        lemma_trim_start_all_blank_prefix(s, k - 1);
        assert(trim_start_spec(s.subrange(k - 1, s.len() as int)) == trim_start_spec(
            s.subrange(k, s.len() as int),
        ));
    }
}

/// The bounds `(lo, hi)` of the fully trimmed middle of `s`:
/// `trim_spec(s@)` is exactly `s@.subrange(lo, hi)`.
fn trim_bounds(s: &str) -> (r: (usize, usize))
    ensures
        r.0 <= r.1 <= s@.len(),
        trim_spec(s@) == s@.subrange(r.0 as int, r.1 as int),
{
    let hi = trim_end_bound(s);
    let ghost te = s@.subrange(0, hi as int);
    let mut lo: usize = 0;
    while lo < hi && is_blank_char(s.get_char(lo))
        invariant
            lo <= hi <= s@.len(),
            te == s@.subrange(0, hi as int),
            forall|i: int| 0 <= i < lo ==> is_blank(s@[i]),
        decreases hi - lo,
    {
        lo = lo + 1;
    }
    proof {
        assert(forall|i: int| 0 <= i < lo ==> te[i] == s@[i]);
        lemma_trim_start_all_blank_prefix(te, lo as int);
        let m = te.subrange(lo as int, te.len() as int);
        assert(m =~= s@.subrange(lo as int, hi as int));
        if lo < hi {
            assert(m.first() == s@[lo as int]);
            assert(!is_blank(m.first()));
        }
        assert(trim_start_spec(m) == m);
    }
    (lo, hi)
}

/// The quit sentinel: the exact characters `/quit`.
pub open spec fn quit_sentinel() -> Seq<char> {
    "/quit"@
}

/// Whether `t`, already trimmed, spells the quit sentinel, letter case
/// ignored.
pub open spec fn is_quit_chars(t: Seq<char>) -> bool {
    &&& t.len() == 5
    &&& t[0] == '/'
    &&& (t[1] == 'q' || t[1] == 'Q')
    &&& (t[2] == 'u' || t[2] == 'U')
    &&& (t[3] == 'i' || t[3] == 'I')
    &&& (t[4] == 't' || t[4] == 'T')
}

/// Whether a line, once blank characters at both ends are dropped, is the
/// quit sentinel, letter case ignored. The sentinel is recognized
/// tolerantly — surrounding blanks never keep a quit from being one —
/// while ordinary frames are delivered exactly as sent.
pub open spec fn is_quit_line(s: Seq<char>) -> bool {
    is_quit_chars(trim_spec(s))
}

/// Decides whether `s` is the quit sentinel, after trimming and ignoring
/// letter case.
pub fn line_is_quit(s: &str) -> (r: bool)
    ensures
        r == is_quit_line(s@),
{
    let (lo, hi) = trim_bounds(s);
    if hi - lo != 5 {
        return false;
    }
    let c0 = s.get_char(lo);
    let c1 = s.get_char(lo + 1);
    let c2 = s.get_char(lo + 2);
    let c3 = s.get_char(lo + 3);
    let c4 = s.get_char(lo + 4);
    c0 == '/' && (c1 == 'q' || c1 == 'Q') && (c2 == 'u' || c2 == 'U') && (c3 == 'i' || c3 == 'I')
        && (c4 == 't' || c4 == 'T')
}

/// Relies on `String::push`: appends exactly one character at the end.
#[verifier::external_body]
pub fn push_char(s: &mut String, c: char)
    ensures
        final(s)@ == old(s)@.push(c),
{
    s.push(c)
}

/// Relies on `String::pop`: removes and returns the last character, or
/// returns `None` and leaves the string as it was when it is empty.
#[verifier::external_body]
pub fn pop_char(s: &mut String) -> (r: Option<char>)
    ensures
        old(s)@.len() == 0 ==> final(s)@ == old(s)@ && r is None,
        old(s)@.len() > 0 ==> final(s)@ == old(s)@.drop_last() && r == Some(old(s)@.last()),
{
    s.pop()
}

} // verus!
