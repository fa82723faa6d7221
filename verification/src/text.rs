//! Character-level text rules of the analyzer.
//!
//! The analyzer recognises one sentinel documentation line: after trimming,
//! the line must start with `#`, and the remainder, trimmed again, must equal
//! `struct` regardless of ASCII case. Trimming here removes the blank
//! characters that occur in documentation lines: space, tab, line feed and
//! carriage return.

use vstd::prelude::*;
use vstd::string::StrSliceExecFns;

verus! {

/// A blank character for the purposes of trimming.
pub open spec fn is_space(c: char) -> bool {
    c == ' ' || c == '\t' || c == '\n' || c == '\r'
}

/// `s` without its leading blanks.
pub open spec fn trim_start_spec(s: Seq<char>) -> Seq<char>
    decreases s.len(),
{
    if s.len() > 0 && is_space(s[0]) {
        trim_start_spec(s.drop_first())
    } else {
        s
    }
}

/// `s` without its trailing blanks.
pub open spec fn trim_end_spec(s: Seq<char>) -> Seq<char>
    decreases s.len(),
{
    if s.len() > 0 && is_space(s[s.len() - 1]) {
        trim_end_spec(s.drop_last())
    } else {
        s
    }
}

/// `s` without leading and trailing blanks.
pub open spec fn trim_spec(s: Seq<char>) -> Seq<char> {
    trim_end_spec(trim_start_spec(s))
}

/// Whether `c` is the character `lo` in either ASCII case.
pub open spec fn eq_ci(c: char, lo: char, up: char) -> bool {
    c == lo || c == up
}

/// Whether `s` equals `struct` regardless of ASCII case.
pub open spec fn is_struct_word(s: Seq<char>) -> bool {
    &&& s.len() == 6
    &&& eq_ci(s[0], 's', 'S')
    &&& eq_ci(s[1], 't', 'T')
    &&& eq_ci(s[2], 'r', 'R')
    &&& eq_ci(s[3], 'u', 'U')
    &&& eq_ci(s[4], 'c', 'C')
    &&& eq_ci(s[5], 't', 'T')
}

/// Whether a documentation line is the sentinel that separates function
/// attributes from wrapper attributes: trimmed, it starts with `#`, and the
/// rest, trimmed, equals `struct` regardless of ASCII case.
pub open spec fn is_struct_marker(s: Seq<char>) -> bool {
    let t = trim_start_spec(s);
    &&& t.len() > 0
    &&& t[0] == '#'
    &&& is_struct_word(trim_spec(t.drop_first()))
}

proof fn lemma_trim_start(s: Seq<char>, i: int)
    requires
        0 <= i <= s.len(),
        forall|j: int| 0 <= j < i ==> is_space(#[trigger] s[j]),
        i == s.len() || !is_space(s[i]),
    ensures
        trim_start_spec(s) == s.subrange(i, s.len() as int),
    decreases i,
{
    if i == 0 {
        assert(trim_start_spec(s) =~= s.subrange(0, s.len() as int));
    } else {
        let d = s.drop_first();
        lemma_trim_start(d, i - 1);
        assert(trim_start_spec(s) == trim_start_spec(d));
        assert(d.subrange(i - 1, d.len() as int) =~= s.subrange(i, s.len() as int));
    }
}

proof fn lemma_trim_end(s: Seq<char>, e: int)
    requires
        0 <= e <= s.len(),
        forall|j: int| e <= j < s.len() ==> is_space(#[trigger] s[j]),
        e == 0 || !is_space(s[e - 1]),
    ensures
        trim_end_spec(s) == s.subrange(0, e),
    decreases s.len() - e,
{
    if e == s.len() {
        assert(trim_end_spec(s) =~= s.subrange(0, e));
    } else {
        let d = s.drop_last();
        lemma_trim_end(d, e);
        assert(trim_end_spec(s) == trim_end_spec(d));
        assert(d.subrange(0, e) =~= s.subrange(0, e));
    }
}

/// Whether this documentation line is the sentinel line.
pub fn doc_marks_struct(s: &str) -> (r: bool)
    ensures
        r == is_struct_marker(s@),
{
    let n: usize = s.unicode_len();
    let mut a: usize = 0;
    while a < n && is_space_exec(s.get_char(a))
        invariant
            0 <= a <= n,
            n == s@.len(),
            forall|j: int| 0 <= j < a ==> is_space(#[trigger] s@[j]),
        decreases n - a,
    {
        a += 1;
    }
    proof {
        lemma_trim_start(s@, a as int);
    }
    if a == n {
        return false;
    }
    if s.get_char(a) != '#' {
        return false;
    }
    let mut b: usize = a + 1;
    while b < n && is_space_exec(s.get_char(b))
        invariant
            a + 1 <= b <= n,
            n == s@.len(),
            forall|j: int| a + 1 <= j < b ==> is_space(#[trigger] s@[j]),
        decreases n - b,
    {
        b += 1;
    }
    let mut e: usize = n;
    while e > b && is_space_exec(s.get_char(e - 1))
        invariant
            b <= e <= n,
            n == s@.len(),
            forall|j: int| e <= j < n ==> is_space(#[trigger] s@[j]),
        decreases e,
    {
        e -= 1;
    }
    proof {
        let t = trim_start_spec(s@);
        assert(t == s@.subrange(a as int, n as int));
        assert(t.drop_first() =~= s@.subrange(a + 1, n as int));
        lemma_trim_start(t.drop_first(), b - (a + 1));
        assert(t.drop_first().subrange(b - (a + 1), t.drop_first().len() as int) =~= s@.subrange(
            b as int,
            n as int,
        ));
        lemma_trim_end(s@.subrange(b as int, n as int), e - b);
        assert(s@.subrange(b as int, n as int).subrange(0, e - b) =~= s@.subrange(
            b as int,
            e as int,
        ));
        assert(trim_spec(t.drop_first()) == s@.subrange(b as int, e as int));
    }
    if e - b != 6 {
        return false;
    }
    let c0 = s.get_char(b);
    let c1 = s.get_char(b + 1);
    let c2 = s.get_char(b + 2);
    let c3 = s.get_char(b + 3);
    let c4 = s.get_char(b + 4);
    let c5 = s.get_char(b + 5);
    (c0 == 's' || c0 == 'S') && (c1 == 't' || c1 == 'T') && (c2 == 'r' || c2 == 'R') && (c3 == 'u'
        || c3 == 'U') && (c4 == 'c' || c4 == 'C') && (c5 == 't' || c5 == 'T')
}

/// Executable form of [`is_space`].
pub fn is_space_exec(c: char) -> (r: bool)
    ensures
        r == is_space(c),
{
    c == ' ' || c == '\t' || c == '\n' || c == '\r'
}

/// Whether a string equals the given keyword, character for character.
pub fn str_eq_string(s: &String, kw: &str) -> (r: bool)
    ensures
        r == (s@ == kw@),
{
    let k: String = kw.to_owned();
    *s == k
}

} // verus!
