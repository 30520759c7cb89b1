//! The line-input primitive's pure half: trimming a raw line and turning
//! an all-whitespace line into the universal cancel signal.
//!
//! The host reads raw lines (retrying on transient read failures) and hands
//! each one to `normalize_line`.

use vstd::prelude::*;

verus! {

use vstd::string::StrSliceExecFns;

/// The whitespace characters that surround and get trimmed from a line.
pub open spec fn is_space(c: char) -> bool {
    c == ' ' || c == '\t' || c == '\n' || c == '\r'
}

/// `s` without its leading whitespace.
pub open spec fn trim_front(s: Seq<char>) -> Seq<char>
    decreases s.len(),
{
    if s.len() > 0 && is_space(s[0]) {
        trim_front(s.subrange(1, s.len() as int))
    } else {
        s
    }
}

/// `s` without its trailing whitespace.
pub open spec fn trim_back(s: Seq<char>) -> Seq<char>
    decreases s.len(),
{
    if s.len() > 0 && is_space(s[s.len() - 1]) {
        trim_back(s.subrange(0, s.len() - 1))
    } else {
        s
    }
}

/// `s` without its surrounding whitespace.
pub open spec fn trimmed(s: Seq<char>) -> Seq<char> {
    trim_back(trim_front(s))
}

/// Dropping a prefix of whitespace does not change `trim_front`.
proof fn lemma_trim_front_skip(s: Seq<char>, k: int)
    requires
        0 <= k <= s.len(),
        forall|j: int| 0 <= j < k ==> is_space(s[j]),
    ensures
        trim_front(s) == trim_front(s.subrange(k, s.len() as int)),
    decreases k,
{
    if k == 0 {
        assert(s.subrange(0, s.len() as int) =~= s);
    } else {
        let t = s.subrange(1, s.len() as int);
        assert(trim_front(s) == trim_front(t));
        lemma_trim_front_skip(t, k - 1);
        assert(t.subrange(k - 1, t.len() as int) =~= s.subrange(k, s.len() as int));
    }
}

/// Dropping a suffix of whitespace does not change `trim_back`.
proof fn lemma_trim_back_drop(s: Seq<char>, k: int)
    requires
        0 <= k <= s.len(),
        forall|j: int| k <= j < s.len() ==> is_space(s[j]),
    ensures
        trim_back(s) == trim_back(s.subrange(0, k)),
    decreases s.len() - k,
{
    if k == s.len() {
        assert(s.subrange(0, s.len() as int) =~= s);
    } else {
        let t = s.subrange(0, s.len() - 1);
        assert(trim_back(s) == trim_back(t));
        lemma_trim_back_drop(t, k);
        assert(t.subrange(0, k) =~= s.subrange(0, k));
    }
}

/// Whether `c` is one of the trimmed whitespace characters.
fn is_space_char(c: char) -> (r: bool)
    ensures
        r == is_space(c),
{
    c == ' ' || c == '\t' || c == '\n' || c == '\r'
}

/// Trims surrounding whitespace from one raw input line. An empty result is
/// the universal cancel signal and comes back as nothing; otherwise the
/// trimmed text comes back.
pub fn normalize_line(line: &str) -> (r: Option<String>)
    ensures
        r is None <==> trimmed(line@).len() == 0,
        r matches Option::Some(s) ==> s@ == trimmed(line@),
{
    let n = line.unicode_len();
    let mut start: usize = 0;
    while start < n && is_space_char(line.get_char(start))
        invariant
            n == line@.len(),
            start <= n,
            forall|j: int| 0 <= j < start ==> is_space(line@[j]),
        decreases n - start,
    {
        start = start + 1;
    }
    proof {
        lemma_trim_front_skip(line@, start as int);
        if start < n {
            assert(!is_space(line@.subrange(start as int, n as int)[0]));
        }
        assert(trim_front(line@) == line@.subrange(start as int, n as int));
    }
    let mut end: usize = n;
    while end > start && is_space_char(line.get_char(end - 1))
        invariant
            n == line@.len(),
            start <= end <= n,
            forall|j: int| end <= j < n ==> is_space(line@[j]),
        decreases end,
    {
        end = end - 1;
    }
    proof {
        let mid = line@.subrange(start as int, n as int);
        assert(forall|j: int| end - start <= j < mid.len() ==> is_space(#[trigger] mid[j]));
        lemma_trim_back_drop(mid, end - start);
        assert(mid.subrange(0, end - start) =~= line@.subrange(start as int, end as int));
        if end > start {
            assert(!is_space(line@.subrange(start as int, end as int)[end - start - 1]));
        }
        assert(trimmed(line@) == line@.subrange(start as int, end as int));
    }
    if start == end {
        Option::None
    } else {
        let t = line.substring_char(start, end);
        Option::Some(t.to_owned())
    }
}

} // verus!
