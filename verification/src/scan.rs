//! Byte-level scanning over a raw request: first line, whitespace-delimited
//! tokens, and substring search.

use vstd::prelude::*;

verus! {

/// ASCII whitespace, the delimiters a request line is split on.
pub open spec fn is_ascii_ws(b: u8) -> bool {
    b == 32 || b == 9 || b == 10 || b == 11 || b == 12 || b == 13
}

/// The first index at or after `from` holding byte `b`, or `s.len()` if none.
pub open spec fn find_from(s: Seq<u8>, from: int, b: u8) -> int
    decreases s.len() - from,
{
    if from < 0 || from >= s.len() {
        s.len() as int
    } else if s[from] == b {
        from
    } else {
        find_from(s, from + 1, b)
    }
}

/// The first index at or after `from` holding a non-whitespace byte, or `s.len()`.
pub open spec fn non_ws_from(s: Seq<u8>, from: int) -> int
    decreases s.len() - from,
{
    if from < 0 || from >= s.len() {
        s.len() as int
    } else if !is_ascii_ws(s[from]) {
        from
    } else {
        non_ws_from(s, from + 1)
    }
}

/// The first index at or after `from` holding a whitespace byte, or `s.len()`.
pub open spec fn ws_from(s: Seq<u8>, from: int) -> int
    decreases s.len() - from,
{
    if from < 0 || from >= s.len() {
        s.len() as int
    } else if is_ascii_ws(s[from]) {
        from
    } else {
        ws_from(s, from + 1)
    }
}

fn is_ws(b: u8) -> (r: bool)
    ensures
        r == is_ascii_ws(b),
{
    b == 32 || b == 9 || b == 10 || b == 11 || b == 12 || b == 13
}

/// The first position of byte `b` in `s`, or `s.len()` if `b` does not occur.
pub fn find_byte(s: &[u8], b: u8) -> (r: usize)
    ensures
        r as int == find_from(s@, 0, b),
        r <= s@.len(),
{
    let n = s.len();
    let mut i: usize = 0;
    while i < n
        invariant
            i <= n,
            n == s@.len(),
            find_from(s@, 0, b) == find_from(s@, i as int, b),
        decreases n - i,
    {
        if s[i] == b {
            return i;
        }
        i = i + 1;
    }
    i
}

/// The first non-whitespace position at or after `from`, or `s.len()`.
pub fn find_non_ws(s: &[u8], from: usize) -> (r: usize)
    requires
        from <= s@.len(),
    ensures
        r as int == non_ws_from(s@, from as int),
        from <= r <= s@.len(),
{
    let n = s.len();
    let mut i: usize = from;
    while i < n
        invariant
            from <= i <= n,
            n == s@.len(),
            non_ws_from(s@, from as int) == non_ws_from(s@, i as int),
        decreases n - i,
    {
        if !is_ws(s[i]) {
            return i;
        }
        i = i + 1;
    }
    i
}

/// The first whitespace position at or after `from`, or `s.len()`.
pub fn find_ws(s: &[u8], from: usize) -> (r: usize)
    requires
        from <= s@.len(),
    ensures
        r as int == ws_from(s@, from as int),
        from <= r <= s@.len(),
{
    let n = s.len();
    let mut i: usize = from;
    while i < n
        invariant
            from <= i <= n,
            n == s@.len(),
            ws_from(s@, from as int) == ws_from(s@, i as int),
        decreases n - i,
    {
        if is_ws(s[i]) {
            return i;
        }
        i = i + 1;
    }
    i
}

/// The first line of a raw request: the bytes before the first line feed,
/// with a trailing carriage return stripped. A request with no line feed is
/// one line; an empty request has an empty first line.
pub open spec fn first_line_of(raw: Seq<u8>) -> Seq<u8> {
    let line = raw.subrange(0, find_from(raw, 0, 10));
    if line.len() > 0 && line[line.len() - 1] == 13 {
        line.subrange(0, line.len() - 1)
    } else {
        line
    }
}

/// Extracts the first line of a raw request.
pub fn first_line(raw: &[u8]) -> (line: Vec<u8>)
    ensures
        line@ == first_line_of(raw@),
{
    let e = find_byte(raw, 10);
    let end = if e > 0 && raw[e - 1] == 13 {
        e - 1
    } else {
        e
    };
    let line = vstd::slice::slice_to_vec(vstd::slice::slice_subrange(raw, 0, end));
    proof {
        let whole = raw@.subrange(0, e as int);
        if e > 0 && raw@[e as int - 1] == 13 {
            assert(line@ =~= whole.subrange(0, whole.len() - 1));
        } else {
            assert(line@ =~= whole);
        }
    }
    line
}

/// `needle` occurs in `hay` starting at index `i`.
pub open spec fn matches_at(hay: Seq<u8>, i: int, needle: Seq<u8>) -> bool {
    0 <= i && i + needle.len() <= hay.len() && hay.subrange(i, i + needle.len() as int)
        == needle
}

/// `needle` occurs somewhere in `hay`.
pub open spec fn contains_seq(hay: Seq<u8>, needle: Seq<u8>) -> bool {
    exists|i: int| matches_at(hay, i, needle)
}

fn matches_at_exec(hay: &[u8], i: usize, needle: &[u8]) -> (r: bool)
    requires
        i + needle@.len() <= hay@.len(),
    ensures
        r == matches_at(hay@, i as int, needle@),
{
    let n = hay.len();
    let m = needle.len();
    let mut j: usize = 0;
    while j < m
        invariant
            j <= m,
            m == needle@.len(),
            n == hay@.len(),
            i + m <= hay@.len(),
            hay@.subrange(i as int, i + j) =~= needle@.subrange(0, j as int),
        decreases m - j,
    {
        if hay[i + j] != needle[j] {
            proof {
                let sub = hay@.subrange(i as int, i + m);
                assert(sub[j as int] == hay@[i + j]);
                assert(sub[j as int] != needle@[j as int]);
            }
            return false;
        }
        proof {
            assert(hay@.subrange(i as int, i + j + 1) =~= hay@.subrange(i as int, i + j)
                + seq![hay@[i + j]]);
            assert(needle@.subrange(0, j + 1) =~= needle@.subrange(0, j as int)
                + seq![needle@[j as int]]);
        }
        j = j + 1;
    }
    proof {
        assert(hay@.subrange(i as int, i + m) =~= needle@.subrange(0, m as int));
        assert(needle@.subrange(0, m as int) =~= needle@);
    }
    true
}

/// Whether `needle` occurs anywhere in `hay`.
pub fn contains_subslice(hay: &[u8], needle: &[u8]) -> (r: bool)
    ensures
        r == contains_seq(hay@, needle@),
{
    let n = hay.len();
    let m = needle.len();
    if m > n {
        proof {
            assert(forall|i: int| !matches_at(hay@, i, needle@));
        }
        return false;
    }
    if m == 0 {
        proof {
            assert(hay@.subrange(0, 0) =~= needle@);
            assert(matches_at(hay@, 0, needle@));
        }
        return true;
    }
    let mut i: usize = 0;
    while i <= n - m
        invariant
            i <= n - m + 1,
            0 < m <= n,
            n == hay@.len(),
            m == needle@.len(),
            forall|k: int| 0 <= k < i ==> !matches_at(hay@, k, needle@),
        decreases n - m + 1 - i,
    {
        if matches_at_exec(hay, i, needle) {
            return true;
        }
        i = i + 1;
    }
    proof {
        assert forall|k: int| !matches_at(hay@, k, needle@) by {
            if matches_at(hay@, k, needle@) {
                assert(0 <= k <= n - m);
            }
        }
    }
    false
}

} // verus!
