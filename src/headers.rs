//! Header lines of a response body: `Key: Value` lines, each ended by CRLF.
use vstd::prelude::*;
use vstd::utf8::valid_utf8;

use crate::text::utf8_str;

verus! {

/// Where the first CRLF at or after `i` starts.
pub open spec fn find_crlf(p: Seq<u8>, i: nat) -> Option<nat>
    decreases p.len() - i,
{
    if i + 1 >= p.len() {
        None
    } else if p[i as int] == 13 && p[i + 1 as int] == 10 {
        Some(i)
    } else {
        find_crlf(p, i + 1)
    }
}

/// The CRLF-ended lines of `p`, up to the first that is not valid UTF-8.
/// Bytes after the last CRLF are no line.
pub open spec fn header_lines(p: Seq<u8>) -> Seq<Seq<u8>>
    decreases p.len(),
{
    match find_crlf(p, 0) {
        None => Seq::empty(),
        Some(e) => {
            let line = p.subrange(0, e as int);
            if valid_utf8(line) && e + 2 <= p.len() {
                seq![line] + header_lines(p.subrange(e + 2 as int, p.len() as int))
            } else {
                Seq::empty()
            }
        },
    }
}

/// Where the first `c` in `s` stands.
pub open spec fn find_byte(s: Seq<u8>, c: u8) -> Option<nat> {
    if exists|i: int| 0 <= i < s.len() && s[i] == c {
        Some(
            (choose|i: int|
                0 <= i < s.len() && s[i] == c && forall|j: int| 0 <= j < i ==> s[j] != c) as nat,
        )
    } else {
        None
    }
}

proof fn lemma_find_crlf_bounds(p: Seq<u8>, i: nat)
    ensures
        find_crlf(p, i) matches Some(e) ==> i <= e && e + 2 <= p.len() && p[e as int] == 13 && p[e as int
            + 1] == 10,
    decreases p.len() - i,
{
    if i + 1 < p.len() && !(p[i as int] == 13 && p[i + 1 as int] == 10) {
        lemma_find_crlf_bounds(p, i + 1);
    }
}

/// Splits the first header line off `p`: the line, without its CRLF, and what
/// follows it.
pub fn next_header_line<'a>(p: &'a [u8]) -> (r: Option<(&'a [u8], &'a [u8])>)
    ensures
        match r {
            Some((line, rest)) => {
                &&& header_lines(p@).len() > 0
                &&& header_lines(p@)[0] == line@
                &&& header_lines(p@).drop_first() == header_lines(rest@)
                &&& rest@.len() < p@.len()
            },
            None => header_lines(p@).len() == 0,
        },
{
    let mut i: usize = 0;
    while p.len() - i >= 2
        invariant
            i <= p@.len(),
            find_crlf(p@, 0) == find_crlf(p@, i as nat),
        decreases p@.len() - i,
    {
        if p[i] == 13 && p[i + 1] == 10 {
            proof {
                lemma_find_crlf_bounds(p@, 0);
            }
            let line = vstd::slice::slice_subrange(p, 0, i);
            let rest = vstd::slice::slice_subrange(p, i + 2, p.len());
            if utf8_str(line).is_none() {
                return None;
            }
            let ghost lines = header_lines(p@);
            assert(lines == seq![line@] + header_lines(rest@));
            assert(lines.drop_first() == header_lines(rest@));
            return Some((line, rest));
        }
        i += 1;
    }
    None
}

/// Where the first `c` in `s` stands.
pub fn find_byte_in(s: &[u8], c: u8) -> (r: Option<usize>)
    ensures
        match r {
            Some(i) => find_byte(s@, c) == Some(i as nat),
            None => find_byte(s@, c) is None,
        },
        r matches Some(i) ==> i < s@.len() && s@[i as int] == c,
{
    let mut i: usize = 0;
    while i < s.len()
        invariant
            i <= s@.len(),
            forall|j: int| 0 <= j < i ==> s@[j] != c,
        decreases s@.len() - i,
    {
        if s[i] == c {
            let ghost k = choose|k: int|
                0 <= k < s@.len() && s@[k] == c && forall|j: int| 0 <= j < k ==> s@[j] != c;
            assert(0 <= i < s@.len() && s@[i as int] == c && forall|j: int|
                0 <= j < i ==> s@[j] != c);
            assert(k == i) by {
                if k < i {
                    assert(s@[k] != c);
                } else if k > i {
                    assert(s@[i as int] != c);
                }
            }
            return Some(i);
        }
        i += 1;
    }
    None
}

} // verus!
