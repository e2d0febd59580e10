//! Parsing of the battery daemon's replies.
//!
//! The daemon that manages the display's own battery answers a query over a
//! local socket with a line such as `battery: 85.25` or
//! `battery_power_plugged: true`. The answer's useful part is the text
//! between the first colon and the next one (or the end), with surrounding
//! ASCII whitespace removed. Talking to the socket stays outside this
//! crate; the extraction is verified here.

use vstd::prelude::*;

verus! {

/// ASCII whitespace: space, tab, line feed, form feed, carriage return.
pub open spec fn spec_is_ascii_space(b: u8) -> bool {
    b == 0x20 || b == 0x09 || b == 0x0A || b == 0x0C || b == 0x0D
}

/// Index of the first occurrence of `b`, or the length when absent.
pub open spec fn spec_find_byte(s: Seq<u8>, b: u8) -> int
    decreases s.len(),
{
    if s.len() == 0 {
        0
    } else if s[0] == b {
        0
    } else {
        1 + spec_find_byte(s.drop_first(), b)
    }
}

/// The sequence with leading ASCII whitespace removed.
pub open spec fn spec_trim_front(s: Seq<u8>) -> Seq<u8>
    decreases s.len(),
{
    if s.len() > 0 && spec_is_ascii_space(s[0]) {
        spec_trim_front(s.drop_first())
    } else {
        s
    }
}

/// The sequence with trailing ASCII whitespace removed.
pub open spec fn spec_trim_back(s: Seq<u8>) -> Seq<u8>
    decreases s.len(),
{
    if s.len() > 0 && spec_is_ascii_space(s.last()) {
        spec_trim_back(s.drop_last())
    } else {
        s
    }
}

/// The sequence with surrounding ASCII whitespace removed.
pub open spec fn spec_trim(s: Seq<u8>) -> Seq<u8> {
    spec_trim_back(spec_trim_front(s))
}

/// The daemon reply's useful part: the text between the first colon and
/// the next one (or the end), trimmed; nothing when no colon is present.
pub open spec fn spec_response_field(s: Seq<u8>) -> Option<Seq<u8>> {
    let i = spec_find_byte(s, 0x3A);
    if i == s.len() {
        None
    } else {
        let rest = s.skip(i + 1);
        Some(spec_trim(rest.take(spec_find_byte(rest, 0x3A))))
    }
}

/// A scan that stopped at the first hit pins down `spec_find_byte`.
proof fn lemma_find_byte(s: Seq<u8>, b: u8, i: int)
    requires
        0 <= i <= s.len(),
        forall|j: int| 0 <= j < i ==> s[j] != b,
        i == s.len() || s[i] == b,
    ensures
        spec_find_byte(s, b) == i,
    decreases i,
{
    if i == 0 {
    } else {
        lemma_find_byte(s.drop_first(), b, i - 1);
    }
}

/// A scan that stopped at the first non-space pins down `spec_trim_front`.
proof fn lemma_trim_front(s: Seq<u8>, k: int)
    requires
        0 <= k <= s.len(),
        forall|j: int| 0 <= j < k ==> spec_is_ascii_space(s[j]),
        k == s.len() || !spec_is_ascii_space(s[k]),
    ensures
        spec_trim_front(s) == s.skip(k),
    decreases k,
{
    if k == 0 {
        assert(s.skip(0) =~= s);
    } else {
        lemma_trim_front(s.drop_first(), k - 1);
        assert(s.drop_first().skip(k - 1) =~= s.skip(k));
    }
}

/// A scan that stopped at the last non-space pins down `spec_trim_back`.
proof fn lemma_trim_back(s: Seq<u8>, k: int)
    requires
        0 <= k <= s.len(),
        forall|j: int| k <= j < s.len() ==> spec_is_ascii_space(s[j]),
        k == 0 || !spec_is_ascii_space(s[k - 1]),
    ensures
        spec_trim_back(s) == s.take(k),
    decreases s.len(),
{
    if k == s.len() {
        assert(s.take(k) =~= s);
    } else {
        assert(spec_is_ascii_space(s.last()));
        lemma_trim_back(s.drop_last(), k);
        assert(s.drop_last().take(k) =~= s.take(k));
    }
}

/// Whether a byte is ASCII whitespace.
fn is_ascii_space(b: u8) -> (r: bool)
    ensures
        r == spec_is_ascii_space(b),
{
    b == 0x20 || b == 0x09 || b == 0x0A || b == 0x0C || b == 0x0D
}

/// Index of the first occurrence of `b`, or the length when absent.
fn find_byte(s: &[u8], b: u8) -> (r: usize)
    ensures
        r == spec_find_byte(s@, b),
        r <= s@.len(),
        r < s@.len() ==> s@[r as int] == b,
{
    let n = s.len();
    let mut i: usize = 0;
    while i < n
        invariant
            n == s@.len(),
            i <= n,
            forall|j: int| 0 <= j < i ==> s@[j] != b,
        decreases n - i,
    {
        if *vstd::slice::slice_index_get(s, i) == b {
            proof {
                lemma_find_byte(s@, b, i as int);
            }
            return i;
        }
        i = i + 1;
    }
    proof {
        lemma_find_byte(s@, b, n as int);
    }
    n
}

/// Copy `s` with surrounding ASCII whitespace removed.
fn trim_ascii(s: &[u8]) -> (r: Vec<u8>)
    ensures
        r@ == spec_trim(s@),
{
    let n = s.len();
    let mut start: usize = 0;
    while start < n && is_ascii_space(*vstd::slice::slice_index_get(s, start))
        invariant
            n == s@.len(),
            start <= n,
            forall|j: int| 0 <= j < start ==> spec_is_ascii_space(s@[j]),
        decreases n - start,
    {
        start = start + 1;
    }
    proof {
        lemma_trim_front(s@, start as int);
    }
    let mut end: usize = n;
    while end > start && is_ascii_space(*vstd::slice::slice_index_get(s, end - 1))
        invariant
            n == s@.len(),
            start <= end <= n,
            forall|j: int| end <= j < n ==> spec_is_ascii_space(s@[j]),
        decreases end,
    {
        end = end - 1;
    }
    proof {
        let t = s@.skip(start as int);
        lemma_trim_back(t, end - start);
        assert(t.take(end - start) =~= s@.subrange(start as int, end as int));
    }
    vstd::slice::slice_to_vec(vstd::slice::slice_subrange(s, start, end))
}

/// The useful part of a daemon reply: the text between the first colon and
/// the next one (or the end), trimmed. `None` when the reply carries no
/// colon at all.
pub fn response_field(response: &[u8]) -> (r: Option<Vec<u8>>)
    ensures
        match r {
            Some(v) => spec_response_field(response@) == Some(v@),
            None => spec_response_field(response@) is None,
        },
{
    let n = response.len();
    let i = find_byte(response, 0x3A);
    if i == n {
        return None;
    }
    let rest = vstd::slice::slice_subrange(response, i + 1, n);
    let j = find_byte(rest, 0x3A);
    let segment = vstd::slice::slice_subrange(rest, 0, j);
    proof {
        assert(response@.skip(i + 1) =~= response@.subrange(i + 1, n as int));
        assert(rest@.take(j as int) =~= rest@.subrange(0, j as int));
    }
    Some(trim_ascii(segment))
}

} // verus!
