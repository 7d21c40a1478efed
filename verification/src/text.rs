//! Comparisons on the bytes of texts.

use vstd::prelude::*;

verus! {

/// The bytes that encode a text.
pub open spec fn bytes_of(text: Seq<char>) -> Seq<u8> {
    vstd::utf8::encode_utf8(text)
}

/// `s` ends with `tail`.
pub open spec fn has_suffix(s: Seq<u8>, tail: Seq<u8>) -> bool {
    tail.len() <= s.len() && s.subrange(s.len() - tail.len(), s.len() as int) == tail
}

/// The last position of `b` in `s`, or -1 where `b` does not occur.
pub open spec fn last_index_of(s: Seq<u8>, b: u8) -> int
    decreases s.len(),
{
    if s.len() == 0 {
        -1
    } else if s.last() == b {
        s.len() - 1
    } else {
        last_index_of(s.drop_last(), b)
    }
}

/// The position found by scanning from the right is the last position.
pub proof fn lemma_last_index_of_is(s: Seq<u8>, b: u8, k: int)
    requires
        -1 <= k < s.len(),
        forall|j: int| k < j < s.len() ==> s[j] != b,
        k >= 0 ==> s[k] == b,
    ensures
        last_index_of(s, b) == k,
    decreases s.len(),
{
    if s.len() != 0 && s.last() != b {
        let t = s.drop_last();
        assert forall|j: int| k < j < t.len() implies t[j] != b by {
            assert(t[j] == s[j]);
        }
        if k >= 0 {
            assert(t[k] == s[k]);
        }
        lemma_last_index_of_is(t, b, k);
    }
}

/// Whether two byte strings are the same.
pub fn bytes_equal(a: &[u8], b: &[u8]) -> (same: bool)
    ensures
        same == (a@ == b@),
{
    if a.len() != b.len() {
        return false;
    }
    let mut i: usize = 0;
    while i < a.len()
        invariant
            a.len() == b.len(),
            i <= a.len(),
            forall|j: int| 0 <= j < i ==> a@[j] == b@[j],
        decreases a.len() - i,
    {
        if a[i] != b[i] {
            return false;
        }
        i = i + 1;
    }
    assert(a@ =~= b@);
    true
}

/// Whether the first `n` bytes of `s` end with `tail`.
pub fn ends_with_at(s: &[u8], n: usize, tail: &[u8]) -> (found: bool)
    requires
        n <= s.len(),
    ensures
        found == has_suffix(s@.take(n as int), tail@),
{
    let m: usize = tail.len();
    if m > n {
        return false;
    }
    let base: usize = n - m;
    let ghost head = s@.take(n as int);
    let mut i: usize = 0;
    while i < m
        invariant
            m == tail.len(),
            m <= n <= s.len(),
            base == n - m,
            i <= m,
            head == s@.take(n as int),
            forall|j: int| 0 <= j < i ==> s@[base + j] == tail@[j],
        decreases m - i,
    {
        if s[base + i] != tail[i] {
            assert(head.subrange(n - m, n as int)[i as int] == s@[base + i]);
            return false;
        }
        i = i + 1;
    }
    assert(head.subrange(n - m, n as int) =~= tail@);
    true
}

/// Whether `s` ends with `tail`.
pub fn ends_with(s: &[u8], tail: &[u8]) -> (found: bool)
    ensures
        found == has_suffix(s@, tail@),
{
    assert(s@.take(s.len() as int) =~= s@);
    ends_with_at(s, s.len(), tail)
}

/// The position right after the last `b` among the first `n` bytes of `s`,
/// or 0 where `b` does not occur among them. No `b` stands from there up to
/// `n`.
pub fn after_last(s: &[u8], n: usize, b: u8) -> (at: usize)
    requires
        n <= s.len(),
    ensures
        at == last_index_of(s@.take(n as int), b) + 1,
        at <= n,
        at > 0 ==> s@[at - 1] == b,
        forall|j: int| at <= j < n ==> s@[j] != b,
{
    let ghost head = s@.take(n as int);
    let mut i: usize = n;
    while i > 0 && s[i - 1] != b
        invariant
            i <= n <= s.len(),
            head == s@.take(n as int),
            forall|j: int| i <= j < n ==> s@[j] != b,
        decreases i,
    {
        i = i - 1;
    }
    proof {
        assert forall|j: int| i - 1 < j < head.len() implies head[j] != b by {
            assert(head[j] == s@[j]);
        }
        if i > 0 {
            assert(head[i - 1] == s@[i - 1]);
        }
        lemma_last_index_of_is(head, b, i - 1);
    }
    i
}

} // verus!
