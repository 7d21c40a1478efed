//! The grammar of socket addresses: an IP literal followed by a port.
//!
//! An address is accepted in one of two shapes, `a.b.c.d:port` for IPv4 and
//! `[groups]:port` for IPv6, the latter with an optional numeric scope after
//! a percent sign. Host names are not addresses. The grammar is stated over
//! the bytes of the text by the spec functions below; the executable
//! recognisers are proved to decide exactly that grammar.

use vstd::prelude::*;
use crate::text::bytes_of;

verus! {

/// The byte `.`, which separates the octets of an IPv4 literal.
pub const DOT: u8 = 46;

/// The byte `:`, which separates IPv6 groups and precedes the port.
pub const COLON: u8 = 58;

/// The byte `%`, which precedes an IPv6 scope.
pub const PERCENT: u8 = 37;

/// The byte `[`, which opens an IPv6 literal in a socket address.
pub const OPEN_BRACKET: u8 = 91;

/// The byte `]`, which closes an IPv6 literal in a socket address.
pub const CLOSE_BRACKET: u8 = 93;

/// The largest scope an IPv6 literal may carry.
pub const MAX_SCOPE: u64 = 0xFFFF_FFFF;

/// The largest port.
pub const MAX_PORT: u64 = 0xFFFF;

/// An ASCII decimal digit.
pub open spec fn is_digit(b: u8) -> bool {
    48 <= b <= 57
}

/// An ASCII hexadecimal digit, in either case.
pub open spec fn is_hex_digit(b: u8) -> bool {
    is_digit(b) || 65 <= b <= 70 || 97 <= b <= 102
}

/// Every byte of `s` is a decimal digit.
pub open spec fn all_digits(s: Seq<u8>) -> bool {
    forall|i: int| 0 <= i < s.len() ==> is_digit(#[trigger] s[i])
}

/// Every byte of `s` is a hexadecimal digit.
pub open spec fn all_hex_digits(s: Seq<u8>) -> bool {
    forall|i: int| 0 <= i < s.len() ==> is_hex_digit(#[trigger] s[i])
}

/// What a single digit is worth; bytes that are no digits are worth nothing.
pub open spec fn digit_value(b: u8) -> nat {
    if is_digit(b) {
        (b - 48) as nat
    } else {
        0
    }
}

/// The number that the digits of `s` write in base ten.
pub open spec fn decimal_value(s: Seq<u8>) -> nat
    decreases s.len(),
{
    if s.len() == 0 {
        0
    } else {
        decimal_value(s.drop_last()) * 10 + digit_value(s.last())
    }
}

/// `s` is a nonempty run of decimal digits whose value is at most `max`.
/// Leading zeros are allowed.
pub open spec fn is_decimal_within(s: Seq<u8>, max: nat) -> bool {
    s.len() >= 1 && all_digits(s) && decimal_value(s) <= max
}

/// A port: any number of digits that write a value up to 65535.
pub open spec fn is_port(s: Seq<u8>) -> bool {
    is_decimal_within(s, MAX_PORT as nat)
}

/// An IPv6 scope: any number of digits that write a value that fits 32 bits.
pub open spec fn is_scope_id(s: Seq<u8>) -> bool {
    is_decimal_within(s, MAX_SCOPE as nat)
}

/// One octet of an IPv4 literal: one to three digits, up to 255, and no
/// leading zero before another digit.
pub open spec fn is_octet(s: Seq<u8>) -> bool {
    &&& 1 <= s.len() <= 3
    &&& all_digits(s)
    &&& (s.len() > 1 ==> s[0] != 48)
    &&& decimal_value(s) <= 255
}

/// One group of an IPv6 literal: one to four hexadecimal digits.
pub open spec fn is_hex_group(s: Seq<u8>) -> bool {
    1 <= s.len() <= 4 && all_hex_digits(s)
}

/// The first position of `b` in `s`, or the length of `s` where `b` does not
/// occur.
pub open spec fn index_of(s: Seq<u8>, b: u8) -> int
    decreases s.len(),
{
    if s.len() == 0 {
        0
    } else if s[0] == b {
        0
    } else {
        1 + index_of(s.skip(1), b)
    }
}

/// The pieces of `s` between occurrences of `b`. There is always at least
/// one piece, and a piece is empty where two separators meet or where one
/// stands at either end.
pub open spec fn split(s: Seq<u8>, b: u8) -> Seq<Seq<u8>>
    decreases s.len(),
{
    let i = index_of(s, b);
    if 0 <= i < s.len() {
        seq![s.take(i)] + split(s.skip(i + 1), b)
    } else {
        seq![s]
    }
}

/// An IPv4 literal: exactly four octets separated by dots.
pub open spec fn is_ipv4(s: Seq<u8>) -> bool {
    let pieces = split(s, DOT);
    pieces.len() == 4 && forall|i: int| 0 <= i < 4 ==> is_octet(#[trigger] pieces[i])
}

/// Every piece before position `n` is a hexadecimal group.
pub open spec fn hex_groups_before(pieces: Seq<Seq<u8>>, n: int) -> bool {
    forall|i: int| 0 <= i < n ==> is_hex_group(#[trigger] pieces[i])
}

/// How many 16-bit groups the colon-separated text `s` writes, if it is a
/// list of groups at all. The empty text writes none. With `v4_tail` the last
/// piece may be an IPv4 literal, which stands for two groups.
pub open spec fn group_count(s: Seq<u8>, v4_tail: bool) -> Option<nat> {
    let pieces = split(s, COLON);
    if s.len() == 0 {
        Some(0)
    } else if hex_groups_before(pieces, pieces.len() as int) {
        Some(pieces.len())
    } else if v4_tail && is_ipv4(pieces.last()) && hex_groups_before(pieces, pieces.len() - 1) {
        Some(pieces.len() + 1)
    } else {
        None
    }
}

/// The first position at which two colons stand side by side, or the length
/// of `s` where they never do.
pub open spec fn double_colon(s: Seq<u8>) -> int
    decreases s.len(),
{
    if s.len() < 2 {
        s.len() as int
    } else if s[0] == COLON && s[1] == COLON {
        0
    } else {
        1 + double_colon(s.skip(1))
    }
}

/// An IPv6 literal. Written in full it has eight groups. Written with a
/// double colon, which stands for one or more groups of zeros, it has at most
/// seven, and an IPv4 tail may only follow the double colon.
pub open spec fn is_ipv6(s: Seq<u8>) -> bool {
    let p = double_colon(s);
    if 0 <= p && p + 2 <= s.len() {
        match (group_count(s.take(p), false), group_count(s.skip(p + 2), true)) {
            (Some(head), Some(tail)) => head + tail <= 7,
            _ => false,
        }
    } else {
        group_count(s, true) == Some(8nat)
    }
}

/// An IPv6 literal with an optional scope after a percent sign.
pub open spec fn is_scoped_ipv6(s: Seq<u8>) -> bool {
    let k = index_of(s, PERCENT);
    if 0 <= k < s.len() {
        is_ipv6(s.take(k)) && is_scope_id(s.skip(k + 1))
    } else {
        is_ipv6(s)
    }
}

/// An IPv4 socket address: an IPv4 literal, a colon and a port.
pub open spec fn is_socket_addr_v4(s: Seq<u8>) -> bool {
    let c = index_of(s, COLON);
    0 <= c < s.len() && is_ipv4(s.take(c)) && is_port(s.skip(c + 1))
}

/// An IPv6 socket address: a bracketed IPv6 literal, a colon and a port.
pub open spec fn is_socket_addr_v6(s: Seq<u8>) -> bool {
    let q = index_of(s, CLOSE_BRACKET);
    &&& s.len() >= 1
    &&& s[0] == OPEN_BRACKET
    &&& 1 <= q
    &&& q + 1 < s.len()
    &&& s[q + 1] == COLON
    &&& is_scoped_ipv6(s.subrange(1, q))
    &&& is_port(s.skip(q + 2))
}

/// The text is a socket address of either family.
pub open spec fn is_socket_addr(s: Seq<u8>) -> bool {
    is_socket_addr_v4(s) || is_socket_addr_v6(s)
}

/// The position found by scanning from the left is the first position.
pub proof fn lemma_index_of_is(s: Seq<u8>, b: u8, k: int)
    requires
        0 <= k <= s.len(),
        forall|j: int| 0 <= j < k ==> s[j] != b,
        k < s.len() ==> s[k] == b,
    ensures
        index_of(s, b) == k,
    decreases s.len(),
{
    if s.len() != 0 && s[0] != b {
        let t = s.skip(1);
        assert forall|j: int| 0 <= j < k - 1 implies t[j] != b by {
            assert(t[j] == s[j + 1]);
        }
        lemma_index_of_is(t, b, k - 1);
    }
}

/// The position found by scanning pairs from the left is the first double
/// colon.
pub proof fn lemma_double_colon_is(s: Seq<u8>, k: int)
    requires
        0 <= k <= s.len(),
        forall|j: int| 0 <= j < k && j + 1 < s.len() ==> !(#[trigger] s[j] == COLON && s[j + 1] == COLON),
        k < s.len() ==> k + 2 <= s.len() && s[k] == COLON && s[k + 1] == COLON,
    ensures
        double_colon(s) == k,
    decreases s.len(),
{
    if s.len() >= 2 && !(s[0] == COLON && s[1] == COLON) {
        let t = s.skip(1);
        assert(k >= 1);
        assert forall|j: int| 0 <= j < k - 1 && j + 1 < t.len() implies !(#[trigger] t[j] == COLON
            && t[j + 1] == COLON) by {
            assert(t[j] == s[j + 1]);
            assert(t[j + 1] == s[j + 2]);
        }
        lemma_double_colon_is(t, k - 1);
    } else if s.len() >= 2 {
        if k > 0 {
            assert(!(s[0] == COLON && s[0int + 1] == COLON));
        }
    } else if s.len() == 1 {
        assert(k == 1);
    }
}

/// A number is at least what any prefix of its digits writes.
pub proof fn lemma_decimal_prefix(s: Seq<u8>, k: int)
    requires
        0 <= k <= s.len(),
    ensures
        decimal_value(s.take(k)) <= decimal_value(s),
    decreases s.len(),
{
    if k < s.len() {
        let t = s.drop_last();
        assert(t.take(k) =~= s.take(k));
        lemma_decimal_prefix(t, k);
    } else {
        assert(s.take(k) =~= s);
    }
}

/// A text always splits into at least one piece.
pub proof fn lemma_split_nonempty(s: Seq<u8>, b: u8)
    ensures
        split(s, b).len() >= 1,
{
}

/// The first position of `b` among the bytes of `s` from `lo` up to `hi`,
/// or `hi` where there is none.
pub fn find(s: &[u8], lo: usize, hi: usize, b: u8) -> (at: usize)
    requires
        lo <= hi <= s.len(),
    ensures
        lo <= at <= hi,
        at - lo == index_of(s@.subrange(lo as int, hi as int), b),
{
    let ghost x = s@.subrange(lo as int, hi as int);
    let mut i: usize = lo;
    while i < hi && s[i] != b
        invariant
            lo <= i <= hi <= s.len(),
            x == s@.subrange(lo as int, hi as int),
            forall|j: int| 0 <= j < i - lo ==> x[j] != b,
        decreases hi - i,
    {
        i = i + 1;
    }
    proof {
        lemma_index_of_is(x, b, i - lo);
    }
    i
}

/// The first position from `lo` at which two colons stand side by side
/// before `hi`, or `hi` where they never do.
pub fn find_double_colon(s: &[u8], lo: usize, hi: usize) -> (at: usize)
    requires
        lo <= hi <= s.len(),
    ensures
        lo <= at <= hi,
        at - lo == double_colon(s@.subrange(lo as int, hi as int)),
{
    let ghost x = s@.subrange(lo as int, hi as int);
    let mut i: usize = lo;
    while i < hi
        invariant
            lo <= i <= hi <= s.len(),
            x == s@.subrange(lo as int, hi as int),
            forall|j: int|
                0 <= j < i - lo && j + 1 < x.len() ==> !(#[trigger] x[j] == COLON && x[j + 1]
                    == COLON),
        decreases hi - i,
    {
        if hi - i >= 2 && s[i] == COLON && s[i + 1] == COLON {
            proof {
                assert(x[i - lo] == s@[i as int]);
                assert(x[i - lo + 1] == s@[i + 1]);
                lemma_double_colon_is(x, i - lo);
            }
            return i;
        }
        proof {
            if i - lo + 1 < x.len() {
                assert(x[i - lo] == s@[i as int]);
                assert(x[i - lo + 1] == s@[i + 1]);
            }
        }
        i = i + 1;
    }
    proof {
        lemma_double_colon_is(x, hi - lo);
    }
    hi
}

/// Whether the bytes from `lo` up to `hi` are digits that write a value of
/// at most `max`.
pub fn decimal_within(s: &[u8], lo: usize, hi: usize, max: u64) -> (ok: bool)
    requires
        lo <= hi <= s.len(),
        max <= MAX_SCOPE,
    ensures
        ok == is_decimal_within(s@.subrange(lo as int, hi as int), max as nat),
{
    let ghost x = s@.subrange(lo as int, hi as int);
    if lo == hi {
        return false;
    }
    let mut acc: u64 = 0;
    let mut i: usize = lo;
    while i < hi
        invariant
            lo <= i <= hi <= s.len(),
            x == s@.subrange(lo as int, hi as int),
            all_digits(x.take(i - lo)),
            acc == decimal_value(x.take(i - lo)),
            acc <= max <= MAX_SCOPE,
        decreases hi - i,
    {
        let b: u8 = s[i];
        let ghost before = x.take(i - lo);
        let ghost after = x.take(i - lo + 1);
        proof {
            assert(x[i - lo] == b);
            assert(after.drop_last() =~= before);
            assert(after.last() == b);
        }
        if b < 48 || b > 57 {
            return false;
        }
        acc = acc * 10 + (b - 48) as u64;
        proof {
            assert(acc == decimal_value(after));
            assert forall|j: int| 0 <= j < after.len() implies is_digit(#[trigger] after[j]) by {
                if j < before.len() {
                    assert(after[j] == before[j]);
                }
            }
        }
        if acc > max {
            proof {
                lemma_decimal_prefix(x, i - lo + 1);
            }
            return false;
        }
        i = i + 1;
    }
    proof {
        assert(x.take(hi - lo) =~= x);
    }
    true
}

/// Whether the bytes from `lo` up to `hi` are one octet of an IPv4 literal.
pub fn octet_at(s: &[u8], lo: usize, hi: usize) -> (ok: bool)
    requires
        lo <= hi <= s.len(),
    ensures
        ok == is_octet(s@.subrange(lo as int, hi as int)),
{
    if hi - lo > 3 {
        return false;
    }
    if hi - lo > 1 && s[lo] == 48 {
        assert(s@.subrange(lo as int, hi as int)[0] == 48);
        return false;
    }
    proof {
        if hi - lo > 1 {
            assert(s@.subrange(lo as int, hi as int)[0] == s@[lo as int]);
        }
    }
    decimal_within(s, lo, hi, 255)
}

/// Whether the bytes from `lo` up to `hi` are one group of an IPv6 literal.
pub fn hex_group_at(s: &[u8], lo: usize, hi: usize) -> (ok: bool)
    requires
        lo <= hi <= s.len(),
    ensures
        ok == is_hex_group(s@.subrange(lo as int, hi as int)),
{
    let ghost x = s@.subrange(lo as int, hi as int);
    if hi == lo || hi - lo > 4 {
        return false;
    }
    let mut i: usize = lo;
    while i < hi
        invariant
            lo <= i <= hi <= s.len(),
            x == s@.subrange(lo as int, hi as int),
            forall|j: int| 0 <= j < i - lo ==> is_hex_digit(#[trigger] x[j]),
        decreases hi - i,
    {
        let b: u8 = s[i];
        let hex: bool = (48 <= b && b <= 57) || (65 <= b && b <= 70) || (97 <= b && b <= 102);
        if !hex {
            assert(x[i - lo] == b);
            return false;
        }
        i = i + 1;
    }
    true
}

/// How a text splits once the pieces before `start` are known: they are
/// followed by the pieces of what is left.
pub open spec fn splits_as(x: Seq<u8>, b: u8, done: Seq<Seq<u8>>, rest: Seq<u8>) -> bool {
    split(x, b) =~= done + split(rest, b)
}

/// Taking the next piece off what is left keeps the account of the pieces.
pub proof fn lemma_split_advance(x: Seq<u8>, b: u8, done: Seq<Seq<u8>>, rest: Seq<u8>)
    requires
        splits_as(x, b, done, rest),
        0 <= index_of(rest, b) < rest.len(),
    ensures
        splits_as(
            x,
            b,
            done.push(rest.take(index_of(rest, b))),
            rest.skip(index_of(rest, b) + 1),
        ),
{
    let i = index_of(rest, b);
    assert(split(rest, b) =~= seq![rest.take(i)] + split(rest.skip(i + 1), b));
    assert(done + (seq![rest.take(i)] + split(rest.skip(i + 1), b)) =~= done.push(rest.take(i))
        + split(rest.skip(i + 1), b));
}

/// Where no separator is left, what is left is the last piece.
pub proof fn lemma_split_finish(x: Seq<u8>, b: u8, done: Seq<Seq<u8>>, rest: Seq<u8>)
    requires
        splits_as(x, b, done, rest),
        index_of(rest, b) == rest.len(),
    ensures
        split(x, b) =~= done.push(rest),
{
    assert(split(rest, b) =~= seq![rest]);
    assert(done + seq![rest] =~= done.push(rest));
}

/// Whether the bytes from `lo` up to `hi` are an IPv4 literal.
pub fn ipv4_at(s: &[u8], lo: usize, hi: usize) -> (ok: bool)
    requires
        lo <= hi <= s.len(),
    ensures
        ok == is_ipv4(s@.subrange(lo as int, hi as int)),
{
    let ghost x = s@.subrange(lo as int, hi as int);
    let ghost mut done: Seq<Seq<u8>> = Seq::empty();
    let mut start: usize = lo;
    let mut count: usize = 0;
    proof {
        assert(done + split(x, DOT) =~= split(x, DOT));
    }
    loop
        invariant
            lo <= start <= hi <= s.len(),
            x == s@.subrange(lo as int, hi as int),
            splits_as(x, DOT, done, s@.subrange(start as int, hi as int)),
            done.len() == count,
            count <= 3,
            forall|i: int| 0 <= i < count ==> is_octet(#[trigger] done[i]),
        decreases hi - start,
    {
        let ghost rest = s@.subrange(start as int, hi as int);
        let end: usize = find(s, start, hi, DOT);
        let ghost piece = s@.subrange(start as int, end as int);
        let good: bool = octet_at(s, start, end);
        proof {
            assert(rest.take(end - start) =~= piece);
            lemma_split_nonempty(rest.skip(end - start + 1), DOT);
        }
        if end == hi {
            proof {
                lemma_split_finish(x, DOT, done, rest);
                assert(piece =~= rest);
                let pieces = split(x, DOT);
                assert(pieces.len() == count + 1);
                assert(pieces[count as int] == piece);
                if good && count == 3 {
                    assert forall|i: int| 0 <= i < 4 implies is_octet(#[trigger] pieces[i]) by {
                        if i < 3 {
                            assert(pieces[i] == done[i]);
                        }
                    }
                }
            }
            return good && count == 3;
        }
        proof {
            lemma_split_advance(x, DOT, done, rest);
            assert(rest.skip(end - start + 1) =~= s@.subrange(end + 1, hi as int));
            let pieces = split(x, DOT);
            assert(pieces.len() >= count + 2);
            assert(pieces[count as int] == piece);
            done = done.push(piece);
        }
        if !good || count == 3 {
            return false;
        }
        count = count + 1;
        start = end + 1;
    }
}

/// How many groups the colon-separated bytes from `lo` up to `hi` write,
/// where they are a list of groups of at most eight.
pub fn group_count_at(s: &[u8], lo: usize, hi: usize, v4_tail: bool) -> (n: Option<usize>)
    requires
        lo <= hi <= s.len(),
    ensures
        n == match group_count(s@.subrange(lo as int, hi as int), v4_tail) {
            Some(k) => if k <= 8 {
                Some(k as usize)
            } else {
                None
            },
            None => None,
        },
{
    let ghost x = s@.subrange(lo as int, hi as int);
    if lo == hi {
        return Some(0);
    }
    let ghost mut done: Seq<Seq<u8>> = Seq::empty();
    let mut start: usize = lo;
    let mut count: usize = 0;
    proof {
        assert(done + split(x, COLON) =~= split(x, COLON));
    }
    loop
        invariant
            lo < hi,
            lo <= start <= hi <= s.len(),
            x == s@.subrange(lo as int, hi as int),
            splits_as(x, COLON, done, s@.subrange(start as int, hi as int)),
            done.len() == count,
            count <= 8,
            hex_groups_before(done, count as int),
        decreases hi - start,
    {
        let ghost rest = s@.subrange(start as int, hi as int);
        let end: usize = find(s, start, hi, COLON);
        let ghost piece = s@.subrange(start as int, end as int);
        let hex: bool = hex_group_at(s, start, end);
        proof {
            assert(rest.take(end - start) =~= piece);
            lemma_split_nonempty(rest.skip(end - start + 1), COLON);
        }
        if end == hi {
            let dotted: bool = !hex && v4_tail && ipv4_at(s, start, end);
            proof {
                lemma_split_finish(x, COLON, done, rest);
                assert(piece =~= rest);
                let pieces = split(x, COLON);
                assert(pieces.len() == count + 1);
                assert(pieces.last() == piece);
                assert forall|i: int| 0 <= i < count implies is_hex_group(#[trigger] pieces[i]) by {
                    assert(pieces[i] == done[i]);
                }
                if !hex {
                    assert(!is_hex_group(pieces[count as int]));
                }
            }
            if hex {
                return if count + 1 <= 8 {
                    Some(count + 1)
                } else {
                    None
                };
            }
            if dotted {
                return if count + 2 <= 8 {
                    Some(count + 2)
                } else {
                    None
                };
            }
            return None;
        }
        proof {
            lemma_split_advance(x, COLON, done, rest);
            assert(rest.skip(end - start + 1) =~= s@.subrange(end + 1, hi as int));
            let pieces = split(x, COLON);
            assert(pieces.len() >= count + 2);
            assert(pieces[count as int] == piece);
            done = done.push(piece);
        }
        if !hex {
            proof {
                assert(!is_hex_group(split(x, COLON)[count as int]));
            }
            return None;
        }
        if count == 8 {
            return None;
        }
        count = count + 1;
        start = end + 1;
    }
}

/// Whether the bytes from `lo` up to `hi` are an IPv6 literal.
pub fn ipv6_at(s: &[u8], lo: usize, hi: usize) -> (ok: bool)
    requires
        lo <= hi <= s.len(),
    ensures
        ok == is_ipv6(s@.subrange(lo as int, hi as int)),
{
    let ghost x = s@.subrange(lo as int, hi as int);
    let p: usize = find_double_colon(s, lo, hi);
    if hi - p >= 2 {
        proof {
            assert(x.take(p - lo) =~= s@.subrange(lo as int, p as int));
            assert(x.skip(p - lo + 2) =~= s@.subrange(p + 2, hi as int));
        }
        match (group_count_at(s, lo, p, false), group_count_at(s, p + 2, hi, true)) {
            (Some(head), Some(tail)) => head + tail <= 7,
            _ => false,
        }
    } else {
        match group_count_at(s, lo, hi, true) {
            Some(n) => n == 8,
            None => false,
        }
    }
}

/// Whether the bytes from `lo` up to `hi` are an IPv6 literal with an
/// optional scope.
pub fn scoped_ipv6_at(s: &[u8], lo: usize, hi: usize) -> (ok: bool)
    requires
        lo <= hi <= s.len(),
    ensures
        ok == is_scoped_ipv6(s@.subrange(lo as int, hi as int)),
{
    let ghost x = s@.subrange(lo as int, hi as int);
    let k: usize = find(s, lo, hi, PERCENT);
    if k < hi {
        proof {
            assert(x.take(k - lo) =~= s@.subrange(lo as int, k as int));
            assert(x.skip(k - lo + 1) =~= s@.subrange(k + 1, hi as int));
        }
        ipv6_at(s, lo, k) && decimal_within(s, k + 1, hi, MAX_SCOPE)
    } else {
        ipv6_at(s, lo, hi)
    }
}

/// Whether the bytes are an IPv4 socket address.
pub fn socket_addr_v4(s: &[u8]) -> (ok: bool)
    ensures
        ok == is_socket_addr_v4(s@),
{
    let n: usize = s.len();
    let c: usize = find(s, 0, n, COLON);
    proof {
        assert(s@.subrange(0, n as int) =~= s@);
    }
    if c < n {
        proof {
            assert(s@.take(c as int) =~= s@.subrange(0, c as int));
            assert(s@.skip(c + 1) =~= s@.subrange(c + 1, n as int));
        }
        ipv4_at(s, 0, c) && decimal_within(s, c + 1, n, MAX_PORT)
    } else {
        false
    }
}

/// Whether the bytes are an IPv6 socket address.
pub fn socket_addr_v6(s: &[u8]) -> (ok: bool)
    ensures
        ok == is_socket_addr_v6(s@),
{
    let n: usize = s.len();
    if n == 0 || s[0] != OPEN_BRACKET {
        return false;
    }
    let q: usize = find(s, 0, n, CLOSE_BRACKET);
    proof {
        assert(s@.subrange(0, n as int) =~= s@);
    }
    if q == 0 || n - q < 2 || s[q + 1] != COLON {
        return false;
    }
    proof {
        assert(s@.skip(q + 2) =~= s@.subrange(q + 2, n as int));
    }
    scoped_ipv6_at(s, 1, q) && decimal_within(s, q + 2, n, MAX_PORT)
}

/// Whether `address` is a socket address: an IP literal of either family
/// followed by a port.
pub fn is_socket_address(address: &str) -> (ok: bool)
    ensures
        ok == is_socket_addr(bytes_of(address@)),
{
    let bytes = address.as_bytes();
    socket_addr_v4(bytes) || socket_addr_v6(bytes)
}

} // verus!
