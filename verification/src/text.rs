//! Character-level helpers shared by the matching engine.
//!
//! Strings are modelled by their sequence of characters. Searching is done on
//! `Vec<char>` copies so that every index is a character index.

use vstd::prelude::*;
use vstd::std_specs::iter::IteratorSpec;
use vstd::string::*;
use crate::outside::{char_is_whitespace, is_space};

verus! {

/// The characters of `s`, in order.
pub fn to_chars(s: &str) -> (v: Vec<char>)
    ensures
        v@ == s@,
{
    broadcast use vstd::string::group_string_axioms;

    let mut it = s.chars();
    let mut v: Vec<char> = Vec::new();
    loop
        invariant
            it.obeys_prophetic_iter_laws(),
            it.decrease() is Some,
            v@ + it.remaining() == s@,
        ensures
            v@ == s@,
        decreases it.decrease()->0,
    {
        let ghost before = it.remaining();
        let ghost seen = v@;
        match it.next() {
            Some(c) => {
                v.push(c);
                assert(v@ + it.remaining() =~= seen + before);
            },
            None => {
                assert(seen + before =~= seen);
                break;
            },
        }
    }
    v
}

/// The string made of the characters `v[from..to]`.
pub fn from_chars(v: &Vec<char>, from: usize, to: usize) -> (s: String)
    requires
        from <= to <= v@.len(),
    ensures
        s@ == v@.subrange(from as int, to as int),
{
    let mut s = String::new();
    let mut i: usize = from;
    while i < to
        invariant
            from <= i <= to,
            to <= v@.len(),
            s@ == v@.subrange(from as int, i as int),
        decreases to - i,
    {
        s.push(v[i]);
        i += 1;
        assert(s@ =~= v@.subrange(from as int, i as int));
    }
    s
}

/// Whether two strings hold the same characters.
pub fn same_text(a: &str, b: &str) -> (r: bool)
    ensures
        r == (a@ == b@),
{
    let x = a.to_owned();
    let y = b.to_owned();
    x == y
}

/// `needle` stands in `hay` at character index `i`.
pub open spec fn occurs_at(hay: Seq<char>, needle: Seq<char>, i: int) -> bool {
    &&& 0 <= i
    &&& i + needle.len() <= hay.len()
    &&& hay.subrange(i, i + needle.len()) == needle
}

/// `needle` stands somewhere in `hay`.
pub open spec fn contains_seq(hay: Seq<char>, needle: Seq<char>) -> bool {
    exists|i: int| occurs_at(hay, needle, i)
}

/// `i` is the first index at or after `from` at which `needle` stands in `hay`.
pub open spec fn first_at(hay: Seq<char>, needle: Seq<char>, from: int, i: int) -> bool {
    &&& from <= i
    &&& occurs_at(hay, needle, i)
    &&& forall|j: int| from <= j < i ==> !occurs_at(hay, needle, j)
}

/// `s` begins with `p`.
pub open spec fn has_prefix(s: Seq<char>, p: Seq<char>) -> bool {
    occurs_at(s, p, 0)
}

/// `s` ends with `p`.
pub open spec fn has_suffix(s: Seq<char>, p: Seq<char>) -> bool {
    occurs_at(s, p, s.len() - p.len())
}

/// Whether `needle` stands in `hay` at index `i`.
pub fn matches_at(hay: &Vec<char>, needle: &Vec<char>, i: usize) -> (r: bool)
    ensures
        r == occurs_at(hay@, needle@, i as int),
{
    let n: usize = needle.len();
    if i > hay.len() || n > hay.len() - i {
        return false;
    }
    let mut k: usize = 0;
    while k < n
        invariant
            k <= n,
            n == needle@.len(),
            i + n <= hay@.len() <= usize::MAX,
            forall|j: int| 0 <= j < k ==> hay@[i + j] == needle@[j],
        decreases n - k,
    {
        if hay[i + k] != needle[k] {
            proof {
                assert(hay@.subrange(i as int, i + n)[k as int] == hay@[i + k]);
            }
            return false;
        }
        k += 1;
    }
    assert(hay@.subrange(i as int, i + n) =~= needle@);
    true
}

/// The first index at or after `from` at which `needle` stands in `hay`.
pub fn find_from(hay: &Vec<char>, needle: &Vec<char>, from: usize) -> (r: Option<usize>)
    ensures
        match r {
            Some(i) => first_at(hay@, needle@, from as int, i as int),
            None => forall|j: int| from <= j ==> !occurs_at(hay@, needle@, j),
        },
{
    if from > hay.len() {
        return None;
    }
    let mut i: usize = from;
    while i < hay.len()
        invariant
            from <= i <= hay@.len(),
            forall|j: int| from <= j < i ==> !occurs_at(hay@, needle@, j),
        decreases hay@.len() - i,
    {
        if matches_at(hay, needle, i) {
            return Some(i);
        }
        i += 1;
    }
    if matches_at(hay, needle, i) {
        return Some(i);
    }
    None
}

/// Whether `needle` stands somewhere in `hay`.
pub fn contains_chars(hay: &Vec<char>, needle: &Vec<char>) -> (r: bool)
    ensures
        r == contains_seq(hay@, needle@),
{
    find_from(hay, needle, 0).is_some()
}

/// Whether `needle` stands somewhere in `hay`.
pub fn contains_text(hay: &str, needle: &str) -> (r: bool)
    ensures
        r == contains_seq(hay@, needle@),
{
    let h = to_chars(hay);
    let n = to_chars(needle);
    contains_chars(&h, &n)
}

/// Whether `s` begins with `p`.
pub fn starts_with(s: &str, p: &str) -> (r: bool)
    ensures
        r == has_prefix(s@, p@),
{
    let h = to_chars(s);
    let n = to_chars(p);
    matches_at(&h, &n, 0)
}

/// Whether `s` ends with `p`.
pub fn ends_with(s: &str, p: &str) -> (r: bool)
    ensures
        r == has_suffix(s@, p@),
{
    let h = to_chars(s);
    let n = to_chars(p);
    if n.len() > h.len() {
        return false;
    }
    matches_at(&h, &n, h.len() - n.len())
}


/// The index of the first occurrence of `needle` in `hay`.
pub open spec fn find_first(hay: Seq<char>, needle: Seq<char>) -> Option<int> {
    if exists|i: int| first_at(hay, needle, 0, i) {
        Some(choose|i: int| first_at(hay, needle, 0, i))
    } else {
        None
    }
}

/// A first occurrence is the first occurrence.
pub proof fn lemma_find_first(hay: Seq<char>, needle: Seq<char>, i: int)
    requires
        first_at(hay, needle, 0, i),
    ensures
        find_first(hay, needle) == Some(i),
{
    let j = choose|j: int| first_at(hay, needle, 0, j);
    if j < i {
        assert(!occurs_at(hay, needle, j));
    }
    if i < j {
        assert(!occurs_at(hay, needle, i));
    }
}

/// The index of the first occurrence of `needle` in `hay`.
pub fn find_chars(hay: &Vec<char>, needle: &Vec<char>) -> (r: Option<usize>)
    ensures
        match r {
            Some(i) => find_first(hay@, needle@) == Some(i as int),
            None => find_first(hay@, needle@) is None,
        },
{
    let r = find_from(hay, needle, 0);
    proof {
        match r {
            Some(i) => {
                lemma_find_first(hay@, needle@, i as int);
            },
            None => {
                assert forall|i: int| !first_at(hay@, needle@, 0, i) by {
                    if first_at(hay@, needle@, 0, i) {
                        assert(occurs_at(hay@, needle@, i));
                    }
                }
            },
        }
    }
    r
}

/// The first index at or after `i` that holds no whitespace, or the length.
pub open spec fn trim_start(s: Seq<char>, i: int) -> int
    decreases s.len() - i,
{
    if i < 0 || i >= s.len() {
        s.len() as int
    } else if !is_space(s[i]) {
        i
    } else {
        trim_start(s, i + 1)
    }
}

/// The end of the text before the whitespace that ends at `j`, not going below
/// `lo`.
pub open spec fn trim_end(s: Seq<char>, lo: int, j: int) -> int
    decreases j,
{
    if j <= lo || j > s.len() || lo < 0 {
        lo
    } else if !is_space(s[j - 1]) {
        j
    } else {
        trim_end(s, lo, j - 1)
    }
}

/// `s` without the whitespace at its ends.
pub open spec fn trimmed(s: Seq<char>) -> Seq<char> {
    let a = trim_start(s, 0);
    s.subrange(a, trim_end(s, a, s.len() as int))
}

/// The bounds of `v[from..to]` without the whitespace at its ends.
pub fn trim_bounds(v: &Vec<char>, from: usize, to: usize) -> (r: (usize, usize))
    requires
        from <= to <= v@.len(),
    ensures
        from <= r.0 <= r.1 <= to,
        v@.subrange(r.0 as int, r.1 as int) == trimmed(v@.subrange(from as int, to as int)),
{
    let ghost s = v@.subrange(from as int, to as int);
    let mut a: usize = from;
    while a < to && char_is_whitespace(v[a])
        invariant
            from <= a <= to,
            to <= v@.len(),
            s == v@.subrange(from as int, to as int),
            trim_start(s, 0) == trim_start(s, a - from),
        decreases to - a,
    {
        assert(s[a - from] == v@[a as int]);
        a += 1;
    }
    proof {
        if a < to {
            assert(s[a - from] == v@[a as int]);
        }
    }
    let mut b: usize = to;
    while b > a && char_is_whitespace(v[b - 1])
        invariant
            from <= a <= b <= to,
            to <= v@.len(),
            s == v@.subrange(from as int, to as int),
            trim_end(s, a - from, s.len() as int) == trim_end(s, a - from, b - from),
        decreases b,
    {
        assert(s[b - from - 1] == v@[b - 1]);
        b -= 1;
    }
    proof {
        if b > a {
            assert(s[b - from - 1] == v@[b - 1]);
        }
        assert(s.subrange(a - from, b - from) =~= v@.subrange(a as int, b as int));
    }
    (a, b)
}


/// A first occurrence lies within the text.
pub proof fn lemma_find_bounds(hay: Seq<char>, needle: Seq<char>, i: int)
    requires
        find_first(hay, needle) == Some(i),
    ensures
        0 <= i <= hay.len(),
        first_at(hay, needle, 0, i),
{
}

/// Whether `s` ends with `p`.
pub fn ends_with_chars(s: &Vec<char>, p: &Vec<char>) -> (r: bool)
    ensures
        r == has_suffix(s@, p@),
{
    if p.len() > s.len() {
        return false;
    }
    matches_at(s, p, s.len() - p.len())
}


/// The first index at or after `from` at which `sep` stands in `s`.
pub open spec fn next_at(s: Seq<char>, sep: Seq<char>, from: int) -> Option<int> {
    if exists|i: int| first_at(s, sep, from, i) {
        Some(choose|i: int| first_at(s, sep, from, i))
    } else {
        None
    }
}

/// A first occurrence at or after `from` is the one `next_at` names.
pub proof fn lemma_next_at(s: Seq<char>, sep: Seq<char>, from: int, i: int)
    requires
        first_at(s, sep, from, i),
    ensures
        next_at(s, sep, from) == Some(i),
{
    let j = choose|j: int| first_at(s, sep, from, j);
    if j < i {
        assert(!occurs_at(s, sep, j));
    }
    if i < j {
        assert(!occurs_at(s, sep, i));
    }
}

/// The first index at or after `from` at which `sep` stands in `v`.
pub fn find_next(v: &Vec<char>, sep: &Vec<char>, from: usize) -> (r: Option<usize>)
    ensures
        match r {
            Some(i) => next_at(v@, sep@, from as int) == Some(i as int) && from <= i && i
                + sep@.len() <= v@.len(),
            None => next_at(v@, sep@, from as int) is None,
        },
{
    let r = find_from(v, sep, from);
    proof {
        match r {
            Some(i) => {
                lemma_next_at(v@, sep@, from as int, i as int);
            },
            None => {
                assert forall|i: int| !first_at(v@, sep@, from as int, i) by {
                    if first_at(v@, sep@, from as int, i) {
                        assert(occurs_at(v@, sep@, i));
                    }
                }
            },
        }
    }
    r
}

/// A copy of `v[from..to]`.
pub fn slice_chars(v: &Vec<char>, from: usize, to: usize) -> (r: Vec<char>)
    requires
        from <= to <= v@.len(),
    ensures
        r@ == v@.subrange(from as int, to as int),
{
    let mut out: Vec<char> = Vec::new();
    let mut i: usize = from;
    while i < to
        invariant
            from <= i <= to,
            to <= v@.len(),
            out@ == v@.subrange(from as int, i as int),
        decreases to - i,
    {
        out.push(v[i]);
        i += 1;
        assert(out@ =~= v@.subrange(from as int, i as int));
    }
    out
}

/// The character of a decimal digit.
pub open spec fn digit(d: nat) -> char {
    if d == 0 {
        '0'
    } else if d == 1 {
        '1'
    } else if d == 2 {
        '2'
    } else if d == 3 {
        '3'
    } else if d == 4 {
        '4'
    } else if d == 5 {
        '5'
    } else if d == 6 {
        '6'
    } else if d == 7 {
        '7'
    } else if d == 8 {
        '8'
    } else {
        '9'
    }
}

/// The decimal digits of a number, most significant first.
pub open spec fn decimal(n: nat) -> Seq<char>
    decreases n,
{
    if n < 10 {
        seq![digit(n)]
    } else {
        decimal(n / 10).push(digit(n % 10))
    }
}

/// A number written with at least two digits, padded with a zero.
pub open spec fn two_digits(n: nat) -> Seq<char> {
    if n < 10 {
        seq!['0', digit(n)]
    } else {
        decimal(n)
    }
}

fn digit_char(d: u64) -> (c: char)
    requires
        d < 10,
    ensures
        c == digit(d as nat),
{
    if d == 0 {
        '0'
    } else if d == 1 {
        '1'
    } else if d == 2 {
        '2'
    } else if d == 3 {
        '3'
    } else if d == 4 {
        '4'
    } else if d == 5 {
        '5'
    } else if d == 6 {
        '6'
    } else if d == 7 {
        '7'
    } else if d == 8 {
        '8'
    } else {
        '9'
    }
}

/// Appends the decimal digits of `n`.
pub fn push_decimal(out: &mut String, n: u64)
    ensures
        final(out)@ == old(out)@ + decimal(n as nat),
    decreases n,
{
    if n < 10 {
        out.push(digit_char(n));
        assert(final(out)@ =~= old(out)@ + decimal(n as nat));
    } else {
        push_decimal(out, n / 10);
        out.push(digit_char(n % 10));
        assert(out@ =~= old(out)@ + decimal(n as nat));
    }
}

/// Appends `n` with at least two digits.
pub fn push_two_digits(out: &mut String, n: u32)
    ensures
        final(out)@ == old(out)@ + two_digits(n as nat),
{
    if n < 10 {
        out.push('0');
        out.push(digit_char(n as u64));
        assert(out@ =~= old(out)@ + two_digits(n as nat));
    } else {
        push_decimal(out, n as u64);
    }
}

/// The value of a decimal digit.
pub open spec fn digit_value(c: char) -> Option<nat> {
    if '0' <= c <= '9' {
        Some((c as u32 - '0' as u32) as nat)
    } else {
        None
    }
}

/// Every character is a decimal digit.
pub open spec fn all_digits(s: Seq<char>) -> bool {
    forall|i: int| 0 <= i < s.len() ==> digit_value(#[trigger] s[i]) is Some
}

/// The number that a run of decimal digits denotes.
pub open spec fn digits_value(s: Seq<char>) -> nat
    decreases s.len(),
{
    if s.len() == 0 {
        0
    } else {
        digits_value(s.drop_last()) * 10 + match digit_value(s.last()) {
            Some(d) => d,
            None => 0,
        }
    }
}

/// A number's text without the plus sign that may lead it.
pub open spec fn unsigned_part(s: Seq<char>) -> Seq<char> {
    if s.len() > 0 && s[0] == '+' {
        s.drop_first()
    } else {
        s
    }
}

/// The number that a text denotes when read as an unsigned decimal of at most
/// `max`: an optional `+`, then one or more digits and nothing else.
pub open spec fn decimal_value(s: Seq<char>, max: nat) -> Option<nat> {
    let body = unsigned_part(s);
    if body.len() > 0 && all_digits(body) && digits_value(body) <= max {
        Some(digits_value(body))
    } else {
        None
    }
}

/// The `u64` that a text denotes.
pub open spec fn decimal_u64(s: Seq<char>) -> Option<u64> {
    match decimal_value(s, u64::MAX as nat) {
        Some(v) => Some(v as u64),
        None => None,
    }
}

/// The `u32` that a text denotes.
pub open spec fn decimal_u32(s: Seq<char>) -> Option<u32> {
    match decimal_value(s, u32::MAX as nat) {
        Some(v) => Some(v as u32),
        None => None,
    }
}

/// The `u16` that a text denotes.
pub open spec fn decimal_u16(s: Seq<char>) -> Option<u16> {
    match decimal_value(s, u16::MAX as nat) {
        Some(v) => Some(v as u16),
        None => None,
    }
}

proof fn lemma_digits_grow(s: Seq<char>, i: int)
    requires
        0 <= i <= s.len(),
    ensures
        digits_value(s.take(i)) <= digits_value(s),
    decreases s.len() - i,
{
    if i < s.len() {
        lemma_digits_grow(s, i + 1);
        assert(s.take(i + 1).drop_last() =~= s.take(i));
    } else {
        assert(s.take(i) =~= s);
    }
}

/// Reads an unsigned decimal of at most `max`.
pub fn parse_decimal(s: &str, max: u64) -> (r: Option<u64>)
    ensures
        match r {
            Some(v) => decimal_value(s@, max as nat) == Some(v as nat),
            None => decimal_value(s@, max as nat) is None,
        },
{
    let v = to_chars(s);
    let start: usize = if v.len() > 0 && v[0] == '+' {
        1
    } else {
        0
    };
    let ghost body = unsigned_part(v@);
    assert(body =~= v@.subrange(start as int, v@.len() as int));
    if start == v.len() {
        return None;
    }
    let mut acc: u64 = 0;
    let mut i: usize = start;
    while i < v.len()
        invariant
            start <= i <= v@.len(),
            body == v@.subrange(start as int, v@.len() as int),
            body == unsigned_part(s@),
            all_digits(body.take(i - start)),
            acc as nat == digits_value(body.take(i - start)),
            acc <= max,
        decreases v@.len() - i,
    {
        let c = v[i];
        let ghost prev = body.take(i - start);
        let ghost next = body.take(i - start + 1);
        proof {
            assert(next.drop_last() =~= prev);
            assert(next.last() == c);
            assert(body[i - start] == c);
        }
        if !(c >= '0' && c <= '9') {
            assert(digit_value(body[i - start]) is None);
            return None;
        }
        let d: u64 = (c as u32 - '0' as u32) as u64;
        if d > max || acc > (max - d) / 10 {
            proof {
                assert(digits_value(next) == acc * 10 + d);
                assert(acc * 10 + d > max) by (nonlinear_arith)
                    requires
                        d > max || acc > (max - d) / 10,
                        0 <= d,
                        0 <= acc,
                ;
                lemma_digits_grow(body, i - start + 1);
            }
            return None;
        }
        assert(acc * 10 + d <= max) by (nonlinear_arith)
            requires
                acc <= (max - d) / 10,
                d <= max,
        ;
        acc = acc * 10 + d;
        proof {
            assert forall|j: int| 0 <= j < next.len() implies digit_value(#[trigger] next[j])
                is Some by {
                if j < prev.len() {
                    assert(prev[j] == next[j]);
                }
            }
        }
        i += 1;
    }
    assert(body.take(body.len() as int) =~= body);
    Some(acc)
}

/// Reads a `u64`.
pub fn parse_u64(s: &str) -> (r: Option<u64>)
    ensures
        r == decimal_u64(s@),
{
    parse_decimal(s, u64::MAX)
}

/// Reads a `u32`.
pub fn parse_u32(s: &str) -> (r: Option<u32>)
    ensures
        r == decimal_u32(s@),
{
    match parse_decimal(s, 4294967295) {
        Some(v) => Some(v as u32),
        None => None,
    }
}

/// Reads a `u16`.
pub fn parse_u16(s: &str) -> (r: Option<u16>)
    ensures
        r == decimal_u16(s@),
{
    match parse_decimal(s, 65535) {
        Some(v) => Some(v as u16),
        None => None,
    }
}

/// `s` from `start` on, with every occurrence of `from` replaced by `to`;
/// occurrences are taken from left to right and do not overlap. An empty
/// `from` stands before every character and at the end.
pub open spec fn replaced_from(s: Seq<char>, from: Seq<char>, to: Seq<char>, start: int) -> Seq<
    char,
>
    decreases s.len() - start,
{
    if start < 0 || start > s.len() {
        Seq::empty()
    } else if from.len() == 0 {
        if start < s.len() {
            to + seq![s[start]] + replaced_from(s, from, to, start + 1)
        } else {
            to
        }
    } else {
        match next_at(s, from, start) {
            Some(p) => if start <= p && p + from.len() <= s.len() {
                s.subrange(start, p) + to + replaced_from(s, from, to, p + from.len())
            } else {
                Seq::empty()
            },
            None => s.subrange(start, s.len() as int),
        }
    }
}

/// `s` with every occurrence of `from` replaced by `to`.
pub open spec fn replaced(s: Seq<char>, from: Seq<char>, to: Seq<char>) -> Seq<char> {
    replaced_from(s, from, to, 0)
}

/// Replaces every occurrence of `from` in `s` by `to`.
pub fn replace_all(s: &str, from: &str, to: &str) -> (r: String)
    ensures
        r@ == replaced(s@, from@, to@),
{
    let v = to_chars(s);
    let pattern = to_chars(from);
    let total: usize = v.len();
    let mut out = String::new();
    let mut start: usize = 0;
    assert(out@ + replaced_from(v@, pattern@, to@, 0) =~= replaced(s@, from@, to@));
    if pattern.len() == 0 {
        while start < total
            invariant
                start <= total == v@.len(),
                pattern@.len() == 0,
                v@ == s@,
                pattern@ == from@,
                out@ + replaced_from(v@, pattern@, to@, start as int) == replaced(s@, from@, to@),
            decreases total - start,
        {
            let ghost before = out@;
            out.append(to);
            out.push(v[start]);
            assert(out@ + replaced_from(v@, pattern@, to@, start + 1) =~= before + replaced_from(
                v@,
                pattern@,
                to@,
                start as int,
            ));
            start += 1;
        }
        out.append(to);
        return out;
    }
    loop
        invariant_except_break
            out@ + replaced_from(v@, pattern@, to@, start as int) == replaced(s@, from@, to@),
        invariant
            start <= total == v@.len(),
            pattern@.len() > 0,
            v@ == s@,
            pattern@ == from@,
        ensures
            out@ == replaced(s@, from@, to@),
        decreases total - start,
    {
        let ghost before = out@;
        match find_next(&v, &pattern, start) {
            Some(p) => {
                let piece = from_chars(&v, start, p);
                out.append(piece.as_str());
                out.append(to);
                assert(out@ + replaced_from(v@, pattern@, to@, p + pattern@.len())
                    =~= before + replaced_from(v@, pattern@, to@, start as int));
                start = p + pattern.len();
            },
            None => {
                let piece = from_chars(&v, start, total);
                out.append(piece.as_str());
                break;
            },
        }
    }
    out
}

} // verus!
