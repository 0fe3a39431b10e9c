//! The filter evaluator: one item against an interest's filters.

use vstd::prelude::*;
use vstd::string::*;
use crate::models::{FeedFilter, FilterLogic, FilterType, ParsedFeedItem};
use crate::outside::{lowercase_of, regex_is_match, regex_search, to_lowercase};
use crate::text::{contains_chars, contains_seq, decimal_u64, from_chars, parse_u64, to_chars};

verus! {

/// The regex text that one wildcard character turns into: `*` matches any run,
/// `?` any single character, and regex metacharacters are escaped.
pub open spec fn wildcard_piece(c: char) -> Seq<char> {
    if c == '*' {
        seq!['.', '*']
    } else if c == '?' {
        seq!['.']
    } else if c == '.' || c == '+' || c == '^' || c == '$' || c == '(' || c == ')' || c == '['
        || c == ']' || c == '{' || c == '}' || c == '|' || c == '\\' {
        seq!['\\', c]
    } else {
        seq![c]
    }
}

/// The regex text of a whole wildcard pattern: the pieces of its characters in
/// order.
pub open spec fn wildcard_regex(p: Seq<char>) -> Seq<char>
    decreases p.len(),
{
    if p.len() == 0 {
        Seq::empty()
    } else {
        wildcard_regex(p.drop_last()) + wildcard_piece(p.last())
    }
}

/// Translates a wildcard pattern into regex text.
pub fn wildcard_to_regex(pattern: &str) -> (r: String)
    ensures
        r@ == wildcard_regex(pattern@),
{
    let p = to_chars(pattern);
    let mut out = String::new();
    let mut i: usize = 0;
    while i < p.len()
        invariant
            i <= p@.len(),
            out@ == wildcard_regex(p@.take(i as int)),
        decreases p@.len() - i,
    {
        let c = p[i];
        let ghost before = out@;
        if c == '*' {
            out.push('.');
            out.push('*');
        } else if c == '?' {
            out.push('.');
        } else if c == '.' || c == '+' || c == '^' || c == '$' || c == '(' || c == ')' || c == '['
            || c == ']' || c == '{' || c == '}' || c == '|' || c == '\\' {
            out.push('\\');
            out.push(c);
        } else {
            out.push(c);
        }
        i += 1;
        proof {
            assert(p@.take(i as int).drop_last() =~= p@.take(i - 1));
            assert(p@.take(i as int).last() == c);
            assert(out@ =~= before + wildcard_piece(c));
        }
    }
    assert(p@.take(p@.len() as int) =~= p@);
    out
}

/// The number of `-` characters in `s`.
pub open spec fn dash_count(s: Seq<char>) -> nat
    decreases s.len(),
{
    if s.len() == 0 {
        0
    } else {
        dash_count(s.drop_last()) + if s.last() == '-' {
            1nat
        } else {
            0nat
        }
    }
}

/// Whether a size in bytes lies within the inclusive megabyte bounds; a bound
/// that could not be read is open.
pub open spec fn within_bounds(size: u64, min_mb: Option<u64>, max_mb: Option<u64>) -> bool {
    let mb = size / 1048576;
    let lo = match min_mb {
        Some(v) => v,
        None => 0,
    };
    let hi = match max_mb {
        Some(v) => v,
        None => u64::MAX,
    };
    lo <= mb && mb <= hi
}

/// Whether a size passes a `"min-max"` range given in megabytes. An unknown
/// size passes, and so does every size when the value is not two parts around a
/// single dash.
pub open spec fn size_passes(size: Option<u64>, value: Seq<char>) -> bool {
    match size {
        None => true,
        Some(bytes) => dash_count(value) == 1 ==> exists|d: int|
            0 <= d < value.len() && value[d] == '-' && within_bounds(
                bytes,
                decimal_u64(value.subrange(0, d)),
                decimal_u64(value.subrange(d + 1, value.len() as int)),
            ),
    }
}

/// Decides a size against bounds that have already been read.
pub fn size_within(size: u64, min_mb: Option<u64>, max_mb: Option<u64>) -> (r: bool)
    ensures
        r == within_bounds(size, min_mb, max_mb),
{
    let mb: u64 = size / 1048576;
    let lo: u64 = match min_mb {
        Some(v) => v,
        None => 0,
    };
    let hi: u64 = match max_mb {
        Some(v) => v,
        None => u64::MAX,
    };
    lo <= mb && mb <= hi
}

proof fn lemma_dash_count_take(s: Seq<char>, i: int)
    requires
        0 <= i < s.len(),
    ensures
        dash_count(s.take(i + 1)) == dash_count(s.take(i)) + if s[i] == '-' {
            1nat
        } else {
            0nat
        },
{
    assert(s.take(i + 1).drop_last() =~= s.take(i));
}

proof fn lemma_dash_count_zero(s: Seq<char>, d: int)
    requires
        0 <= d < s.len(),
        s[d] == '-',
    ensures
        dash_count(s) >= 1,
    decreases s.len(),
{
    if d == s.len() - 1 {
    } else {
        lemma_dash_count_zero(s.drop_last(), d);
    }
}

proof fn lemma_single_dash(s: Seq<char>, d: int, e: int)
    requires
        0 <= d < s.len(),
        0 <= e < s.len(),
        s[d] == '-',
        s[e] == '-',
        dash_count(s) == 1,
    ensures
        d == e,
    decreases s.len(),
{
    if s.last() == '-' {
        if d < s.len() - 1 {
            lemma_dash_count_zero(s.drop_last(), d);
        }
        if e < s.len() - 1 {
            lemma_dash_count_zero(s.drop_last(), e);
        }
    } else {
        lemma_single_dash(s.drop_last(), d, e);
    }
}

/// Evaluates a size-range filter value against an item's size.
pub fn size_in_range(size: Option<u64>, value: &str) -> (r: bool)
    ensures
        r == size_passes(size, value@),
{
    let bytes = match size {
        None => {
            return true;
        },
        Some(b) => b,
    };
    let v = to_chars(value);
    let mut count: usize = 0;
    let mut at: usize = 0;
    let mut i: usize = 0;
    while i < v.len()
        invariant
            i <= v@.len(),
            count <= i,
            count as nat == dash_count(v@.take(i as int)),
            count >= 1 ==> at < i && v@[at as int] == '-',
        decreases v@.len() - i,
    {
        proof {
            lemma_dash_count_take(v@, i as int);
        }
        if v[i] == '-' {
            count += 1;
            at = i;
        }
        i += 1;
    }
    assert(v@.take(v@.len() as int) =~= v@);
    if count != 1 {
        return true;
    }
    let left = from_chars(&v, 0, at);
    let right = from_chars(&v, at + 1, v.len());
    let lo = parse_u64(left.as_str());
    let hi = parse_u64(right.as_str());
    let r = size_within(bytes, lo, hi);
    proof {
        let ghost d0 = at as int;
        assert forall|d: int| 0 <= d < v@.len() && v@[d] == '-' implies d == d0 by {
            lemma_single_dash(v@, d, d0);
        }
    }
    r
}

/// Whether one filter accepts an item with the given title and size.
pub open spec fn filter_passes(title: Seq<char>, size: Option<u64>, f: FeedFilter) -> bool {
    match f.filter_type {
        FilterType::MustContain => contains_seq(lowercase_of(title), lowercase_of(f.value@)),
        FilterType::MustNotContain => !contains_seq(lowercase_of(title), lowercase_of(f.value@)),
        FilterType::Regex => regex_search(f.value@, title) == Some(true),
        FilterType::Wildcard => regex_search(
            "(?i)"@ + wildcard_regex(lowercase_of(f.value@)),
            title,
        ) == Some(true),
        FilterType::SizeRange => size_passes(size, f.value@),
    }
}

/// Evaluates a single filter against a feed item. A pattern that does not
/// compile never matches.
pub fn evaluate_single_filter(item: &ParsedFeedItem, filter: &FeedFilter) -> (r: bool)
    ensures
        r == filter_passes(item.title@, item.size, *filter),
{
    match filter.filter_type {
        FilterType::MustContain => {
            let t = to_chars(to_lowercase(item.title.as_str()).as_str());
            let p = to_chars(to_lowercase(filter.value.as_str()).as_str());
            contains_chars(&t, &p)
        },
        FilterType::MustNotContain => {
            let t = to_chars(to_lowercase(item.title.as_str()).as_str());
            let p = to_chars(to_lowercase(filter.value.as_str()).as_str());
            !contains_chars(&t, &p)
        },
        FilterType::Regex => {
            match regex_is_match(filter.value.as_str(), item.title.as_str()) {
                Some(b) => b,
                None => false,
            }
        },
        FilterType::Wildcard => {
            let body = wildcard_to_regex(to_lowercase(filter.value.as_str()).as_str());
            let mut pattern = String::from_str("(?i)");
            pattern.append(body.as_str());
            match regex_is_match(pattern.as_str(), item.title.as_str()) {
                Some(b) => b,
                None => false,
            }
        },
        FilterType::SizeRange => size_in_range(item.size, filter.value.as_str()),
    }
}

/// The clause that describes a satisfied filter.
pub open spec fn clause(f: FeedFilter) -> Seq<char> {
    match f.filter_type {
        FilterType::MustContain => "contains \""@ + f.value@ + "\""@,
        FilterType::MustNotContain => "excludes \""@ + f.value@ + "\""@,
        FilterType::Regex => "regex /"@ + f.value@ + "/"@,
        FilterType::Wildcard => "wildcard \""@ + f.value@ + "\""@,
        FilterType::SizeRange => "size "@ + f.value@,
    }
}

/// The clauses of the enabled filters that accept the item, in filter order.
pub open spec fn satisfied_clauses(
    title: Seq<char>,
    size: Option<u64>,
    filters: Seq<FeedFilter>,
) -> Seq<Seq<char>>
    decreases filters.len(),
{
    if filters.len() == 0 {
        Seq::empty()
    } else {
        let rest = satisfied_clauses(title, size, filters.drop_last());
        let f = filters.last();
        if f.enabled && filter_passes(title, size, f) {
            rest.push(clause(f))
        } else {
            rest
        }
    }
}

/// Clauses joined by `", "`.
pub open spec fn joined(clauses: Seq<Seq<char>>) -> Seq<char>
    decreases clauses.len(),
{
    if clauses.len() == 0 {
        Seq::empty()
    } else if clauses.len() == 1 {
        clauses[0]
    } else {
        joined(clauses.drop_last()) + ", "@ + clauses.last()
    }
}

/// No filter is enabled.
pub open spec fn none_enabled(filters: Seq<FeedFilter>) -> bool {
    forall|i: int| 0 <= i < filters.len() ==> !(#[trigger] filters[i]).enabled
}

/// Every enabled filter accepts the item.
pub open spec fn all_pass(title: Seq<char>, size: Option<u64>, filters: Seq<FeedFilter>) -> bool {
    forall|i: int|
        0 <= i < filters.len() && (#[trigger] filters[i]).enabled ==> filter_passes(
            title,
            size,
            filters[i],
        )
}

/// Some enabled filter accepts the item.
pub open spec fn any_pass(title: Seq<char>, size: Option<u64>, filters: Seq<FeedFilter>) -> bool {
    exists|i: int|
        0 <= i < filters.len() && (#[trigger] filters[i]).enabled && filter_passes(
            title,
            size,
            filters[i],
        )
}

/// Whether the filter set accepts the item: with no enabled filter always,
/// under `And` when every enabled filter passes, under `Or` when one does.
pub open spec fn filters_match(
    title: Seq<char>,
    size: Option<u64>,
    filters: Seq<FeedFilter>,
    logic: FilterLogic,
) -> bool {
    none_enabled(filters) || match logic {
        FilterLogic::And => all_pass(title, size, filters),
        FilterLogic::Or => any_pass(title, size, filters),
    }
}

/// The description returned with a match.
pub open spec fn match_description(
    title: Seq<char>,
    size: Option<u64>,
    filters: Seq<FeedFilter>,
) -> Seq<char> {
    if none_enabled(filters) {
        "no filters"@
    } else {
        joined(satisfied_clauses(title, size, filters))
    }
}

/// Renders the clause of one filter.
pub fn describe_filter(f: &FeedFilter) -> (r: String)
    ensures
        r@ == clause(*f),
{
    match f.filter_type {
        FilterType::MustContain => {
            let mut s = String::from_str("contains \"");
            s.append(f.value.as_str());
            s.append("\"");
            s
        },
        FilterType::MustNotContain => {
            let mut s = String::from_str("excludes \"");
            s.append(f.value.as_str());
            s.append("\"");
            s
        },
        FilterType::Regex => {
            let mut s = String::from_str("regex /");
            s.append(f.value.as_str());
            s.append("/");
            s
        },
        FilterType::Wildcard => {
            let mut s = String::from_str("wildcard \"");
            s.append(f.value.as_str());
            s.append("\"");
            s
        },
        FilterType::SizeRange => {
            let mut s = String::from_str("size ");
            s.append(f.value.as_str());
            s
        },
    }
}

/// Evaluates filters against a feed item, all of them having to pass.
pub fn evaluate_filters(item: &ParsedFeedItem, filters: &[FeedFilter]) -> (r: Option<String>)
    ensures
        r is Some == filters_match(item.title@, item.size, filters@, FilterLogic::And),
        r matches Some(d) ==> d@ == match_description(item.title@, item.size, filters@),
{
    evaluate_filters_with_logic(item, filters, &FilterLogic::And)
}

/// Evaluates filters against a feed item under the given logic. The result is
/// `Some` exactly when the item is accepted, and then describes the satisfied
/// filters.
pub fn evaluate_filters_with_logic(
    item: &ParsedFeedItem,
    filters: &[FeedFilter],
    logic: &FilterLogic,
) -> (r: Option<String>)
    ensures
        r is Some == filters_match(item.title@, item.size, filters@, *logic),
        r matches Some(d) ==> d@ == match_description(item.title@, item.size, filters@),
{
    let ghost title = item.title@;
    let ghost size = item.size;
    let mut enabled: usize = 0;
    let mut passed: usize = 0;
    let mut all = true;
    let mut desc = String::new();
    let mut i: usize = 0;
    while i < filters.len()
        invariant
            i <= filters@.len(),
            title == item.title@,
            size == item.size,
            enabled <= i,
            passed <= enabled,
            enabled == 0 <==> none_enabled(filters@.take(i as int)),
            all == all_pass(title, size, filters@.take(i as int)),
            passed > 0 <==> any_pass(title, size, filters@.take(i as int)),
            passed as nat == satisfied_clauses(title, size, filters@.take(i as int)).len(),
            desc@ == joined(satisfied_clauses(title, size, filters@.take(i as int))),
        decreases filters@.len() - i,
    {
        let f = &filters[i];
        let ghost prev = filters@.take(i as int);
        let ghost next = filters@.take(i + 1);
        proof {
            assert(next.drop_last() =~= prev);
            assert(next.last() == *f);
            assert(forall|j: int| 0 <= j < prev.len() ==> prev[j] == next[j]);
            assert(next[i as int] == *f);
        }
        if f.enabled {
            enabled += 1;
            let ok = evaluate_single_filter(item, f);
            if ok {
                let c = describe_filter(f);
                if passed > 0 {
                    desc.append(", ");
                }
                desc.append(c.as_str());
                passed += 1;
                proof {
                    let cs = satisfied_clauses(title, size, next);
                    assert(cs.drop_last() =~= satisfied_clauses(title, size, prev));
                    assert(cs.last() == clause(*f));
                    if cs.len() == 1 {
                        assert(desc@ =~= clause(*f));
                    } else {
                        assert(desc@ =~= joined(cs.drop_last()) + ", "@ + cs.last());
                    }
                }
            } else {
                all = false;
            }
        }
        proof {
            if any_pass(title, size, prev) {
                let w = choose|j: int|
                    0 <= j < prev.len() && (#[trigger] prev[j]).enabled && filter_passes(
                        title,
                        size,
                        prev[j],
                    );
                assert(next[w].enabled && filter_passes(title, size, next[w]));
            }
            if any_pass(title, size, next) {
                let w = choose|j: int|
                    0 <= j < next.len() && (#[trigger] next[j]).enabled && filter_passes(
                        title,
                        size,
                        next[j],
                    );
                if w < i {
                    assert(prev[w].enabled && filter_passes(title, size, prev[w]));
                }
            }
            if all_pass(title, size, next) {
                assert forall|j: int| 0 <= j < prev.len() && (#[trigger] prev[j]).enabled implies filter_passes(title, size, prev[j]) by {
                    assert(next[j].enabled);
                }
            }
            if none_enabled(next) {
                assert forall|j: int| 0 <= j < prev.len() implies !(#[trigger] prev[j]).enabled by {
                    assert(!next[j].enabled);
                }
            }
        }
        i += 1;
    }
    assert(filters@.take(filters@.len() as int) =~= filters@);
    if enabled == 0 {
        return Some(String::from_str("no filters"));
    }
    let matched = match logic {
        FilterLogic::Or => passed > 0,
        FilterLogic::And => all,
    };
    if !matched {
        return None;
    }
    Some(desc)
}


/// With every enabled filter satisfied an item matches under `And` and under
/// `Or`; with one enabled filter unsatisfied it does not match under `And`;
/// with no filter enabled it matches under both.
pub proof fn lemma_filter_logic(title: Seq<char>, size: Option<u64>, filters: Seq<FeedFilter>)
    ensures
        all_pass(title, size, filters) ==> filters_match(title, size, filters, FilterLogic::And)
            && filters_match(title, size, filters, FilterLogic::Or),
        (exists|i: int|
            0 <= i < filters.len() && (#[trigger] filters[i]).enabled && !filter_passes(
                title,
                size,
                filters[i],
            )) ==> !filters_match(title, size, filters, FilterLogic::And),
        none_enabled(filters) ==> filters_match(title, size, filters, FilterLogic::And)
            && filters_match(title, size, filters, FilterLogic::Or),
{
    if all_pass(title, size, filters) && !none_enabled(filters) {
        let w = choose|i: int| 0 <= i < filters.len() && (#[trigger] filters[i]).enabled;
        assert(filter_passes(title, size, filters[w]));
    }
}

/// An item of unknown size passes every size-range filter, whatever its bounds.
pub proof fn lemma_unknown_size_passes(title: Seq<char>, f: FeedFilter)
    requires
        f.filter_type == FilterType::SizeRange,
    ensures
        filter_passes(title, None, f),
{
}

} // verus!
