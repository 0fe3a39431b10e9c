//! Reading the capture groups of a pattern match.

use vstd::prelude::*;
use vstd::string::*;
use crate::models::opt_text;
use crate::outside::{capture_groups, groups_view, regex_captures};

verus! {

/// Group `k` of a match, if the match has it and it took part.
pub open spec fn group_of(caps: Option<Seq<Option<Seq<char>>>>, k: int) -> Option<Seq<char>> {
    match caps {
        Some(g) => if 0 <= k < g.len() {
            g[k]
        } else {
            None
        },
        None => None,
    }
}

/// Copies group `k` out of a match.
pub fn group_text(caps: &Option<Vec<Option<String>>>, k: usize) -> (r: Option<String>)
    ensures
        opt_text(r) == group_of(
            match *caps {
                Some(v) => Some(groups_view(v@)),
                None => None,
            },
            k as int,
        ),
{
    match caps {
        Some(v) => {
            if k < v.len() {
                match &v[k] {
                    Some(s) => Some(s.clone()),
                    None => None,
                }
            } else {
                None
            }
        },
        None => None,
    }
}

/// Searches `text` and copies group `k` of the leftmost match.
pub fn capture(pattern: &str, text: &str, k: usize) -> (r: Option<String>)
    ensures
        opt_text(r) == group_of(capture_groups(pattern@, text@), k as int),
{
    let caps = regex_captures(pattern, text);
    group_text(&caps, k)
}

} // verus!
