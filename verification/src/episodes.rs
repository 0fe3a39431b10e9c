//! Episode identifiers and quality-upgrade markers read from release titles.

use vstd::prelude::*;
use vstd::string::*;
use crate::models::opt_text;
use crate::outside::{capture_groups, groups_view, lowercase_of, regex_captures, to_lowercase};
use crate::text::{
    contains_chars, contains_seq, decimal_u32, parse_u32, push_two_digits, to_chars, two_digits,
};

verus! {

/// The canonical identifier of a season and an episode: `S01E02`.
pub open spec fn season_episode(season: nat, episode: nat) -> Seq<char> {
    seq!['S'] + two_digits(season) + seq!['E'] + two_digits(episode)
}

/// The identifier read from the groups of a season/episode match: both numbers
/// must have been captured and must read as `u32`.
pub open spec fn season_episode_id(groups: Seq<Option<Seq<char>>>) -> Option<Seq<char>> {
    if groups.len() > 2 && groups[1] is Some && groups[2] is Some && decimal_u32(
        groups[1].unwrap(),
    ) is Some && decimal_u32(groups[2].unwrap()) is Some {
        Some(
            season_episode(
                decimal_u32(groups[1].unwrap()).unwrap() as nat,
                decimal_u32(groups[2].unwrap()).unwrap() as nat,
            ),
        )
    } else {
        None
    }
}

/// The identifier read from the groups of a daily-date match: `YYYY-MM-DD`.
pub open spec fn daily_id(groups: Seq<Option<Seq<char>>>) -> Option<Seq<char>> {
    if groups.len() > 3 && groups[1] is Some && groups[2] is Some && groups[3] is Some {
        Some(
            groups[1].unwrap() + seq!['-'] + groups[2].unwrap() + seq!['-'] + groups[3].unwrap(),
        )
    } else {
        None
    }
}

/// The identifier chosen from the three searches: the first pattern that
/// matched decides, in the order season/episode, `NxNN`, daily date.
pub open spec fn episode_from_captures(
    season_form: Option<Seq<Option<Seq<char>>>>,
    cross_form: Option<Seq<Option<Seq<char>>>>,
    daily_form: Option<Seq<Option<Seq<char>>>>,
) -> Option<Seq<char>> {
    match season_form {
        Some(g) => season_episode_id(g),
        None => match cross_form {
            Some(g) => season_episode_id(g),
            None => match daily_form {
                Some(g) => daily_id(g),
                None => None,
            },
        },
    }
}

/// The episode identifier of a title, if it names one.
pub open spec fn episode_id(title: Seq<char>) -> Option<Seq<char>> {
    episode_from_captures(
        capture_groups(r"(?i)S(\d{1,2})E(\d{1,2})"@, title),
        capture_groups(r"(?i)(\d{1,2})x(\d{2})"@, title),
        capture_groups(r"(\d{4})[.\-](\d{2})[.\-](\d{2})"@, title),
    )
}

/// Whether a title carries a quality-upgrade marker.
pub open spec fn is_upgrade(title: Seq<char>) -> bool {
    let lower = lowercase_of(title);
    contains_seq(lower, "proper"@) || contains_seq(lower, "repack"@) || contains_seq(
        lower,
        "rerip"@,
    )
}

/// Renders the canonical identifier of a season and an episode.
pub fn format_episode(season: u32, episode: u32) -> (r: String)
    ensures
        r@ == season_episode(season as nat, episode as nat),
{
    let mut s = String::new();
    s.push('S');
    push_two_digits(&mut s, season);
    s.push('E');
    push_two_digits(&mut s, episode);
    assert(s@ =~= season_episode(season as nat, episode as nat));
    s
}

/// Reads the identifier from the groups of a season/episode match.
pub fn season_episode_from(groups: &Vec<Option<String>>) -> (r: Option<String>)
    ensures
        opt_text(r) == season_episode_id(groups_view(groups@)),
{
    if groups.len() <= 2 {
        return None;
    }
    match (&groups[1], &groups[2]) {
        (Some(a), Some(b)) => {
            match (parse_u32(a.as_str()), parse_u32(b.as_str())) {
                (Some(season), Some(episode)) => Some(format_episode(season, episode)),
                _ => None,
            }
        },
        _ => None,
    }
}

/// Reads the identifier from the groups of a daily-date match.
pub fn daily_from(groups: &Vec<Option<String>>) -> (r: Option<String>)
    ensures
        opt_text(r) == daily_id(groups_view(groups@)),
{
    if groups.len() <= 3 {
        return None;
    }
    match (&groups[1], &groups[2], &groups[3]) {
        (Some(y), Some(m), Some(d)) => {
            let mut s = y.clone();
            s.push('-');
            s.append(m.as_str());
            s.push('-');
            s.append(d.as_str());
            assert(s@ =~= y@ + seq!['-'] + m@ + seq!['-'] + d@);
            Some(s)
        },
        _ => None,
    }
}

/// Extracts the episode identifier from a title: `S01E02` from `S1E2` or
/// `1x02`, or `YYYY-MM-DD` from a daily date. The first pattern that matches
/// decides.
pub fn extract_episode_id(title: &str) -> (r: Option<String>)
    ensures
        opt_text(r) == episode_id(title@),
{
    match regex_captures(r"(?i)S(\d{1,2})E(\d{1,2})", title) {
        Some(g) => season_episode_from(&g),
        None => match regex_captures(r"(?i)(\d{1,2})x(\d{2})", title) {
            Some(g) => season_episode_from(&g),
            None => match regex_captures(r"(\d{4})[.\-](\d{2})[.\-](\d{2})", title) {
                Some(g) => daily_from(&g),
                None => None,
            },
        },
    }
}

/// Whether a title is marked as a proper, repack or rerip release.
pub fn is_quality_upgrade(title: &str) -> (r: bool)
    ensures
        r == is_upgrade(title@),
{
    let lower = to_chars(to_lowercase(title).as_str());
    let proper = to_chars("proper");
    let repack = to_chars("repack");
    let rerip = to_chars("rerip");
    contains_chars(&lower, &proper) || contains_chars(&lower, &repack) || contains_chars(
        &lower,
        &rerip,
    )
}

} // verus!
