//! Structured metadata read from release names.

use vstd::prelude::*;
use vstd::string::*;
use crate::models::opt_text;
use crate::outside::{
    capture_groups, lowercase_of, regex_captures, regex_is_match, regex_search, to_lowercase,
    to_uppercase, uppercase_of,
};
use crate::patterns::{capture, group_of, group_text};
use crate::text::{
    decimal, decimal_u16, find_chars, find_first, from_chars, parse_u16, push_decimal,
    push_two_digits, replace_all, replaced, same_text, to_chars, trim_bounds, trimmed, two_digits,
};

verus! {

/// The resolution markers.
pub const QUALITY_PATTERN: &'static str = r"(?i)\b(4K|2160p|1080p|720p|480p)\b";

/// The markers of where a release was taken from.
pub const SOURCE_PATTERN: &'static str =
    r"(?i)\b(BluRay|BDRip|BRRip|WEB-DL|WEBDL|WEBRip|HDTV|DVDRip)\b";

/// The video codec markers.
pub const CODEC_PATTERN: &'static str = r"(?i)\b(x264|x265|HEVC|H\.?264|H\.?265|AV1)\b";

/// Season and episode, as in `S02E05`.
pub const TV_PATTERN: &'static str = r"(?i)\bS(\d{1,2})E(\d{1,2})\b";

/// Season and episode, as in `2x05`.
pub const TV_ALT_PATTERN: &'static str = r"(?i)\b(\d{1,2})x(\d{1,2})\b";

/// A year of the twentieth or twenty-first century.
pub const YEAR_PATTERN: &'static str = r"\b((?:19|20)\d{2})\b";

/// The release group at the end of a name, before a file extension if any.
pub const GROUP_PATTERN: &'static str = r"-([A-Za-z0-9]+)(?:\.[a-z]{2,4})?$";

/// The marker of a corrected release.
pub const PROPER_PATTERN: &'static str = r"(?i)\bPROPER\b";

/// The marker of a repacked release.
pub const REPACK_PATTERN: &'static str = r"(?i)\bREPACK\b";

/// The resolution of a release.
#[derive(Debug, Clone, Copy, PartialEq, Eq, Structural)]
pub enum Quality {
    Q2160p,
    Q1080p,
    Q720p,
    Q480p,
}

impl Quality {
    /// The text this value is written as.
    pub open spec fn label(self) -> Seq<char> {
        match self {
            Quality::Q2160p => "2160p"@,
            Quality::Q1080p => "1080p"@,
            Quality::Q720p => "720p"@,
            Quality::Q480p => "480p"@,
        }
    }

    /// The text this value is written as.
    pub fn as_str(&self) -> (r: &'static str)
        ensures
            r@ == self.label(),
    {
        match self {
            Quality::Q2160p => "2160p",
            Quality::Q1080p => "1080p",
            Quality::Q720p => "720p",
            Quality::Q480p => "480p",
        }
    }
}

/// Where a release was taken from.
#[derive(Debug, Clone, Copy, PartialEq, Eq, Structural)]
pub enum MediaSource {
    BluRay,
    WebDl,
    WebRip,
    Hdtv,
    DvdRip,
}

impl MediaSource {
    /// The text this value is written as.
    pub open spec fn label(self) -> Seq<char> {
        match self {
            MediaSource::BluRay => "BluRay"@,
            MediaSource::WebDl => "WEB-DL"@,
            MediaSource::WebRip => "WEBRip"@,
            MediaSource::Hdtv => "HDTV"@,
            MediaSource::DvdRip => "DVDRip"@,
        }
    }

    /// The text this value is written as.
    pub fn as_str(&self) -> (r: &'static str)
        ensures
            r@ == self.label(),
    {
        match self {
            MediaSource::BluRay => "BluRay",
            MediaSource::WebDl => "WEB-DL",
            MediaSource::WebRip => "WEBRip",
            MediaSource::Hdtv => "HDTV",
            MediaSource::DvdRip => "DVDRip",
        }
    }
}

/// The video codec of a release.
#[derive(Debug, Clone, Copy, PartialEq, Eq, Structural)]
pub enum Codec {
    X264,
    X265,
    Av1,
}

impl Codec {
    /// The text this value is written as.
    pub open spec fn label(self) -> Seq<char> {
        match self {
            Codec::X264 => "x264"@,
            Codec::X265 => "x265"@,
            Codec::Av1 => "AV1"@,
        }
    }

    /// The text this value is written as.
    pub fn as_str(&self) -> (r: &'static str)
        ensures
            r@ == self.label(),
    {
        match self {
            Codec::X264 => "x264",
            Codec::X265 => "x265",
            Codec::Av1 => "AV1",
        }
    }
}

/// What a release name says about its content.
#[derive(Debug, Clone)]
pub struct MediaInfo {
    pub title: String,
    pub year: Option<u16>,
    pub quality: Option<Quality>,
    pub source: Option<MediaSource>,
    pub codec: Option<Codec>,
    pub release_group: Option<String>,
    pub season: Option<u16>,
    pub episode: Option<u16>,
    pub is_proper: bool,
    pub is_repack: bool,
}

impl MediaInfo {
    /// Whether the name belongs to an episode of a series.
    pub fn is_tv(&self) -> (r: bool)
        ensures
            r == (self.season is Some || self.episode is Some),
    {
        self.season.is_some() || self.episode.is_some()
    }
}

/// The quality a captured token names.
pub open spec fn quality_of(token: Seq<char>) -> Option<Quality> {
    let q = uppercase_of(token);
    if q == "4K"@ || q == "2160P"@ {
        Some(Quality::Q2160p)
    } else if q == "1080P"@ {
        Some(Quality::Q1080p)
    } else if q == "720P"@ {
        Some(Quality::Q720p)
    } else if q == "480P"@ {
        Some(Quality::Q480p)
    } else {
        None
    }
}

/// The source a captured token names.
pub open spec fn source_of(token: Seq<char>) -> Option<MediaSource> {
    let s = uppercase_of(token);
    if s == "BLURAY"@ || s == "BDRIP"@ || s == "BRRIP"@ {
        Some(MediaSource::BluRay)
    } else if s == "WEB-DL"@ || s == "WEBDL"@ {
        Some(MediaSource::WebDl)
    } else if s == "WEBRIP"@ {
        Some(MediaSource::WebRip)
    } else if s == "HDTV"@ {
        Some(MediaSource::Hdtv)
    } else if s == "DVDRIP"@ {
        Some(MediaSource::DvdRip)
    } else {
        None
    }
}

/// The codec a captured token names; dots in the token do not count.
pub open spec fn codec_of(token: Seq<char>) -> Option<Codec> {
    let c = replaced(uppercase_of(token), "."@, ""@);
    if c == "X264"@ || c == "H264"@ {
        Some(Codec::X264)
    } else if c == "X265"@ || c == "HEVC"@ || c == "H265"@ {
        Some(Codec::X265)
    } else if c == "AV1"@ {
        Some(Codec::Av1)
    } else {
        None
    }
}

/// A captured number, if it was captured and reads as `u16`.
pub open spec fn number_of(token: Option<Seq<char>>) -> Option<u16> {
    match token {
        Some(t) => decimal_u16(t),
        None => None,
    }
}

/// The number of `.` characters in `s`.
pub open spec fn dot_count(s: Seq<char>) -> nat
    decreases s.len(),
{
    if s.len() == 0 {
        0
    } else {
        dot_count(s.drop_last()) + if s.last() == '.' {
            1nat
        } else {
            0nat
        }
    }
}

/// A name whose dots separate words, with dots and underscores turned into
/// spaces; a name with at most two dots as it is.
pub open spec fn normalized(name: Seq<char>) -> Seq<char> {
    if dot_count(name) > 2 {
        Seq::new(
            name.len(),
            |i: int|
                if name[i] == '.' || name[i] == '_' {
                    ' '
                } else {
                    name[i]
                },
        )
    } else {
        name
    }
}

/// The title's end after looking for one marker: the marker's first position
/// in the lowercased name when that lies before the end and after the start.
pub open spec fn cut_at(end: int, lower: Seq<char>, marker: Option<Seq<char>>) -> int {
    match marker {
        Some(m) => match find_first(lower, lowercase_of(m)) {
            Some(p) => if 0 < p < end {
                p
            } else {
                end
            },
            None => end,
        },
        None => end,
    }
}

/// The text after the last `]`.
pub open spec fn after_last_bracket(s: Seq<char>, i: int) -> int
    decreases i,
{
    if i <= 0 || i > s.len() {
        0
    } else if s[i - 1] == ']' {
        i
    } else {
        after_last_bracket(s, i - 1)
    }
}

/// The index of the first character at or after `i` that is not `[`.
pub open spec fn skip_open_brackets(s: Seq<char>, i: int) -> int
    decreases s.len() - i,
{
    if i < 0 || i >= s.len() {
        s.len() as int
    } else if s[i] != '[' {
        i
    } else {
        skip_open_brackets(s, i + 1)
    }
}

/// A title without a bracketed tag in front: leading `[` dropped, then
/// everything up to the last `]`, then the whitespace at the ends.
pub open spec fn without_tags(t: Seq<char>) -> Seq<char> {
    let rest = t.subrange(skip_open_brackets(t, 0), t.len() as int);
    trimmed(rest.subrange(after_last_bracket(rest, rest.len() as int), rest.len() as int))
}

/// The title of a release name: what stands before the first of the markers
/// found in it (year, quality, source, season), cleaned up.
pub open spec fn title_of(
    name: Seq<char>,
    year: Option<u16>,
    quality: Option<Quality>,
    source: Option<MediaSource>,
    season: Option<u16>,
) -> Seq<char> {
    let norm = normalized(name);
    let lower = lowercase_of(norm);
    let e0 = norm.len() as int;
    let e1 = cut_at(
        e0,
        lower,
        match year {
            Some(y) => Some(decimal(y as nat)),
            None => None,
        },
    );
    let e2 = cut_at(
        e1,
        lower,
        match quality {
            Some(q) => Some(q.label()),
            None => None,
        },
    );
    let e3 = cut_at(
        e2,
        lower,
        match source {
            Some(s) => Some(s.label()),
            None => None,
        },
    );
    let e4 = cut_at(
        e3,
        lower,
        match season {
            Some(s) => Some(seq!['S'] + two_digits(s as nat)),
            None => None,
        },
    );
    without_tags(trimmed(norm.subrange(0, e4)))
}

/// Names the quality of a captured token.
pub fn quality_from(token: &str) -> (r: Option<Quality>)
    ensures
        r == quality_of(token@),
{
    let q = to_uppercase(token);
    if same_text(q.as_str(), "4K") || same_text(q.as_str(), "2160P") {
        Some(Quality::Q2160p)
    } else if same_text(q.as_str(), "1080P") {
        Some(Quality::Q1080p)
    } else if same_text(q.as_str(), "720P") {
        Some(Quality::Q720p)
    } else if same_text(q.as_str(), "480P") {
        Some(Quality::Q480p)
    } else {
        None
    }
}

/// Names the source of a captured token.
pub fn source_from(token: &str) -> (r: Option<MediaSource>)
    ensures
        r == source_of(token@),
{
    let s = to_uppercase(token);
    if same_text(s.as_str(), "BLURAY") || same_text(s.as_str(), "BDRIP") || same_text(
        s.as_str(),
        "BRRIP",
    ) {
        Some(MediaSource::BluRay)
    } else if same_text(s.as_str(), "WEB-DL") || same_text(s.as_str(), "WEBDL") {
        Some(MediaSource::WebDl)
    } else if same_text(s.as_str(), "WEBRIP") {
        Some(MediaSource::WebRip)
    } else if same_text(s.as_str(), "HDTV") {
        Some(MediaSource::Hdtv)
    } else if same_text(s.as_str(), "DVDRIP") {
        Some(MediaSource::DvdRip)
    } else {
        None
    }
}

/// Names the codec of a captured token.
pub fn codec_from(token: &str) -> (r: Option<Codec>)
    ensures
        r == codec_of(token@),
{
    let upper = to_uppercase(token);
    let c = replace_all(upper.as_str(), ".", "");
    if same_text(c.as_str(), "X264") || same_text(c.as_str(), "H264") {
        Some(Codec::X264)
    } else if same_text(c.as_str(), "X265") || same_text(c.as_str(), "HEVC") || same_text(
        c.as_str(),
        "H265",
    ) {
        Some(Codec::X265)
    } else if same_text(c.as_str(), "AV1") {
        Some(Codec::Av1)
    } else {
        None
    }
}

/// Reads a captured number.
pub fn number_from(token: &Option<String>) -> (r: Option<u16>)
    ensures
        r == number_of(opt_text(*token)),
{
    match token {
        Some(t) => parse_u16(t.as_str()),
        None => None,
    }
}

/// Turns separators into spaces when the name uses dots between words.
pub fn normalize_name(name: &str) -> (r: Vec<char>)
    ensures
        r@ == normalized(name@),
{
    let v = to_chars(name);
    let mut dots: usize = 0;
    let mut i: usize = 0;
    while i < v.len()
        invariant
            i <= v@.len(),
            dots <= i,
            dots as nat == dot_count(v@.take(i as int)),
        decreases v@.len() - i,
    {
        proof {
            assert(v@.take(i + 1).drop_last() =~= v@.take(i as int));
        }
        if v[i] == '.' {
            dots += 1;
        }
        i += 1;
    }
    assert(v@.take(v@.len() as int) =~= v@);
    if dots <= 2 {
        return v;
    }
    let mut out: Vec<char> = Vec::new();
    let mut j: usize = 0;
    while j < v.len()
        invariant
            j <= v@.len(),
            out@.len() == j,
            forall|k: int|
                0 <= k < j ==> out@[k] == if v@[k] == '.' || v@[k] == '_' {
                    ' '
                } else {
                    v@[k]
                },
        decreases v@.len() - j,
    {
        let c = v[j];
        if c == '.' || c == '_' {
            out.push(' ');
        } else {
            out.push(c);
        }
        j += 1;
    }
    assert(out@ =~= normalized(name@));
    out
}

/// Moves the title's end to a marker's first position, when that lies before
/// the end and after the start.
pub fn cut_end(end: usize, lower: &Vec<char>, marker: Option<String>) -> (r: usize)
    ensures
        r as int == cut_at(end as int, lower@, opt_text(marker)),
        r <= end,
{
    match marker {
        Some(m) => {
            let needle = to_chars(to_lowercase(m.as_str()).as_str());
            match find_chars(lower, &needle) {
                Some(p) => if 0 < p && p < end {
                    p
                } else {
                    end
                },
                None => end,
            }
        },
        None => end,
    }
}

/// Removes a bracketed tag in front of a title.
pub fn strip_tags(t: &Vec<char>) -> (r: String)
    ensures
        r@ == without_tags(t@),
{
    let mut a: usize = 0;
    while a < t.len() && t[a] == '['
        invariant
            a <= t@.len(),
            skip_open_brackets(t@, 0) == skip_open_brackets(t@, a as int),
        decreases t@.len() - a,
    {
        a += 1;
    }
    let ghost rest = t@.subrange(a as int, t@.len() as int);
    let mut b: usize = t.len();
    while b > a && t[b - 1] != ']'
        invariant
            a <= b <= t@.len(),
            rest == t@.subrange(a as int, t@.len() as int),
            after_last_bracket(rest, rest.len() as int) == after_last_bracket(rest, b - a),
        decreases b,
    {
        assert(rest[b - a - 1] == t@[b - 1]);
        b -= 1;
    }
    proof {
        if b > a {
            assert(rest[b - a - 1] == t@[b - 1]);
        }
        assert(rest.subrange(b - a, rest.len() as int) =~= t@.subrange(
            b as int,
            t@.len() as int,
        ));
    }
    let (x, y) = trim_bounds(t, b, t.len());
    from_chars(t, x, y)
}

/// Extracts the title portion of a release name, given the markers found in it.
pub fn extract_title(
    name: &str,
    year: Option<u16>,
    quality: Option<Quality>,
    source: Option<MediaSource>,
    season: Option<u16>,
) -> (r: String)
    ensures
        r@ == title_of(name@, year, quality, source, season),
{
    let norm = normalize_name(name);
    let norm_text = from_chars(&norm, 0, norm.len());
    assert(norm_text@ =~= norm@);
    let lower = to_chars(to_lowercase(norm_text.as_str()).as_str());
    let year_marker = match year {
        Some(y) => {
            let mut s = String::new();
            push_decimal(&mut s, y as u64);
            assert(s@ =~= decimal(y as nat));
            Some(s)
        },
        None => None,
    };
    let quality_marker = match quality {
        Some(q) => Some(String::from_str(q.as_str())),
        None => None,
    };
    let source_marker = match source {
        Some(s) => Some(String::from_str(s.as_str())),
        None => None,
    };
    let season_marker = match season {
        Some(n) => {
            let mut s = String::new();
            s.push('S');
            push_two_digits(&mut s, n as u32);
            assert(s@ =~= seq!['S'] + two_digits(n as nat));
            Some(s)
        },
        None => None,
    };
    let e1 = cut_end(norm.len(), &lower, year_marker);
    let e2 = cut_end(e1, &lower, quality_marker);
    let e3 = cut_end(e2, &lower, source_marker);
    let e4 = cut_end(e3, &lower, season_marker);
    let (a, b) = trim_bounds(&norm, 0, e4);
    let head = to_chars(from_chars(&norm, a, b).as_str());
    strip_tags(&head)
}

/// Parses a release name into structured media info. Each field is read from
/// the leftmost match of its own pattern; the title is what stands before the
/// first marker.
pub fn parse(name: &str) -> (info: MediaInfo)
    ensures
        info.quality == match group_of(capture_groups(QUALITY_PATTERN@, name@), 1) {
            Some(t) => quality_of(t),
            None => None,
        },
        info.source == match group_of(capture_groups(SOURCE_PATTERN@, name@), 1) {
            Some(t) => source_of(t),
            None => None,
        },
        info.codec == match group_of(capture_groups(CODEC_PATTERN@, name@), 1) {
            Some(t) => codec_of(t),
            None => None,
        },
        capture_groups(TV_PATTERN@, name@) is Some ==> info.season == number_of(
            group_of(capture_groups(TV_PATTERN@, name@), 1),
        ) && info.episode == number_of(group_of(capture_groups(TV_PATTERN@, name@), 2)),
        capture_groups(TV_PATTERN@, name@) is None ==> info.season == number_of(
            group_of(capture_groups(TV_ALT_PATTERN@, name@), 1),
        ) && info.episode == number_of(group_of(capture_groups(TV_ALT_PATTERN@, name@), 2)),
        info.year == number_of(group_of(capture_groups(YEAR_PATTERN@, name@), 1)),
        opt_text(info.release_group) == group_of(capture_groups(GROUP_PATTERN@, name@), 1),
        info.is_proper == (regex_search(PROPER_PATTERN@, name@) == Some(true)),
        info.is_repack == (regex_search(REPACK_PATTERN@, name@) == Some(true)),
        info.title@ == title_of(name@, info.year, info.quality, info.source, info.season),
{
    let quality = match capture(QUALITY_PATTERN, name, 1) {
        Some(t) => quality_from(t.as_str()),
        None => None,
    };
    let source = match capture(SOURCE_PATTERN, name, 1) {
        Some(t) => source_from(t.as_str()),
        None => None,
    };
    let codec = match capture(CODEC_PATTERN, name, 1) {
        Some(t) => codec_from(t.as_str()),
        None => None,
    };
    let tv = regex_captures(TV_PATTERN, name);
    let (season, episode) = if tv.is_some() {
        (number_from(&group_text(&tv, 1)), number_from(&group_text(&tv, 2)))
    } else {
        let alt = regex_captures(TV_ALT_PATTERN, name);
        (number_from(&group_text(&alt, 1)), number_from(&group_text(&alt, 2)))
    };
    let year = number_from(&capture(YEAR_PATTERN, name, 1));
    let release_group = capture(GROUP_PATTERN, name, 1);
    let is_proper = match regex_is_match(PROPER_PATTERN, name) {
        Some(b) => b,
        None => false,
    };
    let is_repack = match regex_is_match(REPACK_PATTERN, name) {
        Some(b) => b,
        None => false,
    };
    let title = extract_title(name, year, quality, source, season);
    MediaInfo {
        title,
        year,
        quality,
        source,
        codec,
        release_group,
        season,
        episode,
        is_proper,
        is_repack,
    }
}

} // verus!
