//! Converting SubRip subtitles to WebVTT.

use vstd::prelude::*;
use vstd::string::*;
use crate::errors::WhenThenError;
use crate::text::{
    find_next, from_chars, next_at, replace_all, replaced, slice_chars, to_chars, trim_bounds,
    trimmed,
};

verus! {

/// The end of the line that starts at `from`: the next line feed, or the end
/// of the block.
pub open spec fn line_end(b: Seq<char>, from: int) -> int {
    match next_at(b, seq!['\n'], from) {
        Some(p) => p,
        None => b.len() as int,
    }
}

/// The cue that a block of at least three lines gives: its second line as the
/// time range, with decimal commas turned into points, and the lines after it
/// as the text, followed by an empty line. The first line, the counter, is
/// dropped. A shorter block gives nothing.
pub open spec fn cue_text(b: Seq<char>) -> Seq<char> {
    let e0 = line_end(b, 0);
    let e1 = line_end(b, e0 + 1);
    if e0 < e1 < b.len() {
        replaced(b.subrange(e0 + 1, e1), seq![','], seq!['.']) + seq!['\n'] + b.subrange(
            e1 + 1,
            b.len() as int,
        ) + seq!['\n', '\n']
    } else {
        Seq::empty()
    }
}

/// The cues of the blocks that start at or after `from`; blocks are separated
/// by an empty line and trimmed.
pub open spec fn cues_from(c: Seq<char>, from: int) -> Seq<char>
    decreases c.len() - from,
{
    if from < 0 || from > c.len() {
        Seq::empty()
    } else {
        match next_at(c, seq!['\n', '\n'], from) {
            Some(p) => if from <= p && p + 2 <= c.len() {
                cue_text(trimmed(c.subrange(from, p))) + cues_from(c, p + 2)
            } else {
                Seq::empty()
            },
            None => cue_text(trimmed(c.subrange(from, c.len() as int))),
        }
    }
}

/// The WebVTT form of a SubRip text: the header, then the cue of every block,
/// with carriage returns removed first.
pub open spec fn vtt_of(srt: Seq<char>) -> Seq<char> {
    "WEBVTT\n\n"@ + cues_from(replaced(srt, seq!['\r'], Seq::empty()), 0)
}

fn one_char(c: char) -> (r: String)
    ensures
        r@ == seq![c],
{
    let mut s = String::new();
    s.push(c);
    assert(s@ =~= seq![c]);
    s
}

/// Appends the cue of the block `v[from..to]`.
pub fn append_cue(out: &mut String, v: &Vec<char>, from: usize, to: usize)
    requires
        from <= to <= v@.len(),
    ensures
        final(out)@ == old(out)@ + cue_text(trimmed(v@.subrange(from as int, to as int))),
{
    let (a, b) = trim_bounds(v, from, to);
    let block = slice_chars(v, a, b);
    let mut feed: Vec<char> = Vec::new();
    feed.push('\n');
    assert(feed@ =~= seq!['\n']);
    let e0 = match find_next(&block, &feed, 0) {
        Some(p) => p,
        None => {
            assert(old(out)@ + Seq::<char>::empty() =~= old(out)@);
            return ;
        },
    };
    let e1 = match find_next(&block, &feed, e0 + 1) {
        Some(p) => p,
        None => {
            assert(old(out)@ + Seq::<char>::empty() =~= old(out)@);
            return ;
        },
    };
    let stamp = from_chars(&block, e0 + 1, e1);
    let comma = one_char(',');
    let point = one_char('.');
    let fixed = replace_all(stamp.as_str(), comma.as_str(), point.as_str());
    let rest = from_chars(&block, e1 + 1, block.len());
    out.append(fixed.as_str());
    out.push('\n');
    out.append(rest.as_str());
    out.push('\n');
    out.push('\n');
    assert(out@ =~= old(out)@ + cue_text(block@));
}

/// Converts SubRip subtitles to WebVTT.
pub fn srt_to_vtt(srt_content: &str) -> (r: Result<String, WhenThenError>)
    ensures
        r matches Ok(s) && s@ == vtt_of(srt_content@),
{
    let cr = one_char('\r');
    let none = String::new();
    let content = to_chars(replace_all(srt_content, cr.as_str(), none.as_str()).as_str());
    let mut sep: Vec<char> = Vec::new();
    sep.push('\n');
    sep.push('\n');
    assert(sep@ =~= seq!['\n', '\n']);
    let mut out = String::from_str("WEBVTT\n\n");
    let ghost head = out@;
    let mut from: usize = 0;
    let total: usize = content.len();
    assert(out@ + cues_from(content@, 0) =~= head + cues_from(content@, 0));
    loop
        invariant_except_break
            head + cues_from(content@, 0) == out@ + cues_from(content@, from as int),
        invariant
            from <= content@.len() == total,
            sep@ == seq!['\n', '\n'],
            head == "WEBVTT\n\n"@,
        ensures
            out@ == head + cues_from(content@, 0),
        decreases content@.len() - from,
    {
        let ghost before = out@;
        match find_next(&content, &sep, from) {
            Some(p) => {
                append_cue(&mut out, &content, from, p);
                assert(out@ + cues_from(content@, p + 2) =~= before + cues_from(
                    content@,
                    from as int,
                ));
                from = p + 2;
            },
            None => {
                append_cue(&mut out, &content, from, content.len());
                break;
            },
        }
    }
    Ok(out)
}

} // verus!
