//! Placeholder interpolation for translated messages.

use vstd::prelude::*;
use vstd::string::*;
use crate::outside::{lowercase_of, to_lowercase};
use crate::text::{has_prefix, replace_all, replaced, starts_with};

verus! {

/// The locale to load for a system language tag: Spanish for tags that begin
/// with `es` in any case, English for all others.
pub fn locale_for(language_tag: &str) -> (r: &'static str)
    ensures
        r@ == if has_prefix(lowercase_of(language_tag@), "es"@) {
            "es"@
        } else {
            "en"@
        },
{
    let lower = to_lowercase(language_tag);
    if starts_with(lower.as_str(), "es") {
        "es"
    } else {
        "en"
    }
}

/// A template with the placeholders `{name}` of the given arguments filled in,
/// one argument after the other.
pub open spec fn interpolated(template: Seq<char>, args: Seq<(&str, &str)>) -> Seq<char>
    decreases args.len(),
{
    if args.len() == 0 {
        template
    } else {
        replaced(
            interpolated(template, args.drop_last()),
            seq!['{'] + args.last().0@ + seq!['}'],
            args.last().1@,
        )
    }
}

/// Fills the placeholders of a translated message: every `{name}` is replaced
/// by the value given for `name`.
pub fn t_with(template: &str, args: &[(&str, &str)]) -> (r: String)
    ensures
        r@ == interpolated(template@, args@),
{
    let mut result = String::from_str(template);
    let mut i: usize = 0;
    while i < args.len()
        invariant
            i <= args@.len(),
            result@ == interpolated(template@, args@.take(i as int)),
        decreases args@.len() - i,
    {
        proof {
            assert(args@.take(i + 1).drop_last() =~= args@.take(i as int));
            assert(args@.take(i + 1).last() == args@[i as int]);
        }
        let mut placeholder = String::new();
        placeholder.push('{');
        placeholder.append(args[i].0);
        placeholder.push('}');
        assert(placeholder@ =~= seq!['{'] + args@[i as int].0@ + seq!['}']);
        result = replace_all(result.as_str(), placeholder.as_str(), args[i].1);
        i += 1;
    }
    assert(args@.take(args@.len() as int) =~= args@);
    result
}

} // verus!
