use vstd::prelude::*;

verus! {

/// What capturing a member pattern against a text yields, when the pattern
/// is compiled case-insensitive with dot-matches-new-line: the overall
/// match and the `content` capture group.
pub uninterp spec fn member_pattern_captures(pattern: Seq<char>, text: Seq<char>) -> Option<
    (Seq<char>, Seq<char>),
>;

/// Relies on regex::RegexBuilder::build and regex::Regex::captures: with a
/// fixed flag set the captures are a function of the pattern and the text
/// alone, and the overall match (group 0) is a contiguous part of the text.
/// Yields the overall match and the `content` group; an invalid pattern, no
/// match, or a missing `content` group yields nothing.
#[verifier::external_body]
pub fn capture_member_pattern(pattern: &str, text: &str) -> (r: Option<(String, String)>)
    ensures
        (match (r, member_pattern_captures(pattern@, text@)) {
            (Some(p), Some(q)) => p.0@ == q.0 && p.1@ == q.1,
            (None, None) => true,
            _ => false,
        }),
        (r matches Some(p) ==> exists|i: int|
            0 <= i && i + p.0@.len() <= text@.len() && p.0@ == #[trigger] text@.subrange(
                i,
                i + p.0@.len(),
            )),
{
    let re = regex::RegexBuilder::new(pattern)
        .dot_matches_new_line(true)
        .case_insensitive(true)
        .build()
        .ok()?;
    let caps = re.captures(text)?;
    let full = caps.get(0)?.as_str().to_owned();
    let content = caps.name("content")?.as_str().to_owned();
    Some((full, content))
}

/// The flags a sed-style substitution command can carry.
#[derive(Clone, Copy, PartialEq, Eq, Structural)]
pub struct SedFlags {
    pub case_insensitive: bool,
    pub multi_line: bool,
    pub global: bool,
    pub ignore_whitespace: bool,
    pub crlf: bool,
    pub dot_matches_new_line: bool,
    pub swap_greed: bool,
}

impl SedFlags {
    /// No flag set.
    pub open spec fn spec_none() -> SedFlags {
        SedFlags {
            case_insensitive: false,
            multi_line: false,
            global: false,
            ignore_whitespace: false,
            crlf: false,
            dot_matches_new_line: false,
            swap_greed: false,
        }
    }

    pub fn none() -> (r: SedFlags)
        ensures
            r == SedFlags::spec_none(),
    {
        SedFlags {
            case_insensitive: false,
            multi_line: false,
            global: false,
            ignore_whitespace: false,
            crlf: false,
            dot_matches_new_line: false,
            swap_greed: false,
        }
    }
}

/// What replacing the first match of `pattern` in `text` by `replacement`
/// yields under the given flags; an invalid pattern yields nothing.
pub uninterp spec fn sed_replace_first(
    pattern: Seq<char>,
    replacement: Seq<char>,
    text: Seq<char>,
    case_insensitive: bool,
    multi_line: bool,
    ignore_whitespace: bool,
    crlf: bool,
    dot_matches_new_line: bool,
    swap_greed: bool,
) -> Option<Seq<char>>;

/// What replacing every match of `pattern` in `text` by `replacement`
/// yields under the given flags; an invalid pattern yields nothing.
pub uninterp spec fn sed_replace_all(
    pattern: Seq<char>,
    replacement: Seq<char>,
    text: Seq<char>,
    case_insensitive: bool,
    multi_line: bool,
    ignore_whitespace: bool,
    crlf: bool,
    dot_matches_new_line: bool,
    swap_greed: bool,
) -> Option<Seq<char>>;

/// Relies on regex::RegexBuilder::build and regex::Regex::replace: the
/// replacement of the first match is a function of the pattern, the
/// replacement template, the text and the flags alone.
#[verifier::external_body]
pub fn regex_replace_first(pattern: &str, replacement: &str, text: &str, flags: SedFlags) -> (r:
    Option<String>)
    ensures
        (match (r, sed_replace_first(
            pattern@,
            replacement@,
            text@,
            flags.case_insensitive,
            flags.multi_line,
            flags.ignore_whitespace,
            flags.crlf,
            flags.dot_matches_new_line,
            flags.swap_greed,
        )) {
            (Some(p), Some(q)) => p@ == q,
            (None, None) => true,
            _ => false,
        }),
{
    let built = regex::RegexBuilder::new(pattern)
        .case_insensitive(flags.case_insensitive)
        .multi_line(flags.multi_line)
        .ignore_whitespace(flags.ignore_whitespace)
        .crlf(flags.crlf)
        .dot_matches_new_line(flags.dot_matches_new_line)
        .swap_greed(flags.swap_greed)
        .build();
    match built {
        Err(_) => None,
        Ok(re) => Some(re.replace(text, replacement).into_owned()),
    }
}

/// Relies on regex::RegexBuilder::build and regex::Regex::replace_all: the
/// replacement of every match is a function of the pattern, the replacement
/// template, the text and the flags alone.
#[verifier::external_body]
pub fn regex_replace_all(pattern: &str, replacement: &str, text: &str, flags: SedFlags) -> (r:
    Option<String>)
    ensures
        (match (r, sed_replace_all(
            pattern@,
            replacement@,
            text@,
            flags.case_insensitive,
            flags.multi_line,
            flags.ignore_whitespace,
            flags.crlf,
            flags.dot_matches_new_line,
            flags.swap_greed,
        )) {
            (Some(p), Some(q)) => p@ == q,
            (None, None) => true,
            _ => false,
        }),
{
    let built = regex::RegexBuilder::new(pattern)
        .case_insensitive(flags.case_insensitive)
        .multi_line(flags.multi_line)
        .ignore_whitespace(flags.ignore_whitespace)
        .crlf(flags.crlf)
        .dot_matches_new_line(flags.dot_matches_new_line)
        .swap_greed(flags.swap_greed)
        .build();
    match built {
        Err(_) => None,
        Ok(re) => Some(re.replace_all(text, replacement).into_owned()),
    }
}

} // verus!
