//! Calls into outside crates. Each function here is trusted: Verus believes
//! its contract without reading its body.
use crate::text::occurs_at;
use vstd::prelude::*;

verus! {

/// Whether `url::Url::parse` accepts the input.
pub uninterp spec fn url_parses(s: Seq<char>) -> bool;

/// Calls `url::Url::parse` and reports whether it succeeded. The result
/// depends on the input alone; the URL grammar is not restated here.
#[verifier::external_body]
pub(crate) fn is_url(s: &str) -> (res: bool)
    ensures
        res == url_parses(s@),
{
    url::Url::parse(s).is_ok()
}

/// The words `shell_words::split` splits its input into, or `None` when it
/// reports a parse error (such as an unterminated quote).
pub uninterp spec fn shell_words_of(s: Seq<char>) -> Option<Seq<Seq<char>>>;

/// Calls `shell_words::split`. The result depends on the input alone; the
/// shell quoting rules are not restated here.
#[verifier::external_body]
pub(crate) fn shell_split(s: &str) -> (res: Option<Vec<String>>)
    ensures
        match res {
            Some(v) => shell_words_of(s@) == Some(crate::text::views(v@)),
            None => shell_words_of(s@) is None,
        },
{
    shell_words::split(s).ok()
}

/// Calls `home::home_dir` and renders the directory as its display string.
/// The result depends on the process environment, so nothing is promised of
/// it.
#[verifier::external_body]
pub(crate) fn home_dir_display() -> (res: Option<String>) {
    home::home_dir().map(|h| h.display().to_string())
}

/// Calls `dirs::home_dir` and renders the directory as its display string.
/// The result depends on the process environment, so nothing is promised of
/// it.
#[verifier::external_body]
pub(crate) fn dirs_home_dir_display() -> (res: Option<String>) {
    dirs::home_dir().map(|h| h.display().to_string())
}

/// Draws a `u32` from `rand::thread_rng()`: a random number, of which
/// nothing is promised.
#[verifier::external_body]
pub(crate) fn random_u32() -> (res: u32) {
    rand::Rng::gen::<u32>(&mut rand::thread_rng())
}

/// The characters `regex::escape` puts a backslash in front of
/// (`regex_syntax::is_meta_character`).
pub open spec fn is_regex_meta(c: char) -> bool {
    c == '\\' || c == '.' || c == '+' || c == '*' || c == '?' || c == '(' || c == ')' || c == '|'
        || c == '[' || c == ']' || c == '{' || c == '}' || c == '^' || c == '$' || c == '#' || c == '&'
        || c == '-' || c == '~'
}

/// `regex::escape` of the input: each meta character preceded by a
/// backslash, every other character kept.
pub open spec fn regex_escaped(s: Seq<char>) -> Seq<char>
    decreases s.len(),
{
    if s.len() == 0 {
        Seq::empty()
    } else if is_regex_meta(s.last()) {
        regex_escaped(s.drop_last()) + seq!['\\', s.last()]
    } else {
        regex_escaped(s.drop_last()).push(s.last())
    }
}

/// The first position at or after `from` where `pat` occurs in `h`.
pub open spec fn first_occurrence_from(h: Seq<char>, pat: Seq<char>, from: int) -> Option<int>
    decreases h.len() - from + 1,
{
    if from < 0 || from + pat.len() > h.len() {
        None
    } else if occurs_at(h, pat, from) {
        Some(from)
    } else {
        first_occurrence_from(h, pat, from + 1)
    }
}

/// A position `first_occurrence_from` gives is at or after `from`, and `pat`
/// occurs there.
pub proof fn lemma_first_occurrence_from(h: Seq<char>, pat: Seq<char>, from: int)
    ensures
        first_occurrence_from(h, pat, from) matches Some(i) ==> from <= i && occurs_at(h, pat, i),
    decreases h.len() - from + 1,
{
    if from >= 0 && from + pat.len() <= h.len() && !occurs_at(h, pat, from) {
        lemma_first_occurrence_from(h, pat, from + 1);
    }
}

/// The pattern `(?s)<start>.*?<end>`, the markers taken literally.
pub open spec fn lazy_section_pattern(start: Seq<char>, end: Seq<char>) -> Seq<char> {
    "(?s)"@ + regex_escaped(start) + ".*?"@ + regex_escaped(end)
}

/// The pattern `(?s)<start>.*$`, the marker taken literally.
pub open spec fn open_section_pattern(start: Seq<char>) -> Seq<char> {
    "(?s)"@ + regex_escaped(start) + ".*$"@
}

/// `h` with every section from an occurrence of `start` to the nearest
/// following occurrence of `end` replaced by `r`, scanning from the left:
/// what `replace_all` gives for `lazy_section_pattern(start, end)` (its
/// leftmost match begins at the first `start` that some `end` follows, the
/// lazy `.*?` stopping at the first such `end`; the search resumes after
/// the match).
pub open spec fn splice_sections(h: Seq<char>, start: Seq<char>, end: Seq<char>, r: Seq<char>) -> Seq<char>
    decreases h.len(),
{
    if start.len() == 0 {
        h
    } else {
        match first_occurrence_from(h, start, 0) {
            None => h,
            Some(i) => match first_occurrence_from(h, end, i + start.len()) {
                None => h,
                Some(j) => {
                    proof {
                        lemma_first_occurrence_from(h, start, 0);
                        lemma_first_occurrence_from(h, end, i + start.len());
                    }
                    h.take(i) + r + splice_sections(h.skip(j + end.len()), start, end, r)
                },
            },
        }
    }
}

/// `h` with everything from the first occurrence of `start` to its end
/// replaced by `r`: what `replace_all` gives for
/// `open_section_pattern(start)` (`.*` running to the end of the text).
pub open spec fn splice_to_end(h: Seq<char>, start: Seq<char>, r: Seq<char>) -> Seq<char> {
    match first_occurrence_from(h, start, 0) {
        None => h,
        Some(i) => h.take(i) + r,
    }
}

/// `haystack` with every non-overlapping match of `pattern` replaced by
/// `replacement` taken literally, or `None` when `pattern` does not compile.
pub uninterp spec fn regex_replaced_literally(pattern: Seq<char>, haystack: Seq<char>, replacement: Seq<char>) -> Option<Seq<char>>;

/// Compiles `pattern` with `regex::Regex::new` and, when it compiles, calls
/// `replace_all` on `haystack` with `regex::NoExpand(replacement)`, so that
/// `$` in the replacement stays as written. The result depends on the
/// arguments alone. For the two section patterns built from a non-empty
/// literal start marker (whose matches are never empty) the result is
/// stated; for other patterns, regular-expression semantics are not
/// restated. Compiling can still fail (a pattern over the size limit).
#[verifier::external_body]
pub(crate) fn regex_replace_all_literally(pattern: &str, haystack: &str, replacement: &str) -> (res: Option<String>)
    ensures
        match res {
            Some(r) => regex_replaced_literally(pattern@, haystack@, replacement@) == Some(r@),
            None => regex_replaced_literally(pattern@, haystack@, replacement@) is None,
        },
        forall|st: Seq<char>, en: Seq<char>|
            #![trigger lazy_section_pattern(st, en)]
            st.len() > 0 && pattern@ == lazy_section_pattern(st, en) && res is Some ==> res->0@
                == splice_sections(haystack@, st, en, replacement@),
        forall|st: Seq<char>|
            #![trigger open_section_pattern(st)]
            st.len() > 0 && pattern@ == open_section_pattern(st) && res is Some ==> res->0@ == splice_to_end(
                haystack@,
                st,
                replacement@,
            ),
{
    regex::Regex::new(pattern).ok().map(|re| re.replace_all(haystack, regex::NoExpand(replacement)).to_string())
}

/// The value of a hexadecimal digit, in either case.
pub open spec fn hex_digit_value(c: char) -> Option<nat> {
    if '0' <= c && c <= '9' {
        Some((c as nat - '0' as nat) as nat)
    } else if 'a' <= c && c <= 'f' {
        Some((c as nat - 'a' as nat + 10) as nat)
    } else if 'A' <= c && c <= 'F' {
        Some((c as nat - 'A' as nat + 10) as nat)
    } else {
        None
    }
}

/// The value of a two-character hexadecimal byte as `u8::from_str_radix`
/// reads it with radix 16 (which allows a leading `+`).
pub open spec fn hex_pair_value(a: char, b: char) -> Option<nat> {
    if a == '+' {
        hex_digit_value(b)
    } else {
        match (hex_digit_value(a), hex_digit_value(b)) {
            (Some(x), Some(y)) => Some(16 * x + y),
            _ => None,
        }
    }
}

/// The red, green and blue channels `hex_color::HexColor::parse` reads from
/// `s`: `#RGB`, `#RGBA`, `#RRGGBB` or `#RRGGBBAA`, digits in either case, a
/// shorthand digit standing for itself repeated; the alpha channel is
/// checked and dropped. `None` where it reports an error.
pub open spec fn hex_rgb(s: Seq<char>) -> Option<(u8, u8, u8)> {
    if s.len() > 0 && s[0] == '#' && (s.len() == 4 || s.len() == 5) {
        match (hex_digit_value(s[1]), hex_digit_value(s[2]), hex_digit_value(s[3])) {
            (Some(r), Some(g), Some(b)) => if s.len() == 4 || hex_digit_value(s[4]) is Some {
                Some(((17 * r) as u8, (17 * g) as u8, (17 * b) as u8))
            } else {
                None
            },
            _ => None,
        }
    } else if s.len() > 0 && s[0] == '#' && (s.len() == 7 || s.len() == 9) {
        match (hex_pair_value(s[1], s[2]), hex_pair_value(s[3], s[4]), hex_pair_value(s[5], s[6])) {
            (Some(r), Some(g), Some(b)) => if s.len() == 7 || hex_pair_value(s[7], s[8]) is Some {
                Some((r as u8, g as u8, b as u8))
            } else {
                None
            },
            _ => None,
        }
    } else {
        None
    }
}

/// The error `hex_color::HexColor::parse` reports.
#[verifier::external_type_specification]
#[verifier::external_body]
pub struct ExParseHexColorError(hex_color::ParseHexColorError);

/// Calls `hex_color::HexColor::parse` and keeps the red, green and blue
/// channels. It succeeds exactly on the inputs `hex_rgb` reads, with the
/// channels it gives. (A non-ASCII character makes either a malformed
/// length or an invalid digit there, so the error outcome is the same as on
/// the characters.)
#[verifier::external_body]
pub(crate) fn parse_hex_color(s: &str) -> (res: Result<(u8, u8, u8), hex_color::ParseHexColorError>)
    ensures
        res is Ok <==> hex_rgb(s@) is Some,
        res matches Ok(c) ==> hex_rgb(s@) == Some(c),
{
    hex_color::HexColor::parse(s).map(|c| (c.r, c.g, c.b))
}

/// Renders a `hex_color::ParseHexColorError` with its `Display` impl, which
/// writes one of three fixed messages.
#[verifier::external_body]
pub(crate) fn hex_color_error_text(e: &hex_color::ParseHexColorError) -> (res: String)
    ensures
        res@ == "cannot parse hex color from empty string"@ || res@ == "invalid hexadecimal color format"@
            || res@ == "invalid hexadecimal digit"@,
{
    e.to_string()
}

/// `s` with each ASCII lower-case letter made upper-case.
pub open spec fn ascii_upper(s: Seq<char>) -> Seq<char> {
    s.map_values(|c: char| if 'a' <= c && c <= 'z' {
        ((c as int) - 32) as char
    } else {
        c
    })
}

/// What `str::to_uppercase` gives for `s`.
pub uninterp spec fn uppercased(s: Seq<char>) -> Seq<char>;

/// Calls `str::to_uppercase`. The result depends on the input alone; on
/// ASCII text it upper-cases the letters `a` to `z` and keeps every other
/// character, as its documentation says. Unicode case mapping beyond ASCII
/// is not restated.
#[verifier::external_body]
pub(crate) fn str_to_uppercase(s: &str) -> (res: String)
    ensures
        res@ == uppercased(s@),
        (forall|i: int| 0 <= i < s@.len() ==> (#[trigger] s@[i] as int) < 128) ==> res@ == ascii_upper(s@),
{
    s.to_uppercase()
}

} // verus!
