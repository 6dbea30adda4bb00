//! Text handling: whitespace trimming and sanitization of user-submitted text.

use vstd::prelude::*;
use vstd::string::*;

verus! {

/// The Unicode `White_Space` property, as `char::is_whitespace` documents it.
pub open spec fn is_white_space(c: char) -> bool {
    let u = c as u32;
    ||| 0x09 <= u <= 0x0D
    ||| u == 0x20
    ||| u == 0x85
    ||| u == 0xA0
    ||| u == 0x1680
    ||| 0x2000 <= u <= 0x200A
    ||| u == 0x2028
    ||| u == 0x2029
    ||| u == 0x202F
    ||| u == 0x205F
    ||| u == 0x3000
}

/// Decides `is_white_space`.
pub fn white_space(c: char) -> (b: bool)
    ensures
        b == is_white_space(c),
{
    let u = c as u32;
    (0x09 <= u && u <= 0x0D) || u == 0x20 || u == 0x85 || u == 0xA0 || u == 0x1680 || (0x2000
        <= u && u <= 0x200A) || u == 0x2028 || u == 0x2029 || u == 0x202F || u == 0x205F || u
        == 0x3000
}

/// `s` without its leading whitespace.
pub open spec fn trim_start(s: Seq<char>) -> Seq<char>
    decreases s.len(),
{
    if s.len() > 0 && is_white_space(s[0]) {
        trim_start(s.drop_first())
    } else {
        s
    }
}

/// `s` without its trailing whitespace.
pub open spec fn trim_end(s: Seq<char>) -> Seq<char>
    decreases s.len(),
{
    if s.len() > 0 && is_white_space(s.last()) {
        trim_end(s.drop_last())
    } else {
        s
    }
}

/// `s` without leading and trailing whitespace.
pub open spec fn spec_trim(s: Seq<char>) -> Seq<char> {
    trim_end(trim_start(s))
}

/// Removes leading and trailing whitespace, as `str::trim` does.
pub fn trim(s: &str) -> (r: String)
    ensures
        r@ == spec_trim(s@),
{
    let n = s.unicode_len();
    let mut i: usize = 0;
    assert(s@.subrange(0, n as int) =~= s@);
    while i < n && white_space(s.get_char(i))
        invariant
            n == s@.len(),
            i <= n,
            trim_start(s@) == trim_start(s@.subrange(i as int, n as int)),
        decreases n - i,
    {
        assert(s@.subrange(i as int, n as int).drop_first() =~= s@.subrange(i + 1, n as int));
        i = i + 1;
    }
    let ghost start = s@.subrange(i as int, n as int);
    assert(trim_start(start) == start);
    let mut j: usize = n;
    while j > i && white_space(s.get_char(j - 1))
        invariant
            n == s@.len(),
            i <= j <= n,
            start == s@.subrange(i as int, n as int),
            trim_end(start) == trim_end(s@.subrange(i as int, j as int)),
        decreases j - i,
    {
        assert(s@.subrange(i as int, j as int).drop_last() =~= s@.subrange(i as int, j - 1));
        j = j - 1;
    }
    let sub = s.substring_char(i, j);
    String::from_str(sub)
}

/// Whether `regex::Regex::new` accepts the pattern.
pub uninterp spec fn regex_compiles(pattern: Seq<char>) -> bool;

/// What `regex::Regex::replace_all` returns for a compiled pattern, a haystack and
/// a replacement template.
pub uninterp spec fn regex_replace_all(pattern: Seq<char>, haystack: Seq<char>, replacement: Seq<char>) -> Seq<char>;

/// Compiles `pattern` with `regex::Regex::new` and, when it compiles, replaces
/// every match in `haystack` by `replacement` with `Regex::replace_all`.
/// Trusted: the result is `Some` exactly when the pattern compiles, and then it is
/// `regex_replace_all` of the three strings; the regex semantics are not restated.
#[verifier::external_body]
fn replace_all_matches(pattern: &str, haystack: &str, replacement: &str) -> (r: Option<String>)
    ensures
        r is Some <==> regex_compiles(pattern@),
        r matches Some(t) ==> t@ == regex_replace_all(pattern@, haystack@, replacement@),
{
    match regex::Regex::new(pattern) {
        Ok(re) => Some(re.replace_all(haystack, replacement).into_owned()),
        Err(_) => None,
    }
}

/// What `ammonia::clean` returns for a string.
pub uninterp spec fn ammonia_clean(s: Seq<char>) -> Seq<char>;

/// Calls `ammonia::clean`. Trusted: the result is `ammonia_clean` of the input,
/// a function of the input alone (ammonia's default, fixed cleaner).
#[verifier::external_body]
fn clean_html(s: &str) -> (r: String)
    ensures
        r@ == ammonia_clean(s@),
{
    ammonia::clean(s)
}

/// Matches an HTML tag.
pub const TAG_PATTERN: &'static str = "<[^>]+>";
/// Matches text between a pair of asterisks.
pub const ITALIC_PATTERN: &'static str = "\\*([^*]+)\\*";
/// Matches a plain `http://` link.
pub const URL_PATTERN: &'static str = "http://[^\\s]+";
/// Replaces an asterisk pair by an `<i>` element.
pub const ITALIC_REPLACEMENT: &'static str = "<i>$1</i>";
/// Replaces a link by an anchor pointing at it.
pub const URL_REPLACEMENT: &'static str = "<a href=\"$0\">$0</a>";

/// Whether the three patterns of the sanitizer compile.
pub open spec fn sanitizer_patterns_compile() -> bool {
    regex_compiles(TAG_PATTERN@) && regex_compiles(ITALIC_PATTERN@) && regex_compiles(URL_PATTERN@)
}

/// The sanitized form of `text`: trim, drop tags, turn `*x*` into `<i>x</i>`,
/// turn `http://` links into anchors, then clean with ammonia.
pub open spec fn spec_sanitize(text: Seq<char>) -> Seq<char> {
    let t0 = spec_trim(text);
    let t1 = regex_replace_all(TAG_PATTERN@, t0, ""@);
    let t2 = regex_replace_all(ITALIC_PATTERN@, t1, ITALIC_REPLACEMENT@);
    let t3 = regex_replace_all(URL_PATTERN@, t2, URL_REPLACEMENT@);
    ammonia_clean(t3)
}

/// Replaces every match of a pattern known to compile.
fn replace_all_compiled(pattern: &str, haystack: &str, replacement: &str) -> (r: String)
    requires
        regex_compiles(pattern@),
    ensures
        r@ == regex_replace_all(pattern@, haystack@, replacement@),
{
    match replace_all_matches(pattern, haystack, replacement) {
        Some(t) => t,
        None => {
            assert(false);
            String::new()
        },
    }
}

/// Sanitizes user text: trims whitespace, removes HTML tags, renders
/// `*italic*` markup, links `http://` URLs, and strips anything unsafe with
/// ammonia. The patterns must compile (they are fixed; `try_sanitize_text`
/// checks them).
pub fn sanitize_text(text: &str) -> (r: String)
    requires
        sanitizer_patterns_compile(),
    ensures
        r@ == spec_sanitize(text@),
{
    let trimmed = trim(text);
    let no_tags = replace_all_compiled(TAG_PATTERN, trimmed.as_str(), "");
    let italic = replace_all_compiled(ITALIC_PATTERN, no_tags.as_str(), ITALIC_REPLACEMENT);
    let linked = replace_all_compiled(URL_PATTERN, italic.as_str(), URL_REPLACEMENT);
    clean_html(linked.as_str())
}

/// Checks that the sanitizer's patterns compile, then sanitizes `text`;
/// `None` when a pattern does not compile.
pub fn try_sanitize_text(text: &str) -> (r: Option<String>)
    ensures
        r is Some <==> sanitizer_patterns_compile(),
        r matches Some(s) ==> s@ == spec_sanitize(text@),
{
    let compiles = replace_all_matches(TAG_PATTERN, "", "").is_some() && replace_all_matches(
        ITALIC_PATTERN,
        "",
        "",
    ).is_some() && replace_all_matches(URL_PATTERN, "", "").is_some();
    if compiles {
        Some(sanitize_text(text))
    } else {
        None
    }
}

pub open spec fn opt_string_view(o: Option<String>) -> Option<Seq<char>> {
    match o {
        Some(s) => Some(s@),
        None => None,
    }
}

} // verus!
