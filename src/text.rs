//! Text helpers for settings typed by hand: trimming, patterns, decimal
//! numbers.
use vstd::prelude::*;

verus! {

/// A character with Unicode's `White_Space` property, as `char::is_whitespace`
/// lists them.
pub open spec fn is_white_space(c: char) -> bool {
    ||| c == '\t' || c == '\n' || c == '\u{0B}' || c == '\u{0C}' || c == '\r' || c == ' '
    ||| c == '\u{85}' || c == '\u{A0}' || c == '\u{1680}'
    ||| ('\u{2000}' <= c && c <= '\u{200A}')
    ||| c == '\u{2028}' || c == '\u{2029}' || c == '\u{202F}' || c == '\u{205F}' || c == '\u{3000}'
}

/// The text without its leading white space.
pub open spec fn trim_start_spec(s: Seq<char>) -> Seq<char>
    decreases s.len(),
{
    if s.len() > 0 && is_white_space(s[0]) {
        trim_start_spec(s.drop_first())
    } else {
        s
    }
}

/// The text without its trailing white space.
pub open spec fn trim_end_spec(s: Seq<char>) -> Seq<char>
    decreases s.len(),
{
    if s.len() > 0 && is_white_space(s.last()) {
        trim_end_spec(s.drop_last())
    } else {
        s
    }
}

/// The text with leading and trailing white space removed.
pub open spec fn trimmed(s: Seq<char>) -> Seq<char> {
    trim_end_spec(trim_start_spec(s))
}

proof fn lemma_trim_start_shape(s: Seq<char>)
    ensures
        trim_start_spec(s).len() == 0 || !is_white_space(trim_start_spec(s)[0]),
    decreases s.len(),
{
    if s.len() > 0 && is_white_space(s[0]) {
        lemma_trim_start_shape(s.drop_first());
    }
}

proof fn lemma_trim_end_shape(s: Seq<char>)
    ensures
        trim_end_spec(s).len() <= s.len(),
        trim_end_spec(s) == s.subrange(0, trim_end_spec(s).len() as int),
        trim_end_spec(s).len() == 0 || !is_white_space(trim_end_spec(s).last()),
    decreases s.len(),
{
    if s.len() > 0 && is_white_space(s.last()) {
        lemma_trim_end_shape(s.drop_last());
        let t = trim_end_spec(s.drop_last());
        assert(s.drop_last().subrange(0, t.len() as int) =~= s.subrange(0, t.len() as int));
    } else {
        assert(s.subrange(0, s.len() as int) =~= s);
    }
}

/// A text that neither starts nor ends with white space is its own trim.
pub proof fn lemma_trim_keeps_bare_text(s: Seq<char>)
    requires
        s.len() == 0 || (!is_white_space(s[0]) && !is_white_space(s.last())),
    ensures
        trimmed(s) == s,
{
}

/// Trimming twice is trimming once.
pub proof fn lemma_trim_is_idempotent(s: Seq<char>)
    ensures
        trimmed(trimmed(s)) == trimmed(s),
{
    let a = trim_start_spec(s);
    let t = trim_end_spec(a);
    lemma_trim_start_shape(s);
    lemma_trim_end_shape(a);
    if t.len() > 0 {
        assert(t[0] == a[0]);
    }
    assert(trim_start_spec(t) == t);
    assert(trim_end_spec(t) == t);
}

/// Relies on `str::trim`, documented to remove leading and trailing
/// characters with the `White_Space` property.
#[verifier::external_body]
pub(crate) fn trim_to_string(s: &str) -> (r: String)
    ensures
        r@ == trimmed(s@),
{
    s.trim().to_string()
}

/// Whether `pattern`, compiled as a regular expression, matches somewhere in
/// `text`; `None` when `pattern` does not compile.
pub uninterp spec fn regex_match(pattern: Seq<char>, text: Seq<char>) -> Option<bool>;

/// Relies on `regex::Regex::new` and `Regex::is_match`: the outcome depends
/// on the pattern and the text alone.
#[verifier::external_body]
pub(crate) fn regex_is_match(pattern: &str, text: &str) -> (r: Option<bool>)
    ensures
        r == regex_match(pattern@, text@),
{
    match regex::Regex::new(pattern) {
        Ok(re) => Some(re.is_match(text)),
        Err(_) => None,
    }
}

pub open spec fn is_ascii_digit(c: char) -> bool {
    '0' <= c && c <= '9'
}

/// The value of a run of decimal digits.
pub open spec fn digits_value(s: Seq<char>) -> int
    decreases s.len(),
{
    if s.len() == 0 {
        0
    } else {
        digits_value(s.drop_last()) * 10 + (s.last() as int - '0' as int)
    }
}

/// The digits of a number as `u64::from_str` reads it: an optional `+`,
/// then the digits.
pub open spec fn unsigned_digits(s: Seq<char>) -> Seq<char> {
    if s.len() > 0 && s[0] == '+' {
        s.drop_first()
    } else {
        s
    }
}

/// What `u64::from_str` makes of a text: one or more ASCII digits after an
/// optional `+`, whose value fits in a `u64`.
pub open spec fn parsed_u64(s: Seq<char>) -> Option<u64> {
    let d = unsigned_digits(s);
    if d.len() > 0 && (forall|i: int| 0 <= i < d.len() ==> is_ascii_digit(#[trigger] d[i]))
        && digits_value(d) <= u64::MAX {
        Some(digits_value(d) as u64)
    } else {
        None
    }
}

/// Relies on `u64::from_str`, whose documentation gives the accepted form:
/// an optional `+` followed by digits, with no other character.
#[verifier::external_body]
pub(crate) fn parse_u64(s: &str) -> (r: Option<u64>)
    ensures
        r == parsed_u64(s@),
{
    s.parse::<u64>().ok()
}

/// The character of a decimal digit.
pub open spec fn digit_char(d: nat) -> char {
    if d == 0 {
        '0'
    } else if d == 1 {
        '1'
    } else if d == 2 {
        '2'
    } else if d == 3 {
        '3'
    } else if d == 4 {
        '4'
    } else if d == 5 {
        '5'
    } else if d == 6 {
        '6'
    } else if d == 7 {
        '7'
    } else if d == 8 {
        '8'
    } else {
        '9'
    }
}

/// The decimal form of a number, without leading zeros.
pub open spec fn decimal_string(n: nat) -> Seq<char>
    decreases n,
{
    if n < 10 {
        seq![digit_char(n)]
    } else {
        decimal_string(n / 10).push(digit_char(n % 10))
    }
}

/// Relies on the `Display` form of `u64`: its decimal digits, without
/// leading zeros or sign.
#[verifier::external_body]
pub(crate) fn u64_to_decimal(n: u64) -> (r: String)
    ensures
        r@ == decimal_string(n as nat),
{
    n.to_string()
}

/// What `u32::from_str` makes of a text: as for `u64`, with a value that
/// fits in a `u32`.
pub open spec fn parsed_u32(s: Seq<char>) -> Option<u32> {
    match parsed_u64(s) {
        Some(n) => if n <= u32::MAX {
            Some(n as u32)
        } else {
            None
        },
        None => None,
    }
}

/// Relies on `u32::from_str`, whose documentation gives the accepted form:
/// an optional `+` followed by digits, with no other character.
#[verifier::external_body]
pub(crate) fn parse_u32(s: &str) -> (r: Option<u32>)
    ensures
        r == parsed_u32(s@),
{
    s.parse::<u32>().ok()
}

/// Relies on the `Display` form of `u32`: its decimal digits, without
/// leading zeros or sign.
#[verifier::external_body]
pub(crate) fn u32_to_decimal(n: u32) -> (r: String)
    ensures
        r@ == decimal_string(n as nat),
{
    n.to_string()
}

/// The pieces of a text between the occurrences of `sep`: one more piece
/// than there are separators.
pub open spec fn split_at_char(s: Seq<char>, sep: char) -> Seq<Seq<char>>
    decreases s.len(),
{
    if s.len() == 0 {
        seq![Seq::empty()]
    } else {
        let rest = split_at_char(s.drop_last(), sep);
        if s.last() == sep {
            rest.push(Seq::empty())
        } else {
            rest.update(rest.len() - 1, rest.last().push(s.last()))
        }
    }
}

/// Relies on `str::split` with a character pattern.
#[verifier::external_body]
pub(crate) fn split_on(s: &str, sep: char) -> (r: Vec<String>)
    ensures
        r@.map_values(|p: String| p@) == split_at_char(s@, sep),
{
    s.split(sep).map(|p| p.to_string()).collect()
}

/// The pieces joined, with `sep` between two neighbours.
pub open spec fn join_with(parts: Seq<Seq<char>>, sep: char) -> Seq<char>
    decreases parts.len(),
{
    if parts.len() == 0 {
        Seq::empty()
    } else if parts.len() == 1 {
        parts[0]
    } else {
        join_with(parts.drop_last(), sep).push(sep) + parts.last()
    }
}

/// Relies on `[String]::join` with a one-character separator.
#[verifier::external_body]
pub(crate) fn join_on(parts: &Vec<String>, sep: char) -> (r: String)
    ensures
        r@ == join_with(parts@.map_values(|p: String| p@), sep),
{
    parts.join(sep.to_string().as_str())
}

} // verus!
