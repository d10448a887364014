use vstd::prelude::*;
use crate::patterns::{compiles_pattern, pattern_compiles};

verus! {

/// The leaf predicates known to this build, by their registered names.
/// Each one is a syntactic check over the characters of a string; the
/// shapes accepted are deliberately coarse approximations of the formats
/// they are named after.
#[derive(Clone, Copy, PartialEq, Eq, Structural, Debug)]
pub enum FormatName {
    Date,
    DateTime,
    Email,
    Hostname,
    IdnEmail,
    IdnHostname,
    Ipv4,
    Ipv6,
    Iri,
    IriReference,
    JsonPointer,
    Regex,
    RelativeJsonPointer,
    Time,
    Uri,
    UriReference,
    UriTemplate,
}

pub open spec fn is_digit(c: char) -> bool {
    '0' <= c && c <= '9'
}

pub open spec fn is_alpha(c: char) -> bool {
    ('a' <= c && c <= 'z') || ('A' <= c && c <= 'Z')
}

pub open spec fn is_hex_digit(c: char) -> bool {
    is_digit(c) || ('a' <= c && c <= 'f') || ('A' <= c && c <= 'F')
}

pub open spec fn is_hostname_char(c: char) -> bool {
    is_alpha(c) || is_digit(c) || c == '-' || c == '.'
}

pub open spec fn contains_char(s: Seq<char>, c: char) -> bool {
    exists|i: int| 0 <= i < s.len() && s[i] == c
}

/// The numeric value of a digit character.
pub open spec fn digit_val(c: char) -> int {
    (c as u32) as int - 48
}

/// Contains an `@`, somewhere.
pub open spec fn email_ok(s: Seq<char>) -> bool {
    contains_char(s, '@')
}

/// Nonempty, at most 253 characters, all of them letters, digits, `-` or `.`.
pub open spec fn hostname_ok(s: Seq<char>) -> bool {
    1 <= s.len() <= 253 && forall|i: int| 0 <= i < s.len() ==> is_hostname_char(#[trigger] s[i])
}

/// Four dot-separated groups of one to three digits. Octet values are not
/// bounded.
pub open spec fn ipv4_ok(s: Seq<char>) -> bool {
    &&& s.len() >= 1
    &&& s[0] != '.'
    &&& s[s.len() - 1] != '.'
    &&& forall|i: int| 0 <= i < s.len() ==> is_digit(#[trigger] s[i]) || s[i] == '.'
    &&& forall|i: int| 0 <= i < s.len() - 1 ==> !(#[trigger] s[i] == '.' && s[i + 1] == '.')
    &&& forall|i: int|
        0 <= i <= s.len() - 4 ==> !(is_digit(#[trigger] s[i]) && is_digit(s[i + 1]) && is_digit(
            s[i + 2],
        ) && is_digit(s[i + 3]))
    &&& dot_count_from(s, 0) == 3
}

pub open spec fn dot_count_from(s: Seq<char>, i: int) -> int
    decreases s.len() - i,
{
    if i < 0 || i >= s.len() {
        0
    } else {
        (if s[i] == '.' {
            1int
        } else {
            0int
        }) + dot_count_from(s, i + 1)
    }
}

/// At least two characters, a colon somewhere, and only hexadecimal digits
/// and colons.
pub open spec fn ipv6_ok(s: Seq<char>) -> bool {
    s.len() >= 2 && contains_char(s, ':') && forall|i: int|
        0 <= i < s.len() ==> is_hex_digit(#[trigger] s[i]) || s[i] == ':'
}

/// A scheme: a leading letter followed, somewhere, by a colon.
pub open spec fn iri_ok(s: Seq<char>) -> bool {
    s.len() >= 1 && is_alpha(s[0]) && contains_char(s, ':')
}

/// No space characters.
pub open spec fn uri_reference_ok(s: Seq<char>) -> bool {
    forall|i: int| 0 <= i < s.len() ==> #[trigger] s[i] != ' '
}

/// Empty, or rooted at a `/`.
pub open spec fn json_pointer_ok(s: Seq<char>) -> bool {
    s.len() == 0 || s[0] == '/'
}

/// A leading digit.
pub open spec fn relative_json_pointer_ok(s: Seq<char>) -> bool {
    s.len() >= 1 && is_digit(s[0])
}

/// The shape `YYYY-MM-DD`, with month and day in calendar range.
pub open spec fn date_ok(s: Seq<char>) -> bool {
    &&& s.len() == 10
    &&& is_digit(s[0]) && is_digit(s[1]) && is_digit(s[2]) && is_digit(s[3])
    &&& s[4] == '-'
    &&& is_digit(s[5]) && is_digit(s[6])
    &&& s[7] == '-'
    &&& is_digit(s[8]) && is_digit(s[9])
    &&& 1 <= digit_val(s[5]) * 10 + digit_val(s[6]) <= 12
    &&& 1 <= digit_val(s[8]) * 10 + digit_val(s[9]) <= 31
}

/// The shape `HH:MM:SS`, with the fields in clock range.
pub open spec fn time_ok(s: Seq<char>) -> bool {
    &&& s.len() == 8
    &&& is_digit(s[0]) && is_digit(s[1])
    &&& s[2] == ':'
    &&& is_digit(s[3]) && is_digit(s[4])
    &&& s[5] == ':'
    &&& is_digit(s[6]) && is_digit(s[7])
    &&& digit_val(s[0]) * 10 + digit_val(s[1]) <= 23
    &&& digit_val(s[3]) * 10 + digit_val(s[4]) <= 59
    &&& digit_val(s[6]) * 10 + digit_val(s[7]) <= 59
}

/// A date, a `T`, a time.
pub open spec fn datetime_ok(s: Seq<char>) -> bool {
    s.len() == 19 && date_ok(s.subrange(0, 10)) && s[10] == 'T' && time_ok(s.subrange(11, 19))
}

/// What the predicate named `f` accepts.
pub open spec fn format_ok(f: FormatName, s: Seq<char>) -> bool {
    match f {
        FormatName::Date => date_ok(s),
        FormatName::DateTime => datetime_ok(s),
        FormatName::Email => email_ok(s),
        FormatName::Hostname => hostname_ok(s),
        FormatName::IdnEmail => email_ok(s),
        FormatName::IdnHostname => hostname_ok(s),
        FormatName::Ipv4 => ipv4_ok(s),
        FormatName::Ipv6 => ipv6_ok(s),
        FormatName::Iri => iri_ok(s),
        FormatName::IriReference => uri_reference_ok(s),
        FormatName::JsonPointer => json_pointer_ok(s),
        FormatName::Regex => pattern_compiles(s),
        FormatName::RelativeJsonPointer => relative_json_pointer_ok(s),
        FormatName::Time => time_ok(s),
        FormatName::Uri => iri_ok(s),
        FormatName::UriReference => uri_reference_ok(s),
        FormatName::UriTemplate => uri_reference_ok(s),
    }
}

#[verifier::loop_isolation(false)]
fn has_char(s: &str, c: char) -> (r: bool)
    ensures
        r == contains_char(s@, c),
{
    let n: usize = s.unicode_len();
    let mut i: usize = 0;
    while i < n
        invariant
            i <= n,
            forall|t: int| 0 <= t < i ==> s@[t] != c,
        decreases n - i,
    {
        if s.get_char(i) == c {
            return true;
        }
        i += 1;
    }
    false
}

fn digit(c: char) -> (r: bool)
    ensures
        r == is_digit(c),
{
    '0' <= c && c <= '9'
}

fn alpha(c: char) -> (r: bool)
    ensures
        r == is_alpha(c),
{
    ('a' <= c && c <= 'z') || ('A' <= c && c <= 'Z')
}

pub fn email(s: &str) -> (r: bool)
    ensures
        r == email_ok(s@),
{
    has_char(s, '@')
}

#[verifier::loop_isolation(false)]
pub fn hostname(s: &str) -> (r: bool)
    ensures
        r == hostname_ok(s@),
{
    let n: usize = s.unicode_len();
    if n < 1 || n > 253 {
        return false;
    }
    let mut i: usize = 0;
    while i < n
        invariant
            i <= n,
            forall|t: int| 0 <= t < i ==> is_hostname_char(#[trigger] s@[t]),
        decreases n - i,
    {
        let c = s.get_char(i);
        if !(alpha(c) || digit(c) || c == '-' || c == '.') {
            return false;
        }
        i += 1;
    }
    true
}

#[verifier::loop_isolation(false)]
pub fn ipv4(s: &str) -> (r: bool)
    ensures
        r == ipv4_ok(s@),
{
    let n: usize = s.unicode_len();
    if n < 1 {
        return false;
    }
    if s.get_char(0) == '.' {
        return false;
    }
    if s.get_char(n - 1) == '.' {
        return false;
    }
    let mut i: usize = 0;
    let mut dots: usize = 0;
    let mut run: usize = 0;
    while i < n
        invariant
            i <= n,
            run <= i,
            run <= 3,
            dots <= i,
            forall|t: int| 0 <= t < i ==> is_digit(#[trigger] s@[t]) || s@[t] == '.',
            forall|t: int| 0 <= t < i - 1 ==> !(#[trigger] s@[t] == '.' && s@[t + 1] == '.'),
            forall|t: int|
                0 <= t <= i - 4 ==> !(is_digit(#[trigger] s@[t]) && is_digit(s@[t + 1]) && is_digit(
                    s@[t + 2],
                ) && is_digit(s@[t + 3])),
            forall|t: int| i - run <= t < i ==> is_digit(#[trigger] s@[t]),
            run == i || !is_digit(s@[i as int - run - 1]),
            dots + dot_count_from(s@, i as int) == dot_count_from(s@, 0),
        decreases n - i,
    {
        let c = s.get_char(i);
        if digit(c) {
            if run == 3 {
                proof {
                    assert(is_digit(s@[i as int - 3]) && is_digit(s@[i as int - 2]) && is_digit(
                        s@[i as int - 1],
                    ) && is_digit(s@[i as int]));
                }
                return false;
            }
            run = run + 1;
        } else if c == '.' {
            if i > 0 && s.get_char(i - 1) == '.' {
                return false;
            }
            if dots == 3 {
                proof {
                    lemma_dot_count_bounds(s@, i as int + 1);
                }
                return false;
            }
            dots = dots + 1;
            run = 0;
        } else {
            return false;
        }
        i += 1;
    }
    if dots == 3 {
        true
    } else {
        false
    }
}

proof fn lemma_dot_count_bounds(s: Seq<char>, i: int)
    requires
        0 <= i <= s.len(),
    ensures
        dot_count_from(s, i) >= 0,
    decreases s.len() - i,
{
    if i < s.len() {
        lemma_dot_count_bounds(s, i + 1);
    }
}

#[verifier::loop_isolation(false)]
pub fn ipv6(s: &str) -> (r: bool)
    ensures
        r == ipv6_ok(s@),
{
    let n: usize = s.unicode_len();
    if n < 2 {
        return false;
    }
    let mut i: usize = 0;
    let mut colon: bool = false;
    while i < n
        invariant
            i <= n,
            forall|t: int| 0 <= t < i ==> is_hex_digit(#[trigger] s@[t]) || s@[t] == ':',
            colon == exists|t: int| 0 <= t < i && s@[t] == ':',
        decreases n - i,
    {
        let c = s.get_char(i);
        if c == ':' {
            colon = true;
        } else if !(digit(c) || ('a' <= c && c <= 'f') || ('A' <= c && c <= 'F')) {
            return false;
        }
        i += 1;
    }
    colon
}

pub fn iri(s: &str) -> (r: bool)
    ensures
        r == iri_ok(s@),
{
    let n: usize = s.unicode_len();
    if n < 1 {
        return false;
    }
    if !alpha(s.get_char(0)) {
        return false;
    }
    has_char(s, ':')
}

#[verifier::loop_isolation(false)]
pub fn uri_reference(s: &str) -> (r: bool)
    ensures
        r == uri_reference_ok(s@),
{
    let n: usize = s.unicode_len();
    let mut i: usize = 0;
    while i < n
        invariant
            i <= n,
            forall|t: int| 0 <= t < i ==> #[trigger] s@[t] != ' ',
        decreases n - i,
    {
        if s.get_char(i) == ' ' {
            return false;
        }
        i += 1;
    }
    true
}

pub fn json_pointer(s: &str) -> (r: bool)
    ensures
        r == json_pointer_ok(s@),
{
    let n: usize = s.unicode_len();
    if n == 0 {
        return true;
    }
    s.get_char(0) == '/'
}

pub fn relative_json_pointer(s: &str) -> (r: bool)
    ensures
        r == relative_json_pointer_ok(s@),
{
    let n: usize = s.unicode_len();
    if n < 1 {
        return false;
    }
    digit(s.get_char(0))
}

/// The `regex` format: the string must itself be a compilable pattern.
pub fn regex_format(s: &str) -> (r: bool)
    ensures
        r == pattern_compiles(s@),
{
    compiles_pattern(s)
}

pub fn date(s: &str) -> (r: bool)
    ensures
        r == date_ok(s@),
{
    let n: usize = s.unicode_len();
    if n != 10 {
        return false;
    }
    let c0 = s.get_char(0);
    let c1 = s.get_char(1);
    let c2 = s.get_char(2);
    let c3 = s.get_char(3);
    let c4 = s.get_char(4);
    let c5 = s.get_char(5);
    let c6 = s.get_char(6);
    let c7 = s.get_char(7);
    let c8 = s.get_char(8);
    let c9 = s.get_char(9);
    if !(digit(c0) && digit(c1) && digit(c2) && digit(c3)) {
        return false;
    }
    if c4 != '-' || c7 != '-' {
        return false;
    }
    if !(digit(c5) && digit(c6) && digit(c8) && digit(c9)) {
        return false;
    }
    let month: u32 = (c5 as u32 - 48) * 10 + (c6 as u32 - 48);
    let day: u32 = (c8 as u32 - 48) * 10 + (c9 as u32 - 48);
    1 <= month && month <= 12 && 1 <= day && day <= 31
}

pub fn time(s: &str) -> (r: bool)
    ensures
        r == time_ok(s@),
{
    let n: usize = s.unicode_len();
    if n != 8 {
        return false;
    }
    let c0 = s.get_char(0);
    let c1 = s.get_char(1);
    let c2 = s.get_char(2);
    let c3 = s.get_char(3);
    let c4 = s.get_char(4);
    let c5 = s.get_char(5);
    let c6 = s.get_char(6);
    let c7 = s.get_char(7);
    if c2 != ':' || c5 != ':' {
        return false;
    }
    if !(digit(c0) && digit(c1) && digit(c3) && digit(c4) && digit(c6) && digit(c7)) {
        return false;
    }
    let hour: u32 = (c0 as u32 - 48) * 10 + (c1 as u32 - 48);
    let minute: u32 = (c3 as u32 - 48) * 10 + (c4 as u32 - 48);
    let second: u32 = (c6 as u32 - 48) * 10 + (c7 as u32 - 48);
    hour <= 23 && minute <= 59 && second <= 59
}

pub fn datetime(s: &str) -> (r: bool)
    ensures
        r == datetime_ok(s@),
{
    let n: usize = s.unicode_len();
    if n != 19 {
        return false;
    }
    if s.get_char(10) != 'T' {
        return false;
    }
    let d = s.substring_char(0, 10);
    let t = s.substring_char(11, 19);
    date(d) && time(t)
}

/// The diagnostic label of a `format` node, naming its predicate.
pub open spec fn format_label(f: FormatName) -> Seq<char> {
    match f {
        FormatName::Date => "<format: date>"@,
        FormatName::DateTime => "<format: date-time>"@,
        FormatName::Email => "<format: email>"@,
        FormatName::Hostname => "<format: hostname>"@,
        FormatName::IdnEmail => "<format: idn-email>"@,
        FormatName::IdnHostname => "<format: idn-hostname>"@,
        FormatName::Ipv4 => "<format: ipv4>"@,
        FormatName::Ipv6 => "<format: ipv6>"@,
        FormatName::Iri => "<format: iri>"@,
        FormatName::IriReference => "<format: iri-reference>"@,
        FormatName::JsonPointer => "<format: json-pointer>"@,
        FormatName::Regex => "<format: regex>"@,
        FormatName::RelativeJsonPointer => "<format: relative-json-pointer>"@,
        FormatName::Time => "<format: time>"@,
        FormatName::Uri => "<format: uri>"@,
        FormatName::UriReference => "<format: uri-reference>"@,
        FormatName::UriTemplate => "<format: uri-template>"@,
    }
}

/// Runs the predicate named `f` on the string.
pub fn check_format(f: FormatName, s: &str) -> (r: bool)
    ensures
        r == format_ok(f, s@),
{
    match f {
        FormatName::Date => date(s),
        FormatName::DateTime => datetime(s),
        FormatName::Email => email(s),
        FormatName::Hostname => hostname(s),
        FormatName::IdnEmail => email(s),
        FormatName::IdnHostname => hostname(s),
        FormatName::Ipv4 => ipv4(s),
        FormatName::Ipv6 => ipv6(s),
        FormatName::Iri => iri(s),
        FormatName::IriReference => uri_reference(s),
        FormatName::JsonPointer => json_pointer(s),
        FormatName::Regex => regex_format(s),
        FormatName::RelativeJsonPointer => relative_json_pointer(s),
        FormatName::Time => time(s),
        FormatName::Uri => iri(s),
        FormatName::UriReference => uri_reference(s),
        FormatName::UriTemplate => uri_reference(s),
    }
}

} // verus!
