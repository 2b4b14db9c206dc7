//! Predicates over the text fields of requests and of the settings.
//!
//! Each predicate `p` is an executable function whose result is exactly the
//! grammar `p_spec` below. No predicate accepts a value with whitespace at
//! either end.
use vstd::prelude::*;

use crate::text::{chars_of, same_text};

verus! {

/// The character sets that the grammars below are built from.
#[derive(Clone, Copy, Debug, PartialEq, Eq)]
pub enum CharClass {
    /// `0-9`
    Digit,
    /// `A-Z`, `0-9`
    UpperAlnum,
    /// `A-Z`, `a-z`, `0-9`, `+`, `/`, `=`
    Base64,
    /// `A-Z`, `a-z`, `0-9`, `.`, `_`
    KeyChar,
    /// `A-Z`, `a-z`, `0-9`, `-`, `.`
    HostChar,
    /// the characters of the local part of an address
    LocalChar,
    /// `A-Z`, `a-z`, `0-9`, `-`, `.`, `_`, `~`, `/`
    PathChar,
    /// printable characters but `@`: no control character
    NameChar,
}

pub open spec fn is_digit(c: char) -> bool {
    '0' <= c && c <= '9'
}

pub open spec fn is_upper(c: char) -> bool {
    'A' <= c && c <= 'Z'
}

pub open spec fn is_lower(c: char) -> bool {
    'a' <= c && c <= 'z'
}

pub open spec fn is_alnum(c: char) -> bool {
    is_digit(c) || is_upper(c) || is_lower(c)
}

pub open spec fn is_local_symbol(c: char) -> bool {
    c == '!' || c == '#' || c == '$' || c == '%' || c == '&' || c == '\'' || c == '*' || c
        == '+' || c == '-' || c == '/' || c == '=' || c == '?' || c == '^' || c == '_' || c
        == '`' || c == '{' || c == '|' || c == '}' || c == '~' || c == '.'
}

pub open spec fn class_has(k: CharClass, c: char) -> bool {
    match k {
        CharClass::Digit => is_digit(c),
        CharClass::UpperAlnum => is_upper(c) || is_digit(c),
        CharClass::Base64 => is_alnum(c) || c == '+' || c == '/' || c == '=',
        CharClass::KeyChar => is_alnum(c) || c == '.' || c == '_',
        CharClass::HostChar => is_alnum(c) || c == '-' || c == '.',
        CharClass::LocalChar => is_alnum(c) || is_local_symbol(c),
        CharClass::PathChar => is_alnum(c) || c == '-' || c == '.' || c == '_' || c == '~' || c
            == '/',
        CharClass::NameChar => !is_control(c) && c != '@',
    }
}

/// The control characters: C0, delete, and C1.
pub open spec fn is_control(c: char) -> bool {
    c < ' ' || ('\u{7f}' <= c && c <= '\u{9f}')
}

/// Every character of `s` is in class `k`.
pub open spec fn all_in(s: Seq<char>, k: CharClass) -> bool {
    forall|i: int| 0 <= i < s.len() ==> class_has(k, #[trigger] s[i])
}

/// No two neighbouring characters of `s` are both `c`.
pub open spec fn no_double(s: Seq<char>, c: char) -> bool {
    forall|i: int| 0 <= i < s.len() - 1 && #[trigger] s[i] == c ==> s[i + 1] != c
}

/// Non-empty labels of letters, digits and `-`, joined by single dots.
pub open spec fn is_dotted(s: Seq<char>) -> bool {
    &&& s.len() > 0
    &&& all_in(s, CharClass::HostChar)
    &&& s[0] != '.'
    &&& s.last() != '.'
    &&& no_double(s, '.')
}

pub open spec fn host_spec(s: Seq<char>) -> bool {
    is_dotted(s)
}

/// A host name of two labels or more.
pub open spec fn domain_spec(s: Seq<char>) -> bool {
    is_dotted(s) && s.contains('.')
}

pub open spec fn local_part_spec(s: Seq<char>) -> bool {
    s.len() > 0 && all_in(s, CharClass::LocalChar)
}

/// A local part, one `@`, and a domain.
pub open spec fn email_address_spec(s: Seq<char>) -> bool {
    exists|i: int|
        0 <= i < s.len() && #[trigger] s[i] == '@' && local_part_spec(s.subrange(0, i))
            && domain_spec(s.subrange(i + 1, s.len() as int))
}

pub open spec fn port_spec(s: Seq<char>) -> bool {
    s.len() > 0 && all_in(s, CharClass::Digit)
}

/// A host, with a port after a colon or without one.
pub open spec fn authority_spec(s: Seq<char>) -> bool {
    is_dotted(s) || exists|j: int|
        0 <= j < s.len() && #[trigger] s[j] == ':' && is_dotted(s.subrange(0, j)) && port_spec(
            s.subrange(j + 1, s.len() as int),
        )
}

/// `/`, then any number of non-empty segments, each closed by `/`.
pub open spec fn path_spec(s: Seq<char>) -> bool {
    &&& s.len() > 0
    &&& s[0] == '/'
    &&& s.last() == '/'
    &&& all_in(s, CharClass::PathChar)
    &&& no_double(s, '/')
}

/// What follows the scheme of a base URI: an authority, then a path.
pub open spec fn authority_path_spec(s: Seq<char>) -> bool {
    exists|i: int|
        0 <= i < s.len() && #[trigger] s[i] == '/' && authority_spec(s.subrange(0, i)) && path_spec(
            s.subrange(i, s.len() as int),
        )
}

pub open spec fn http_scheme() -> Seq<char> {
    seq!['h', 't', 't', 'p', ':', '/', '/']
}

pub open spec fn https_scheme() -> Seq<char> {
    seq!['h', 't', 't', 'p', 's', ':', '/', '/']
}

pub open spec fn base_uri_spec(s: Seq<char>) -> bool {
    ||| s.len() >= 7 && s.subrange(0, 7) == http_scheme() && authority_path_spec(
        s.subrange(7, s.len() as int),
    )
    ||| s.len() >= 8 && s.subrange(0, 8) == https_scheme() && authority_path_spec(
        s.subrange(8, s.len() as int),
    )
}

pub open spec fn provider_spec(s: Seq<char>) -> bool {
    s == "mock"@ || s == "ses"@ || s == "smtp"@
}

pub open spec fn sender_name_spec(s: Seq<char>) -> bool {
    &&& s.len() > 0
    &&& all_in(s, CharClass::NameChar)
    &&& !is_whitespace(s[0])
    &&& !is_whitespace(s.last())
}

/// The regions that the cloud mail provider can be configured with.
pub open spec fn aws_region_spec(s: Seq<char>) -> bool {
    ||| s == "af-south-1"@
    ||| s == "ap-east-1"@
    ||| s == "ap-northeast-1"@
    ||| s == "ap-northeast-2"@
    ||| s == "ap-northeast-3"@
    ||| s == "ap-south-1"@
    ||| s == "ap-southeast-1"@
    ||| s == "ap-southeast-2"@
    ||| s == "ca-central-1"@
    ||| s == "cn-north-1"@
    ||| s == "cn-northwest-1"@
    ||| s == "eu-central-1"@
    ||| s == "eu-north-1"@
    ||| s == "eu-south-1"@
    ||| s == "eu-west-1"@
    ||| s == "eu-west-2"@
    ||| s == "eu-west-3"@
    ||| s == "me-south-1"@
    ||| s == "sa-east-1"@
    ||| s == "us-east-1"@
    ||| s == "us-east-2"@
    ||| s == "us-gov-east-1"@
    ||| s == "us-gov-west-1"@
    ||| s == "us-west-1"@
    ||| s == "us-west-2"@
}

pub open spec fn aws_access_spec(s: Seq<char>) -> bool {
    s.len() > 0 && all_in(s, CharClass::UpperAlnum)
}

pub open spec fn aws_secret_spec(s: Seq<char>) -> bool {
    s.len() > 0 && all_in(s, CharClass::Base64)
}

pub const SENDGRID_API_KEY_LEN: usize = 71;

pub open spec fn sendgrid_api_key_spec(s: Seq<char>) -> bool {
    s.len() == SENDGRID_API_KEY_LEN && all_in(s, CharClass::KeyChar)
}

fn class_contains(k: CharClass, c: char) -> (r: bool)
    ensures
        r == class_has(k, c),
{
    let alnum = ('0' <= c && c <= '9') || ('A' <= c && c <= 'Z') || ('a' <= c && c <= 'z');
    match k {
        CharClass::Digit => '0' <= c && c <= '9',
        CharClass::UpperAlnum => ('A' <= c && c <= 'Z') || ('0' <= c && c <= '9'),
        CharClass::Base64 => alnum || c == '+' || c == '/' || c == '=',
        CharClass::KeyChar => alnum || c == '.' || c == '_',
        CharClass::HostChar => alnum || c == '-' || c == '.',
        CharClass::LocalChar => alnum || c == '!' || c == '#' || c == '$' || c == '%' || c == '&'
            || c == '\'' || c == '*' || c == '+' || c == '-' || c == '/' || c == '=' || c == '?'
            || c == '^' || c == '_' || c == '`' || c == '{' || c == '|' || c == '}' || c == '~'
            || c == '.',
        CharClass::PathChar => alnum || c == '-' || c == '.' || c == '_' || c == '~' || c == '/',
        CharClass::NameChar => !(c < ' ' || ('\u{7f}' <= c && c <= '\u{9f}')) && c != '@',
    }
}

/// Whether `c` is whitespace, as `is_whitespace` defines it.
fn whitespace(c: char) -> (r: bool)
    ensures
        r == is_whitespace(c),
{
    ('\t' <= c && c <= '\r') || c == ' ' || c == '\u{85}' || c == '\u{a0}' || c == '\u{1680}'
        || ('\u{2000}' <= c && c <= '\u{200a}') || c == '\u{2028}' || c == '\u{2029}' || c
        == '\u{202f}' || c == '\u{205f}' || c == '\u{3000}'
}

/// Whether every character of `s[lo..hi]` is in class `k`.
fn range_in(s: &Vec<char>, lo: usize, hi: usize, k: CharClass) -> (r: bool)
    requires
        lo <= hi <= s@.len(),
    ensures
        r == all_in(s@.subrange(lo as int, hi as int), k),
{
    let mut i = lo;
    while i < hi
        invariant
            lo <= i <= hi <= s@.len(),
            forall|j: int| lo <= j < i ==> class_has(k, s@[j]),
        decreases hi - i,
    {
        if !class_contains(k, s[i]) {
            assert(s@.subrange(lo as int, hi as int)[i - lo] == s@[i as int]);
            return false;
        }
        i = i + 1;
    }
    true
}

/// Whether no two neighbouring characters of `s[lo..hi]` are both `c`.
fn range_no_double(s: &Vec<char>, lo: usize, hi: usize, c: char) -> (r: bool)
    requires
        lo <= hi <= s@.len(),
    ensures
        r == no_double(s@.subrange(lo as int, hi as int), c),
{
    if lo == hi {
        return true;
    }
    let mut i = lo;
    while i < hi - 1
        invariant
            lo <= i < hi <= s@.len(),
            forall|j: int| lo <= j < i && #[trigger] s@[j] == c ==> s@[j + 1] != c,
        decreases hi - i,
    {
        if s[i] == c && s[i + 1] == c {
            assert(s@.subrange(lo as int, hi as int)[i - lo] == s@[i as int]);
            return false;
        }
        i = i + 1;
    }
    true
}

/// The first position at or after `lo` and before `hi` that holds `c`, or `hi`.
fn find_char(s: &Vec<char>, lo: usize, hi: usize, c: char) -> (r: usize)
    requires
        lo <= hi <= s@.len(),
    ensures
        lo <= r <= hi,
        forall|j: int| lo <= j < r ==> s@[j] != c,
        r < hi ==> s@[r as int] == c,
{
    let mut i = lo;
    while i < hi
        invariant
            lo <= i <= hi <= s@.len(),
            forall|j: int| lo <= j < i ==> s@[j] != c,
        decreases hi - i,
    {
        if s[i] == c {
            return i;
        }
        i = i + 1;
    }
    hi
}

/// Whether `s[lo..hi]` is a dotted host name.
fn range_dotted(s: &Vec<char>, lo: usize, hi: usize) -> (r: bool)
    requires
        lo <= hi <= s@.len(),
    ensures
        r == is_dotted(s@.subrange(lo as int, hi as int)),
{
    if lo == hi {
        return false;
    }
    let t = Ghost(s@.subrange(lo as int, hi as int));
    assert(t@[0] == s@[lo as int]);
    assert(t@.last() == s@[hi - 1]);
    range_in(s, lo, hi, CharClass::HostChar) && s[lo] != '.' && s[hi - 1] != '.'
        && range_no_double(s, lo, hi, '.')
}

/// Whether `s[lo..hi]` is a host name, with a port or without one.
fn range_authority(s: &Vec<char>, lo: usize, hi: usize) -> (r: bool)
    requires
        lo <= hi <= s@.len(),
    ensures
        r == authority_spec(s@.subrange(lo as int, hi as int)),
{
    let t = Ghost(s@.subrange(lo as int, hi as int));
    let j = find_char(s, lo, hi, ':');
    if j == hi {
        let d = range_dotted(s, lo, hi);
        assert forall|x: int| 0 <= x < t@.len() implies #[trigger] t@[x] != ':' by {
            assert(t@[x] == s@[lo + x]);
        }
        return d;
    }
    let k = j - lo;
    assert(t@[k as int] == ':');
    assert(!is_dotted(t@)) by {
        assert(!class_has(CharClass::HostChar, t@[k as int]));
    }
    assert(t@.subrange(0, k as int) =~= s@.subrange(lo as int, j as int));
    assert(t@.subrange(k + 1, t@.len() as int) =~= s@.subrange(j + 1, hi as int));
    let r = range_dotted(s, lo, j) && j + 1 < hi && range_in(s, j + 1, hi, CharClass::Digit);
    if !r {
        assert forall|x: int|
            0 <= x < t@.len() && #[trigger] t@[x] == ':' && is_dotted(t@.subrange(0, x))
                implies !port_spec(t@.subrange(x + 1, t@.len() as int)) by {
            if x < k {
                assert(t@[x] == s@[lo + x]);
            } else if x > k {
                assert(t@.subrange(0, x)[k as int] == ':');
            }
        }
    }
    r
}

/// Whether `s[lo..hi]` is a path of segments, each closed by `/`.
fn range_path(s: &Vec<char>, lo: usize, hi: usize) -> (r: bool)
    requires
        lo <= hi <= s@.len(),
    ensures
        r == path_spec(s@.subrange(lo as int, hi as int)),
{
    if lo == hi {
        return false;
    }
    let t = Ghost(s@.subrange(lo as int, hi as int));
    assert(t@[0] == s@[lo as int]);
    assert(t@.last() == s@[hi - 1]);
    s[lo] == '/' && s[hi - 1] == '/' && range_in(s, lo, hi, CharClass::PathChar)
        && range_no_double(s, lo, hi, '/')
}

/// Whether `s[lo..]` is an authority followed by a path.
fn tail_authority_path(s: &Vec<char>, lo: usize) -> (r: bool)
    requires
        lo <= s@.len(),
    ensures
        r == authority_path_spec(s@.subrange(lo as int, s@.len() as int)),
{
    let n = s.len();
    let t = Ghost(s@.subrange(lo as int, n as int));
    let i = find_char(s, lo, n, '/');
    if i == n {
        assert forall|x: int| 0 <= x < t@.len() implies #[trigger] t@[x] != '/' by {
            assert(t@[x] == s@[lo + x]);
        }
        return false;
    }
    let k = i - lo;
    assert(t@[k as int] == '/');
    assert(t@.subrange(0, k as int) =~= s@.subrange(lo as int, i as int));
    assert(t@.subrange(k as int, t@.len() as int) =~= s@.subrange(i as int, n as int));
    let r = range_authority(s, lo, i) && range_path(s, i, n);
    if !r {
        assert forall|x: int|
            0 <= x < t@.len() && #[trigger] t@[x] == '/' && authority_spec(t@.subrange(0, x))
                implies !path_spec(t@.subrange(x, t@.len() as int)) by {
            if x < k {
                assert(t@[x] == s@[lo + x]);
            } else if x > k {
                let a = t@.subrange(0, x);
                assert(a[k as int] == '/');
                assert(!is_dotted(a)) by {
                    assert(!class_has(CharClass::HostChar, a[k as int]));
                }
                assert forall|y: int|
                    0 <= y < a.len() && #[trigger] a[y] == ':' && is_dotted(a.subrange(0, y))
                        implies !port_spec(a.subrange(y + 1, a.len() as int)) by {
                    if k < y {
                        assert(a.subrange(0, y)[k as int] == '/');
                        assert(!class_has(CharClass::HostChar, a.subrange(0, y)[k as int]));
                    } else {
                        assert(a.subrange(y + 1, a.len() as int)[k - y - 1] == '/');
                        assert(!class_has(CharClass::Digit, '/'));
                    }
                }
            }
        }
    }
    r
}

/// Whether `s` is an email address: a local part, one `@`, and a domain of two
/// labels or more.
pub fn email_address(s: &str) -> (r: bool)
    ensures
        r == email_address_spec(s@),
{
    let v = chars_of(s);
    let n = v.len();
    let i = find_char(&v, 0, n, '@');
    if i == n {
        assert forall|x: int| 0 <= x < s@.len() implies #[trigger] s@[x] != '@' by {}
        return false;
    }
    assert(v@.subrange(0, i as int) =~= s@.subrange(0, i as int));
    let local = i > 0 && range_in(&v, 0, i, CharClass::LocalChar);
    let dotted = range_dotted(&v, i + 1, n);
    let dot = find_char(&v, i + 1, n, '.');
    let domain = dotted && dot < n;
    let ghost d = s@.subrange(i + 1, n as int);
    if dot < n {
        assert(d[dot - i - 1] == '.');
    } else {
        assert forall|x: int| 0 <= x < d.len() implies d[x] != '.' by {
            assert(d[x] == s@[i + 1 + x]);
        }
    }
    let r = local && domain;
    if !r {
        assert forall|x: int|
            0 <= x < s@.len() && #[trigger] s@[x] == '@' && local_part_spec(s@.subrange(0, x))
                implies !domain_spec(s@.subrange(x + 1, s@.len() as int)) by {
            if x > i {
                assert(s@.subrange(0, x)[i as int] == '@');
                assert(!class_has(CharClass::LocalChar, '@'));
            }
        }
    }
    r
}

/// Whether `s` is a host name or a dotted IPv4 address: labels of letters,
/// digits and `-`, joined by single dots.
pub fn host(s: &str) -> (r: bool)
    ensures
        r == host_spec(s@),
{
    let v = chars_of(s);
    let n = v.len();
    assert(v@.subrange(0, n as int) =~= s@);
    range_dotted(&v, 0, n)
}

fn starts_with_http(v: &Vec<char>) -> (r: bool)
    ensures
        r == (v@.len() >= 7 && v@.subrange(0, 7) == http_scheme()),
{
    let r = v.len() >= 7 && v[0] == 'h' && v[1] == 't' && v[2] == 't' && v[3] == 'p' && v[4]
        == ':' && v[5] == '/' && v[6] == '/';
    if v.len() >= 7 {
        let ghost p = v@.subrange(0, 7);
        assert(p == http_scheme() ==> p[0] == 'h' && p[1] == 't' && p[2] == 't' && p[3] == 'p'
            && p[4] == ':' && p[5] == '/' && p[6] == '/');
        if r {
            assert(p =~= http_scheme());
        }
    }
    r
}

fn starts_with_https(v: &Vec<char>) -> (r: bool)
    ensures
        r == (v@.len() >= 8 && v@.subrange(0, 8) == https_scheme()),
{
    let r = v.len() >= 8 && v[0] == 'h' && v[1] == 't' && v[2] == 't' && v[3] == 'p' && v[4]
        == 's' && v[5] == ':' && v[6] == '/' && v[7] == '/';
    if v.len() >= 8 {
        let ghost p = v@.subrange(0, 8);
        assert(p == https_scheme() ==> p[0] == 'h' && p[1] == 't' && p[2] == 't' && p[3] == 'p'
            && p[4] == 's' && p[5] == ':' && p[6] == '/' && p[7] == '/');
        if r {
            assert(p =~= https_scheme());
        }
    }
    r
}

/// Whether `s` is a base URI: `http://` or `https://`, a host with an optional
/// port, and a path that ends in `/`, with no query and no fragment.
pub fn base_uri(s: &str) -> (r: bool)
    ensures
        r == base_uri_spec(s@),
{
    let v = chars_of(s);
    if starts_with_http(&v) {
        let r = tail_authority_path(&v, 7);
        assert(s@.len() >= 8 && s@.subrange(0, 8) == https_scheme() ==> s@.subrange(0, 8)[4]
            == 's');
        assert(s@.subrange(0, 7)[4] == ':');
        r
    } else if starts_with_https(&v) {
        tail_authority_path(&v, 8)
    } else {
        false
    }
}

/// Whether `s` names a provider: `mock`, `ses` or `smtp`.
pub fn provider(s: &str) -> (r: bool)
    ensures
        r == provider_spec(s@),
{
    same_text(s, "mock") || same_text(s, "ses") || same_text(s, "smtp")
}

/// Whether `s` is a display name: printable text without `@`, with no
/// whitespace at either end.
pub fn sender_name(s: &str) -> (r: bool)
    ensures
        r == sender_name_spec(s@),
{
    let v = chars_of(s);
    let n = v.len();
    if n == 0 {
        return false;
    }
    assert(v@.subrange(0, n as int) =~= s@);
    range_in(&v, 0, n, CharClass::NameChar) && !whitespace(v[0]) && !whitespace(v[n - 1])
}

/// Whether `s` is one of the supported regions.
pub fn aws_region(s: &str) -> (r: bool)
    ensures
        r == aws_region_spec(s@),
{
    same_text(s, "af-south-1") || same_text(s, "ap-east-1") || same_text(s, "ap-northeast-1")
        || same_text(s, "ap-northeast-2") || same_text(s, "ap-northeast-3") || same_text(
        s,
        "ap-south-1",
    ) || same_text(s, "ap-southeast-1") || same_text(s, "ap-southeast-2") || same_text(
        s,
        "ca-central-1",
    ) || same_text(s, "cn-north-1") || same_text(s, "cn-northwest-1") || same_text(
        s,
        "eu-central-1",
    ) || same_text(s, "eu-north-1") || same_text(s, "eu-south-1") || same_text(s, "eu-west-1")
        || same_text(s, "eu-west-2") || same_text(s, "eu-west-3") || same_text(s, "me-south-1")
        || same_text(s, "sa-east-1") || same_text(s, "us-east-1") || same_text(s, "us-east-2")
        || same_text(s, "us-gov-east-1") || same_text(s, "us-gov-west-1") || same_text(
        s,
        "us-west-1",
    ) || same_text(s, "us-west-2")
}

/// Whether `s` is an access key id: upper-case letters and digits.
pub fn aws_access(s: &str) -> (r: bool)
    ensures
        r == aws_access_spec(s@),
{
    let v = chars_of(s);
    let n = v.len();
    assert(v@.subrange(0, n as int) =~= s@);
    n > 0 && range_in(&v, 0, n, CharClass::UpperAlnum)
}

/// Whether `s` is a secret key: characters of the base64 alphabet.
pub fn aws_secret(s: &str) -> (r: bool)
    ensures
        r == aws_secret_spec(s@),
{
    let v = chars_of(s);
    let n = v.len();
    assert(v@.subrange(0, n as int) =~= s@);
    n > 0 && range_in(&v, 0, n, CharClass::Base64)
}

/// Whether `s` is an API key of the mail relay: exactly
/// `SENDGRID_API_KEY_LEN` letters, digits, dots and underscores.
pub fn sendgrid_api_key(s: &str) -> (r: bool)
    ensures
        r == sendgrid_api_key_spec(s@),
{
    let v = chars_of(s);
    let n = v.len();
    assert(v@.subrange(0, n as int) =~= s@);
    n == SENDGRID_API_KEY_LEN && range_in(&v, 0, n, CharClass::KeyChar)
}

/// The characters that Rust's `char::is_whitespace` accepts.
pub open spec fn is_whitespace(c: char) -> bool {
    ||| '\t' <= c && c <= '\r'
    ||| c == ' '
    ||| c == '\u{85}'
    ||| c == '\u{a0}'
    ||| c == '\u{1680}'
    ||| '\u{2000}' <= c && c <= '\u{200a}'
    ||| c == '\u{2028}'
    ||| c == '\u{2029}'
    ||| c == '\u{202f}'
    ||| c == '\u{205f}'
    ||| c == '\u{3000}'
}

proof fn lemma_whitespace_outside_classes(c: char, k: CharClass)
    requires
        is_whitespace(c),
        class_has(k, c),
    ensures
        k == CharClass::NameChar,
{
}

/// A value with whitespace at its start or at its end satisfies none of the
/// predicates of this module.
pub proof fn lemma_surrounding_whitespace_rejected(s: Seq<char>)
    requires
        s.len() > 0,
        is_whitespace(s[0]) || is_whitespace(s.last()),
    ensures
        !email_address_spec(s),
        !host_spec(s),
        !base_uri_spec(s),
        !provider_spec(s),
        !sender_name_spec(s),
        !aws_region_spec(s),
        !aws_access_spec(s),
        !aws_secret_spec(s),
        !sendgrid_api_key_spec(s),
{
    let n = s.len() as int;
    let c = if is_whitespace(s[0]) { s[0] } else { s.last() };
    let at = if is_whitespace(s[0]) { 0 } else { n - 1 };
    assert(s[at] == c && is_whitespace(c));
    assert forall|k: CharClass| k != CharClass::NameChar implies !all_in(s, k) by {
        if class_has(k, s[at]) {
            lemma_whitespace_outside_classes(c, k);
        }
    }
    assert forall|i: int|
        0 <= i < n && #[trigger] s[i] == '@' && local_part_spec(s.subrange(0, i)) implies !domain_spec(
        s.subrange(i + 1, n),
    ) by {
        if at == 0 {
            assert(s.subrange(0, i)[0] == s[0]);
            assert(!all_in(s.subrange(0, i), CharClass::LocalChar)) by {
                if class_has(CharClass::LocalChar, s.subrange(0, i)[0]) {
                    lemma_whitespace_outside_classes(c, CharClass::LocalChar);
                }
            }
        } else {
            let d = s.subrange(i + 1, n);
            if d.len() > 0 {
                assert(d[d.len() - 1] == s[n - 1]);
                if class_has(CharClass::HostChar, d[d.len() - 1]) {
                    lemma_whitespace_outside_classes(c, CharClass::HostChar);
                }
            }
        }
    }
    assert(!base_uri_spec(s)) by {
        if at == 0 {
            if n >= 7 && s.subrange(0, 7) == http_scheme() {
                assert(s.subrange(0, 7)[0] == s[0]);
            }
            if n >= 8 && s.subrange(0, 8) == https_scheme() {
                assert(s.subrange(0, 8)[0] == s[0]);
            }
        } else {
            assert forall|start: int| 0 <= start <= n implies !authority_path_spec(
                #[trigger] s.subrange(start, n),
            ) by {
                let t = s.subrange(start, n);
                assert forall|i: int|
                    0 <= i < t.len() && #[trigger] t[i] == '/' && authority_spec(t.subrange(0, i))
                        implies !path_spec(t.subrange(i, t.len() as int)) by {
                    let p = t.subrange(i, t.len() as int);
                    assert(p[p.len() - 1] == s[n - 1]);
                }
            }
        }
    }
    assert(!provider_spec(s) && !aws_region_spec(s)) by {
        reveal_strlit("af-south-1");
        reveal_strlit("ap-east-1");
        reveal_strlit("ap-northeast-1");
        reveal_strlit("ap-northeast-2");
        reveal_strlit("ap-northeast-3");
        reveal_strlit("ap-south-1");
        reveal_strlit("ap-southeast-1");
        reveal_strlit("ap-southeast-2");
        reveal_strlit("ca-central-1");
        reveal_strlit("cn-north-1");
        reveal_strlit("cn-northwest-1");
        reveal_strlit("eu-central-1");
        reveal_strlit("eu-north-1");
        reveal_strlit("eu-south-1");
        reveal_strlit("eu-west-1");
        reveal_strlit("eu-west-2");
        reveal_strlit("eu-west-3");
        reveal_strlit("me-south-1");
        reveal_strlit("sa-east-1");
        reveal_strlit("us-east-1");
        reveal_strlit("us-east-2");
        reveal_strlit("us-gov-east-1");
        reveal_strlit("us-gov-west-1");
        reveal_strlit("us-west-1");
        reveal_strlit("us-west-2");
        reveal_strlit("mock");
        reveal_strlit("ses");
        reveal_strlit("smtp");
    }
}

} // verus!
