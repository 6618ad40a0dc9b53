//! Character and string helpers the client's wire formats are specified
//! with: trimming, fence stripping, JSON string escaping and decimal
//! rendering, each an executable function proved against a direct
//! mathematical statement.

use vstd::prelude::*;
use vstd::string::*;

verus! {

/// The characters of the Unicode `White_Space` set, the set that trimming
/// removes at either end of a string.
pub open spec fn is_ws(c: char) -> bool {
    (0x09 <= (c as u32) <= 0x0d) || c == ' ' || (c as u32) == 0x85 || (c as u32) == 0xa0
        || (c as u32) == 0x1680 || (0x2000 <= (c as u32) <= 0x200a) || (c as u32) == 0x2028
        || (c as u32) == 0x2029 || (c as u32) == 0x202f || (c as u32) == 0x205f || (c as u32)
        == 0x3000
}

pub fn is_ws_char(c: char) -> (r: bool)
    ensures
        r == is_ws(c),
{
    let u = c as u32;
    (0x09 <= u && u <= 0x0d) || u == 0x20 || u == 0x85 || u == 0xa0 || u == 0x1680 || (0x2000
        <= u && u <= 0x200a) || u == 0x2028 || u == 0x2029 || u == 0x202f || u == 0x205f || u
        == 0x3000
}

/// `p` is a prefix of `s`.
pub open spec fn spec_starts_with(s: Seq<char>, p: Seq<char>) -> bool {
    p.len() <= s.len() && s.subrange(0, p.len() as int) == p
}

/// `p` is a suffix of `s`.
pub open spec fn spec_ends_with(s: Seq<char>, p: Seq<char>) -> bool {
    p.len() <= s.len() && s.subrange(s.len() - p.len(), s.len() as int) == p
}

pub fn str_starts_with(s: &str, p: &str) -> (r: bool)
    ensures
        r == spec_starts_with(s@, p@),
{
    let n = s.unicode_len();
    let m = p.unicode_len();
    if m > n {
        return false;
    }
    let mut i: usize = 0;
    while i < m
        invariant
            0 <= i <= m,
            m <= n,
            m == p@.len(),
            n == s@.len(),
            forall|k: int| 0 <= k < i ==> s@[k] == p@[k],
        decreases m - i,
    {
        if s.get_char(i) != p.get_char(i) {
            assert(s@.subrange(0, m as int)[i as int] != p@[i as int]);
            return false;
        }
        i += 1;
    }
    assert(s@.subrange(0, m as int) =~= p@);
    true
}

pub fn str_ends_with(s: &str, p: &str) -> (r: bool)
    ensures
        r == spec_ends_with(s@, p@),
{
    let n = s.unicode_len();
    let m = p.unicode_len();
    if m > n {
        return false;
    }
    let tail = s.substring_char(n - m, n);
    let r = str_starts_with(tail, p);
    proof {
        assert(tail@ =~= s@.subrange(s@.len() - p@.len(), s@.len() as int));
        assert(tail@.subrange(0, p@.len() as int) =~= tail@);
    }
    r
}

/// Two strings hold the same characters.
pub fn str_eq_str(a: &str, b: &str) -> (r: bool)
    ensures
        r == (a@ == b@),
{
    let n = a.unicode_len();
    let m = b.unicode_len();
    if n != m {
        return false;
    }
    let r = str_starts_with(a, b);
    proof {
        assert(a@.subrange(0, m as int) =~= a@);
    }
    r
}

/// `s` with leading white space removed.
pub open spec fn spec_trim_start(s: Seq<char>) -> Seq<char>
    decreases s.len(),
{
    if s.len() > 0 && is_ws(s[0]) {
        spec_trim_start(s.drop_first())
    } else {
        s
    }
}

/// `s` with trailing white space removed.
pub open spec fn spec_trim_end(s: Seq<char>) -> Seq<char>
    decreases s.len(),
{
    if s.len() > 0 && is_ws(s.last()) {
        spec_trim_end(s.drop_last())
    } else {
        s
    }
}

/// `s` with white space removed at both ends, as `str::trim` leaves it.
pub open spec fn spec_trim(s: Seq<char>) -> Seq<char> {
    spec_trim_end(spec_trim_start(s))
}

pub fn trim_start_str(s: &str) -> (r: String)
    ensures
        r@ == spec_trim_start(s@),
    decreases s@.len(),
{
    let n = s.unicode_len();
    if n > 0 && is_ws_char(s.get_char(0)) {
        let rest = s.substring_char(1, n);
        proof {
            assert(rest@ =~= s@.drop_first());
        }
        trim_start_str(rest)
    } else {
        String::from_str(s)
    }
}

pub fn trim_end_str(s: &str) -> (r: String)
    ensures
        r@ == spec_trim_end(s@),
    decreases s@.len(),
{
    let n = s.unicode_len();
    if n > 0 && is_ws_char(s.get_char(n - 1)) {
        let rest = s.substring_char(0, n - 1);
        proof {
            assert(rest@ =~= s@.drop_last());
        }
        trim_end_str(rest)
    } else {
        String::from_str(s)
    }
}

pub fn trim_str(s: &str) -> (r: String)
    ensures
        r@ == spec_trim(s@),
{
    let t = trim_start_str(s);
    trim_end_str(t.as_str())
}

/// `s` with every leading repetition of `p` removed, as
/// `str::trim_start_matches` leaves it.
pub open spec fn spec_strip_prefix_reps(s: Seq<char>, p: Seq<char>) -> Seq<char>
    decreases s.len(),
{
    if p.len() > 0 && spec_starts_with(s, p) {
        spec_strip_prefix_reps(s.skip(p.len() as int), p)
    } else {
        s
    }
}

/// `s` with every trailing repetition of `p` removed, as
/// `str::trim_end_matches` leaves it.
pub open spec fn spec_strip_suffix_reps(s: Seq<char>, p: Seq<char>) -> Seq<char>
    decreases s.len(),
{
    if p.len() > 0 && spec_ends_with(s, p) {
        spec_strip_suffix_reps(s.take(s.len() - p.len()), p)
    } else {
        s
    }
}

pub fn strip_prefix_reps(s: &str, p: &str) -> (r: String)
    ensures
        r@ == spec_strip_prefix_reps(s@, p@),
    decreases s@.len(),
{
    let m = p.unicode_len();
    if m > 0 && str_starts_with(s, p) {
        let n = s.unicode_len();
        let rest = s.substring_char(m, n);
        proof {
            assert(rest@ =~= s@.skip(p@.len() as int));
        }
        strip_prefix_reps(rest, p)
    } else {
        String::from_str(s)
    }
}

pub fn strip_suffix_reps(s: &str, p: &str) -> (r: String)
    ensures
        r@ == spec_strip_suffix_reps(s@, p@),
    decreases s@.len(),
{
    let m = p.unicode_len();
    if m > 0 && str_ends_with(s, p) {
        let n = s.unicode_len();
        let rest = s.substring_char(0, n - m);
        proof {
            assert(rest@ =~= s@.take(s@.len() - p@.len()));
        }
        strip_suffix_reps(rest, p)
    } else {
        String::from_str(s)
    }
}

/// The lower-case hexadecimal digit of a value below sixteen.
pub open spec fn spec_hex_digit(n: int) -> Seq<char> {
    if n == 0 {
        "0"@
    } else if n == 1 {
        "1"@
    } else if n == 2 {
        "2"@
    } else if n == 3 {
        "3"@
    } else if n == 4 {
        "4"@
    } else if n == 5 {
        "5"@
    } else if n == 6 {
        "6"@
    } else if n == 7 {
        "7"@
    } else if n == 8 {
        "8"@
    } else if n == 9 {
        "9"@
    } else if n == 10 {
        "a"@
    } else if n == 11 {
        "b"@
    } else if n == 12 {
        "c"@
    } else if n == 13 {
        "d"@
    } else if n == 14 {
        "e"@
    } else {
        "f"@
    }
}

pub fn hex_digit(n: u32) -> (r: &'static str)
    requires
        n < 16,
    ensures
        r@ == spec_hex_digit(n as int),
{
    if n == 0 {
        "0"
    } else if n == 1 {
        "1"
    } else if n == 2 {
        "2"
    } else if n == 3 {
        "3"
    } else if n == 4 {
        "4"
    } else if n == 5 {
        "5"
    } else if n == 6 {
        "6"
    } else if n == 7 {
        "7"
    } else if n == 8 {
        "8"
    } else if n == 9 {
        "9"
    } else if n == 10 {
        "a"
    } else if n == 11 {
        "b"
    } else if n == 12 {
        "c"
    } else if n == 13 {
        "d"
    } else if n == 14 {
        "e"
    } else {
        "f"
    }
}

/// How one character is written inside a JSON string literal, with the
/// escapes `serde_json` emits: the two metacharacters, the five short
/// control escapes, `\u00..` for the remaining control characters, and
/// every other character as itself.
pub open spec fn spec_esc_char(c: char) -> Seq<char> {
    if c == '"' {
        "\\\""@
    } else if c == '\\' {
        "\\\\"@
    } else if (c as u32) == 0x08 {
        "\\b"@
    } else if (c as u32) == 0x0c {
        "\\f"@
    } else if c == '\n' {
        "\\n"@
    } else if c == '\r' {
        "\\r"@
    } else if c == '\t' {
        "\\t"@
    } else if (c as u32) < 0x20 {
        "\\u00"@ + spec_hex_digit((c as u32) as int / 16) + spec_hex_digit((c as u32) as int % 16)
    } else {
        seq![c]
    }
}

/// A whole string as it is written inside a JSON string literal.
pub open spec fn spec_escape(s: Seq<char>) -> Seq<char>
    decreases s.len(),
{
    if s.len() == 0 {
        Seq::empty()
    } else {
        spec_esc_char(s[0]) + spec_escape(s.drop_first())
    }
}

/// Relies on `String::from` for `char`: the returned string holds exactly
/// the one character.
#[verifier::external_body]
fn char_to_string(c: char) -> (r: String)
    ensures
        r@ == seq![c],
{
    String::from(c)
}

fn esc_char(c: char) -> (r: String)
    ensures
        r@ == spec_esc_char(c),
{
    let u = c as u32;
    if u == 0x22 {
        proof {
            assert(c == '"');
        }
        String::from_str("\\\"")
    } else if u == 0x5c {
        proof {
            assert(c == '\\');
        }
        String::from_str("\\\\")
    } else if u == 0x08 {
        String::from_str("\\b")
    } else if u == 0x0c {
        String::from_str("\\f")
    } else if u == 0x0a {
        proof {
            assert(c == '\n');
        }
        String::from_str("\\n")
    } else if u == 0x0d {
        proof {
            assert(c == '\r');
        }
        String::from_str("\\r")
    } else if u == 0x09 {
        proof {
            assert(c == '\t');
        }
        String::from_str("\\t")
    } else if u < 0x20 {
        let mut s = String::from_str("\\u00");
        s.append(hex_digit(u / 16));
        s.append(hex_digit(u % 16));
        s
    } else {
        proof {
            assert(c != '"' && c != '\\' && c != '\n' && c != '\r' && c != '\t');
        }
        char_to_string(c)
    }
}

/// Escape a string for inclusion in a JSON string literal.
pub fn escape_json(s: &str) -> (r: String)
    ensures
        r@ == spec_escape(s@),
    decreases s@.len(),
{
    let n = s.unicode_len();
    if n == 0 {
        proof {
            assert(s@ =~= Seq::<char>::empty());
        }
        String::new()
    } else {
        let c = s.get_char(0);
        let head = esc_char(c);
        let rest = s.substring_char(1, n);
        proof {
            assert(rest@ =~= s@.drop_first());
        }
        let tail = escape_json(rest);
        head.concat(tail.as_str())
    }
}

/// The decimal digit of a value below ten.
pub open spec fn spec_dec_digit(n: int) -> Seq<char> {
    if n == 0 {
        "0"@
    } else if n == 1 {
        "1"@
    } else if n == 2 {
        "2"@
    } else if n == 3 {
        "3"@
    } else if n == 4 {
        "4"@
    } else if n == 5 {
        "5"@
    } else if n == 6 {
        "6"@
    } else if n == 7 {
        "7"@
    } else if n == 8 {
        "8"@
    } else {
        "9"@
    }
}

/// A non-negative integer written in decimal, no leading zeros.
pub open spec fn spec_dec(n: int) -> Seq<char>
    decreases n,
{
    if n < 10 {
        spec_dec_digit(n)
    } else {
        spec_dec(n / 10) + spec_dec_digit(n % 10)
    }
}

fn dec_digit(n: u64) -> (r: &'static str)
    requires
        n < 10,
    ensures
        r@ == spec_dec_digit(n as int),
{
    if n == 0 {
        "0"
    } else if n == 1 {
        "1"
    } else if n == 2 {
        "2"
    } else if n == 3 {
        "3"
    } else if n == 4 {
        "4"
    } else if n == 5 {
        "5"
    } else if n == 6 {
        "6"
    } else if n == 7 {
        "7"
    } else if n == 8 {
        "8"
    } else {
        "9"
    }
}

/// Write a non-negative integer in decimal.
pub fn dec_u64(n: u64) -> (r: String)
    ensures
        r@ == spec_dec(n as int),
    decreases n,
{
    if n < 10 {
        String::from_str(dec_digit(n))
    } else {
        proof {
            assert(n / 10 < n) by (nonlinear_arith)
                requires
                    n >= 10,
            ;
            assert(n / 10 == (n as int) / 10);
            assert(n % 10 == (n as int) % 10);
        }
        let head = dec_u64(n / 10);
        head.concat(dec_digit(n % 10))
    }
}

} // verus!
