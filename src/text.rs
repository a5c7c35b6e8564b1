//! Text helpers: joining, splitting at `:`, and decimal numbers.
use vstd::prelude::*;

verus! {

/// The position of the first `:` of `s` at or after `from`, or `s.len()`
/// when there is none.
pub open spec fn next_colon(s: Seq<char>, from: int) -> int
    decreases s.len() - from,
{
    if from < 0 || from >= s.len() {
        s.len() as int
    } else if s[from] == ':' {
        from
    } else {
        next_colon(s, from + 1)
    }
}

/// Whether `s` holds a `:`.
pub open spec fn has_colon(s: Seq<char>) -> bool {
    next_colon(s, 0) < s.len()
}

/// The text before the first `:` (all of `s` when there is none).
pub open spec fn first_segment(s: Seq<char>) -> Seq<char> {
    s.subrange(0, next_colon(s, 0))
}

/// The text after the first `:`, later `:`s included. Meaningful only
/// where `has_colon(s)`.
pub open spec fn after_first_colon(s: Seq<char>) -> Seq<char> {
    s.subrange(next_colon(s, 0) + 1, s.len() as int)
}

pub proof fn lemma_next_colon_bounds(s: Seq<char>, from: int)
    requires
        0 <= from,
    ensures
        from <= next_colon(s, from) <= s.len() || (from > s.len() && next_colon(s, from)
            == s.len()),
    decreases s.len() - from,
{
    if from < s.len() && s[from] != ':' {
        lemma_next_colon_bounds(s, from + 1);
    }
}

/// The position of the first `:` at or after `from`.
pub fn find_colon(s: &str, from: usize) -> (r: usize)
    requires
        from <= s@.len(),
    ensures
        r == next_colon(s@, from as int),
        from <= r <= s@.len(),
{
    let n = s.unicode_len();
    let mut i = from;
    proof {
        lemma_next_colon_bounds(s@, from as int);
    }
    while i < n
        invariant
            from <= i <= n,
            n == s@.len(),
            next_colon(s@, from as int) == next_colon(s@, i as int),
        decreases n - i,
    {
        if s.get_char(i) == ':' {
            return i;
        }
        i = i + 1;
    }
    i
}

/// Splits `s` at its first `:` into the text before it and the text after
/// it; `None` when `s` holds no `:`.
pub fn split_first_colon(s: &str) -> (r: Option<(String, String)>)
    ensures
        r is None <==> !has_colon(s@),
        r matches Some((a, b)) ==> a@ == first_segment(s@) && b@ == after_first_colon(s@),
{
    let n = s.unicode_len();
    let p = find_colon(s, 0);
    if p == n {
        None
    } else {
        let a = String::from_str(s.substring_char(0, p));
        let b = String::from_str(s.substring_char(p + 1, n));
        Some((a, b))
    }
}

/// Whether `a` and `b` are the same text.
pub fn text_eq(a: &str, b: &str) -> (r: bool)
    ensures
        r == (a@ == b@),
{
    String::from_str(a) == String::from_str(b)
}

/// `a` followed by `b`.
pub fn join2(a: &str, b: &str) -> (r: String)
    ensures
        r@ == a@ + b@,
{
    String::from_str(a).concat(b)
}

/// `a`, `b` and `c`, one after the other.
pub fn join3(a: &str, b: &str, c: &str) -> (r: String)
    ensures
        r@ == a@ + b@ + c@,
{
    String::from_str(a).concat(b).concat(c)
}

/// The character of the decimal digit `d`.
pub open spec fn digit_char(d: nat) -> char {
    (('0' as nat) + d) as char
}

/// The decimal digits of `n`, without sign or leading zeros.
pub open spec fn decimal(n: nat) -> Seq<char>
    decreases n,
{
    if n < 10 {
        seq![digit_char(n)]
    } else {
        decimal(n / 10).push(digit_char(n % 10))
    }
}

/// Whether every character of `s` is an ASCII digit.
pub open spec fn all_digits(s: Seq<char>) -> bool {
    forall|i: int| 0 <= i < s.len() ==> '0' <= #[trigger] s[i] <= '9'
}

/// The number that the decimal digits `s` stand for.
pub open spec fn digits_value(s: Seq<char>) -> nat
    decreases s.len(),
{
    if s.len() == 0 {
        0
    } else {
        digits_value(s.drop_last()) * 10 + (s.last() as nat - '0' as nat) as nat
    }
}

/// What parsing `s` as an unsigned 64-bit integer gives: an optional `+`,
/// then one or more decimal digits whose value fits.
pub open spec fn parsed_u64(s: Seq<char>) -> Option<u64> {
    let t = if s.len() > 0 && s[0] == '+' {
        s.drop_first()
    } else {
        s
    };
    if t.len() > 0 && all_digits(t) && digits_value(t) <= u64::MAX {
        Some(digits_value(t) as u64)
    } else {
        None
    }
}

/// Relies on `ToString::to_string` for `u64`, which formats through
/// `Display`: the decimal digits, no sign, no leading zeros.
#[verifier::external_body]
pub fn decimal_text(n: u64) -> (r: String)
    ensures
        r@ == decimal(n as nat),
{
    n.to_string()
}

/// Relies on `str::parse::<u64>` (`u64::from_str`): an optional `+` and then
/// decimal digits, refused when empty, when another character occurs, or
/// when the value overflows.
#[verifier::external_body]
pub fn parse_u64(s: &str) -> (r: Option<u64>)
    ensures
        r == parsed_u64(s@),
{
    s.parse::<u64>().ok()
}

/// The text of `bytes` after lossy UTF-8 decoding.
pub uninterp spec fn lossy_text(bytes: Seq<u8>) -> Seq<char>;

/// The text of `bytes` when they are valid UTF-8.
pub uninterp spec fn utf8_text(bytes: Seq<u8>) -> Option<Seq<char>>;

/// Relies on `String::from_utf8_lossy`: the text of the bytes, with each
/// invalid sequence replaced; it depends on the bytes alone.
#[verifier::external_body]
pub fn text_from_bytes_lossy(bytes: &[u8]) -> (r: String)
    ensures
        r@ == lossy_text(bytes@),
{
    String::from_utf8_lossy(bytes).to_string()
}

/// Relies on `String::from_utf8`: the text when the bytes are valid UTF-8,
/// an error otherwise; it depends on the bytes alone.
#[verifier::external_body]
pub fn text_from_bytes(bytes: Vec<u8>) -> (r: Option<String>)
    ensures
        utf8_text(bytes@) is None <==> r is None,
        r matches Some(t) ==> utf8_text(bytes@) == Some(t@),
{
    String::from_utf8(bytes).ok()
}

} // verus!
