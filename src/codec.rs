use vstd::prelude::*;

verus! {

/// A character with the Unicode `White_Space` property, as `char::is_whitespace`
/// documents it.
pub open spec fn is_white_space(c: char) -> bool {
    let u = c as u32;
    (0x09 <= u <= 0x0d) || u == 0x20 || u == 0x85 || u == 0xa0 || u == 0x1680
        || (0x2000 <= u <= 0x200a) || u == 0x2028 || u == 0x2029 || u == 0x202f
        || u == 0x205f || u == 0x3000
}

pub open spec fn strip_start(s: Seq<char>) -> Seq<char>
    decreases s.len(),
{
    if s.len() > 0 && is_white_space(s[0]) {
        strip_start(s.drop_first())
    } else {
        s
    }
}

pub open spec fn strip_end(s: Seq<char>) -> Seq<char>
    decreases s.len(),
{
    if s.len() > 0 && is_white_space(s.last()) {
        strip_end(s.drop_last())
    } else {
        s
    }
}

/// The text without its leading and trailing white space.
pub open spec fn trim_spec(s: Seq<char>) -> Seq<char> {
    strip_end(strip_start(s))
}

pub open spec fn is_digit(c: char) -> bool {
    '0' <= c && c <= '9'
}

pub open spec fn all_digits(s: Seq<char>) -> bool {
    forall|i: int| 0 <= i < s.len() ==> #[trigger] is_digit(s[i])
}

/// The number that a run of decimal digits writes.
pub open spec fn digits_value(s: Seq<char>) -> nat
    decreases s.len(),
{
    if s.len() == 0 {
        0
    } else {
        digits_value(s.drop_last()) * 10 + ((s.last() as u32) - ('0' as u32)) as nat
    }
}

/// The digits of a number written with an optional leading `+`.
pub open spec fn unsigned_digits(s: Seq<char>) -> Seq<char> {
    if s.len() > 0 && s[0] == '+' {
        s.drop_first()
    } else {
        s
    }
}

/// What reading `s` as a `u64` gives: an optional `+`, then at least one
/// decimal digit and nothing else, of a value that fits in 64 bits.
pub open spec fn decimal_spec(s: Seq<char>) -> Option<u64> {
    let d = unsigned_digits(s);
    if d.len() > 0 && all_digits(d) && digits_value(d) <= u64::MAX {
        Some(digits_value(d) as u64)
    } else {
        None
    }
}

/// The number in a body, or zero where the body holds no number.
pub open spec fn number_or_zero(s: Seq<char>) -> u64 {
    match decimal_spec(s) {
        Some(n) => n,
        None => 0,
    }
}

/// The text that decoding `b` as UTF-8 gives, each invalid sequence replaced
/// by U+FFFD.
pub uninterp spec fn lossy_text(b: Seq<u8>) -> Seq<char>;

/// Relies on `String::from_utf8_lossy`, which decodes the bytes and replaces
/// each invalid sequence; its result depends on the bytes alone.
#[verifier::external_body]
fn decode_lossy(b: &[u8]) -> (r: String)
    ensures
        r@ == lossy_text(b@),
{
    String::from_utf8_lossy(b).into_owned()
}

/// Relies on `str::trim`, which drops leading and trailing white space.
#[verifier::external_body]
fn trim_text(s: &str) -> (r: &str)
    ensures
        r@ == trim_spec(s@),
{
    s.trim()
}

proof fn lemma_digits_value_grows(s: Seq<char>, i: int)
    requires
        0 <= i <= s.len(),
        all_digits(s),
    ensures
        digits_value(s.subrange(0, i)) <= digits_value(s),
    decreases s.len() - i,
{
    if i < s.len() {
        lemma_digits_value_grows(s, i + 1);
        let p = s.subrange(0, i + 1);
        assert(p.drop_last() =~= s.subrange(0, i));
        assert(is_digit(s[i]));
    } else {
        assert(s.subrange(0, i) =~= s);
    }
}

/// Reads `s` as an unsigned 64-bit decimal number.
pub fn parse_decimal(s: &str) -> (r: Option<u64>)
    ensures
        r == decimal_spec(s@),
{
    let n = s.unicode_len();
    let mut start: usize = 0;
    if n > 0 && s.get_char(0) == '+' {
        start = 1;
    }
    let ghost d = unsigned_digits(s@);
    assert(d =~= s@.subrange(start as int, n as int));
    if start == n {
        return None;
    }
    let mut acc: u64 = 0;
    let mut i: usize = start;
    while i < n
        invariant
            start <= i <= n,
            n == s@.len(),
            d == s@.subrange(start as int, n as int),
            d == unsigned_digits(s@),
            all_digits(d.subrange(0, i - start)),
            acc as nat == digits_value(d.subrange(0, i - start)),
        decreases n - i,
    {
        let c = s.get_char(i);
        let ghost k = i - start;
        assert(d[k] == c);
        if !('0' <= c && c <= '9') {
            assert(!is_digit(d[k]));
            assert(!all_digits(d));
            return None;
        }
        let v = (c as u32 - '0' as u32) as u64;
        assert(d.subrange(0, k + 1).drop_last() =~= d.subrange(0, k));
        assert(d.subrange(0, k + 1).last() == c);
        assert(digits_value(d.subrange(0, k + 1)) == acc * 10 + v);
        if acc > (u64::MAX - v) / 10 {
            proof {
                assert(acc * 10 + v > u64::MAX) by (nonlinear_arith)
                    requires acc > (u64::MAX - v) / 10, v <= 9;
                if all_digits(d) {
                    lemma_digits_value_grows(d, k + 1);
                }
            }
            return None;
        }
        acc = acc * 10 + v;
        i = i + 1;
        assert forall|j: int| 0 <= j < k + 1 implies #[trigger] is_digit(d.subrange(0, k + 1)[j]) by {
            if j < k {
                assert(d.subrange(0, k + 1)[j] == d.subrange(0, k)[j]);
            }
        }
    }
    assert(d.subrange(0, n - start) =~= d);
    Some(acc)
}

/// Reads an already trimmed body: its number, or zero where it holds none.
pub fn parse_trimmed(text: &str) -> (r: u64)
    ensures
        r == number_or_zero(text@),
{
    match parse_decimal(text) {
        Some(n) => n,
        None => 0,
    }
}

/// Reads a response body as a number: the bytes are decoded as UTF-8 with
/// replacement, trimmed of white space, and read as a decimal `u64`. A body
/// that holds no such number reads as zero; this never fails.
pub fn parse_body(body: &[u8]) -> (r: u64)
    ensures
        r == number_or_zero(trim_spec(lossy_text(body@))),
{
    let text = decode_lossy(body);
    let trimmed = trim_text(text.as_str());
    parse_trimmed(trimmed)
}

/// Reading a body never fails: text that holds no number, the empty text
/// among it, reads as zero, and text that holds one reads as that number.
pub proof fn lemma_malformed_reads_zero(s: Seq<char>)
    ensures
        decimal_spec(s) is None ==> number_or_zero(s) == 0,
        decimal_spec(s) matches Some(n) ==> number_or_zero(s) == n,
        s.len() == 0 ==> number_or_zero(s) == 0,
{
}

} // verus!
