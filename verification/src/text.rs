//! Small text computations: decimal numbers, `http://` URLs and host names
//! without their trailing dots.

use vstd::prelude::*;
use vstd::string::{StrSliceExecFns, StringExecFns};

verus! {

/// The character of a decimal digit.
pub open spec fn digit_char(d: int) -> char {
    if d == 0 { '0' }
    else if d == 1 { '1' }
    else if d == 2 { '2' }
    else if d == 3 { '3' }
    else if d == 4 { '4' }
    else if d == 5 { '5' }
    else if d == 6 { '6' }
    else if d == 7 { '7' }
    else if d == 8 { '8' }
    else { '9' }
}

/// The decimal representation of a natural number, without leading zeros.
pub open spec fn decimal(n: nat) -> Seq<char>
    decreases n,
{
    if n < 10 {
        seq![digit_char(n as int)]
    } else {
        decimal(n / 10).push(digit_char((n % 10) as int))
    }
}

/// The text of one decimal digit.
fn digit_str(d: u16) -> (s: &'static str)
    requires
        d < 10,
    ensures
        s@ == seq![digit_char(d as int)],
{
    proof {
        reveal_strlit("0");
        reveal_strlit("1");
        reveal_strlit("2");
        reveal_strlit("3");
        reveal_strlit("4");
        reveal_strlit("5");
        reveal_strlit("6");
        reveal_strlit("7");
        reveal_strlit("8");
        reveal_strlit("9");
    }
    if d == 0 { "0" }
    else if d == 1 { "1" }
    else if d == 2 { "2" }
    else if d == 3 { "3" }
    else if d == 4 { "4" }
    else if d == 5 { "5" }
    else if d == 6 { "6" }
    else if d == 7 { "7" }
    else if d == 8 { "8" }
    else { "9" }
}

/// Appends the decimal representation of `n`.
pub fn push_decimal(text: &mut String, n: u16)
    ensures
        final(text)@ == old(text)@ + decimal(n as nat),
    decreases n,
{
    if n >= 10 {
        push_decimal(text, n / 10);
    }
    text.append(digit_str(n % 10));
}

/// The value of a digit character: its distance from `'0'`.
pub open spec fn digit_value(c: char) -> int {
    (c as u32) as int - ('0' as u32) as int
}

/// The number a text of digits stands for in base 10.
pub open spec fn numeral_value(s: Seq<char>) -> int
    decreases s.len(),
{
    if s.len() == 0 {
        0
    } else {
        numeral_value(s.drop_last()) * 10 + digit_value(s.last())
    }
}

/// The character of a digit is that digit's place after `'0'`.
pub proof fn lemma_digit_char_value(d: int)
    requires
        0 <= d < 10,
    ensures
        '0' <= digit_char(d) <= '9',
        digit_value(digit_char(d)) == d,
{
}

/// The decimal representation of `n` is the base-10 numeral of `n`: made of
/// the digits `0` to `9`, read back in base 10 it gives `n`, and it has no
/// leading zero (so `0` alone is the numeral of zero).
pub proof fn lemma_decimal_is_numeral(n: nat)
    ensures
        decimal(n).len() >= 1,
        forall|i: int| 0 <= i < decimal(n).len() ==> '0' <= #[trigger] decimal(n)[i] <= '9',
        numeral_value(decimal(n)) == n,
        decimal(n)[0] == '0' ==> n == 0,
    decreases n,
{
    if n < 10 {
        lemma_digit_char_value(n as int);
        let s = decimal(n);
        assert(s.drop_last() =~= Seq::<char>::empty());
        assert(numeral_value(s.drop_last()) == 0);
        assert(numeral_value(s) == numeral_value(s.drop_last()) * 10 + digit_value(s.last()));
    } else {
        let q = n / 10;
        let r = (n % 10) as int;
        lemma_decimal_is_numeral(q);
        lemma_digit_char_value(r);
        let s = decimal(n);
        assert(s == decimal(q).push(digit_char(r)));
        assert(s.drop_last() =~= decimal(q));
        assert(q * 10 + r == n) by (nonlinear_arith)
            requires
                q == n / 10,
                r == n % 10,
        ;
        assert forall|i: int| 0 <= i < s.len() implies '0' <= #[trigger] s[i] <= '9' by {
            if i < s.len() - 1 {
                assert(s[i] == decimal(q)[i]);
            }
        }
        assert(s[0] == decimal(q)[0]);
        assert(s.last() == digit_char(r));
        assert(numeral_value(s) == numeral_value(s.drop_last()) * 10 + digit_value(s.last()));
    }
}

/// `http://{host}:{port}{path}`.
pub open spec fn http_url(host: Seq<char>, port: u16, path: Seq<char>) -> Seq<char> {
    "http://"@ + host + ":"@ + decimal(port as nat) + path
}

/// A formatted URL is the scheme `http://`, the host, a colon, the port's
/// base-10 numeral and the path, in that order; the port's part reads back as
/// the port.
pub proof fn lemma_http_url_parts(host: Seq<char>, port: u16, path: Seq<char>)
    ensures
        ({
            let url = http_url(host, port, path);
            let digits = decimal(port as nat);
            &&& url == seq!['h', 't', 't', 'p', ':', '/', '/'] + host + seq![':'] + digits + path
            &&& numeral_value(digits) == port
            &&& forall|i: int| 0 <= i < digits.len() ==> '0' <= #[trigger] digits[i] <= '9'
        }),
{
    reveal_strlit("http://");
    reveal_strlit(":");
    assert("http://"@ =~= seq!['h', 't', 't', 'p', ':', '/', '/']);
    assert(":"@ =~= seq![':']);
    lemma_decimal_is_numeral(port as nat);
}

/// Formats `http://{host}:{port}{path}`.
pub fn format_http_url(host: &str, port: u16, path: &str) -> (url: String)
    ensures
        url@ == http_url(host@, port, path@),
{
    let mut url = "http://".to_owned();
    url.append(host);
    url.append(":");
    push_decimal(&mut url, port);
    url.append(path);
    assert(url@ =~= http_url(host@, port, path@));
    url
}

/// A name with every trailing `.` removed.
pub open spec fn trim_trailing_dots(s: Seq<char>) -> Seq<char>
    decreases s.len(),
{
    if s.len() > 0 && s.last() == '.' {
        trim_trailing_dots(s.drop_last())
    } else {
        s
    }
}

/// Removes every trailing `.` from a name (`str::trim_end_matches('.')`).
pub fn trim_end_dots(s: &str) -> (trimmed: String)
    ensures
        trimmed@ == trim_trailing_dots(s@),
{
    let len = s.unicode_len();
    let mut end = len;
    assert(s@.subrange(0, len as int) =~= s@);
    loop
        invariant
            end <= len,
            len == s@.len(),
            trim_trailing_dots(s@) == trim_trailing_dots(s@.subrange(0, end as int)),
        ensures
            end <= len,
            trim_trailing_dots(s@) == trim_trailing_dots(s@.subrange(0, end as int)),
            end == 0 || s@[end - 1] != '.',
        decreases end,
    {
        if end == 0 {
            break;
        }
        if s.get_char(end - 1) != '.' {
            break;
        }
        assert(s@.subrange(0, end - 1) =~= s@.subrange(0, end as int).drop_last());
        end = end - 1;
    }
    let trimmed = s.substring_char(0, end).to_owned();
    assert(s@.subrange(0, end as int).len() == 0 || s@.subrange(0, end as int).last() == s@[end - 1]);
    trimmed
}

/// Removing trailing dots leaves a prefix without a trailing dot, and what it
/// removed is dots only.
pub proof fn lemma_trim_trailing_dots(s: Seq<char>)
    ensures
        trim_trailing_dots(s).len() <= s.len(),
        trim_trailing_dots(s) == s.subrange(0, trim_trailing_dots(s).len() as int),
        forall|i: int| trim_trailing_dots(s).len() <= i < s.len() ==> s[i] == '.',
        trim_trailing_dots(s).len() == 0 || trim_trailing_dots(s).last() != '.',
    decreases s.len(),
{
    if s.len() > 0 && s.last() == '.' {
        lemma_trim_trailing_dots(s.drop_last());
        let t = trim_trailing_dots(s.drop_last());
        assert(s.drop_last().subrange(0, t.len() as int) =~= s.subrange(0, t.len() as int));
        assert forall|i: int| t.len() <= i < s.len() implies s[i] == '.' by {
            if i < s.len() - 1 {
                assert(s.drop_last()[i] == s[i]);
            }
        }
    } else {
        assert(s.subrange(0, s.len() as int) =~= s);
    }
}

} // verus!
