//! Percent-encoding and the coordinator request URLs.

use vstd::prelude::*;
use vstd::string::StringExecFns;
use crate::hex::hex_char;

verus! {

/// A character that percent-encoding passes through unchanged: ASCII
/// alphanumerics and '-', '.', '_', '~'.
pub open spec fn is_unreserved(c: char) -> bool {
    ||| 48 <= c as int && c as int <= 57
    ||| 65 <= c as int && c as int <= 90
    ||| 97 <= c as int && c as int <= 122
    ||| c == '-' || c == '.' || c == '_' || c == '~'
}

/// The uppercase hex digit character for a value below 16.
pub open spec fn hex_upper(n: int) -> char {
    if n == 10 {
        'A'
    } else if n == 11 {
        'B'
    } else if n == 12 {
        'C'
    } else if n == 13 {
        'D'
    } else if n == 14 {
        'E'
    } else if n == 15 {
        'F'
    } else {
        hex_char(n)
    }
}

/// The percent-encoding of one ASCII character.
pub open spec fn enc_char(c: char) -> Seq<char> {
    if is_unreserved(c) {
        seq![c]
    } else {
        seq!['%', hex_upper(c as int / 16), hex_upper(c as int % 16)]
    }
}

/// The character-wise percent-encoding of an ASCII string.
pub open spec fn percent_encoded_ascii(s: Seq<char>) -> Seq<char>
    decreases s.len(),
{
    if s.len() == 0 {
        seq![]
    } else {
        enc_char(s[0]) + percent_encoded_ascii(s.drop_first())
    }
}

/// All characters of a string are ASCII.
pub open spec fn all_ascii(s: Seq<char>) -> bool {
    forall|i: int| 0 <= i < s.len() ==> #[trigger] (s[i] as int) <= 127
}

/// What urlencoding::encode returns for a string: a function of its
/// characters alone.
pub uninterp spec fn percent_encoded(s: Seq<char>) -> Seq<char>;

/// Relies on urlencoding::encode: percent-encodes every byte except ASCII
/// alphanumerics and '-', '.', '_', '~', with uppercase hex digits; on an
/// ASCII string that is exactly the character-wise encoding.
#[verifier::external_body]
pub(crate) fn url_encode(s: &String) -> (r: String)
    ensures
        r@ == percent_encoded(s@),
        all_ascii(s@) ==> r@ == percent_encoded_ascii(s@),
{
    urlencoding::encode(s.as_str()).into_owned()
}

/// The decimal rendering of a number, most significant digit first.
pub open spec fn dec_digits(n: nat) -> Seq<char>
    decreases n,
{
    if n < 10 {
        seq![hex_char(n as int)]
    } else {
        dec_digits(n / 10) + seq![hex_char(n as int % 10)]
    }
}

/// Renders a number in decimal.
pub fn u64_to_dec(n: u64) -> (r: String)
    ensures
        r@ == dec_digits(n as nat),
    decreases n,
{
    if n < 10 {
        String::from_str(crate::hex::hex_digit_str(n as u8))
    } else {
        let mut s = u64_to_dec(n / 10);
        s.append(crate::hex::hex_digit_str((n % 10) as u8));
        s
    }
}

/// Builds the coordinator lease request URL: the base, the fixed path and
/// query keys, the percent-encoded worker id and user agent, and the
/// requested item count in decimal.
pub fn lease_query(base: &String, worker_id: &String, n: u64, ua: &String) -> (r: String)
    ensures
        r@ == base@ + "/spider/lease?worker_id="@ + percent_encoded(worker_id@) + "&n="@
            + dec_digits(n as nat) + "&ua="@ + percent_encoded(ua@),
{
    let mut r = base.clone();
    r.append("/spider/lease?worker_id=");
    let ew = url_encode(worker_id);
    r.append(ew.as_str());
    r.append("&n=");
    let en = u64_to_dec(n);
    r.append(en.as_str());
    r.append("&ua=");
    let eu = url_encode(ua);
    r.append(eu.as_str());
    proof {
        assert(r@ =~= base@ + "/spider/lease?worker_id="@ + percent_encoded(worker_id@) + "&n="@
            + dec_digits(n as nat) + "&ua="@ + percent_encoded(ua@));
    }
    r
}

/// Builds the coordinator result submission URL.
pub fn result_url(base: &String) -> (r: String)
    ensures
        r@ == base@ + "/spider/result"@,
{
    let mut r = base.clone();
    r.append("/spider/result");
    r
}

} // verus!
