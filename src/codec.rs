//! Byte and text encodings, randomness and the clock, each relying on one
//! outside function.

use vstd::prelude::*;
use vstd::string::StrSliceExecFns;
use crate::text::join2;
use vstd::utf8::{decode_utf8, valid_utf8};
use base64::Engine;
use rand::Rng;

verus! {

/// The lowercase hexadecimal digit for a value below sixteen.
pub open spec fn hex_char(n: int) -> char {
    "0123456789abcdef"@[n]
}

/// Two lowercase hexadecimal digits per byte, high nibble first.
pub open spec fn hex_of(b: Seq<u8>) -> Seq<char> {
    Seq::new(
        2 * b.len(),
        |i: int|
            if i % 2 == 0 {
                hex_char(b[i / 2] as int / 16)
            } else {
                hex_char(b[i / 2] as int % 16)
            },
    )
}

/// The lowercase hexadecimal numeral of `n`, without leading zeros.
pub open spec fn hex_numeral(n: nat) -> Seq<char>
    decreases n,
{
    if n < 16 {
        seq![hex_char(n as int)]
    } else {
        hex_numeral(n / 16).push(hex_char((n % 16) as int))
    }
}

/// The decimal numeral of `n`, without leading zeros.
pub open spec fn dec_numeral(n: nat) -> Seq<char>
    decreases n,
{
    if n < 10 {
        seq!["0123456789"@[n as int]]
    } else {
        dec_numeral(n / 10).push("0123456789"@[(n % 10) as int])
    }
}

/// What base64's standard engine (padded alphabet) produces for a byte string.
pub uninterp spec fn base64_of(b: Seq<u8>) -> Seq<char>;

/// What base64's standard engine decodes a text into, if it accepts it.
pub uninterp spec fn base64_decoded(s: Seq<char>) -> Option<Seq<u8>>;

/// Relies on `hex::encode`: two lowercase digits for each byte, in order.
#[verifier::external_body]
pub(crate) fn hex_encode(b: &[u8]) -> (r: String)
    ensures
        r@ == hex_of(b@),
{
    hex::encode(b)
}

/// The numeral of `n` in base sixteen or ten.
pub open spec fn numeral(n: nat, base: u64) -> Seq<char> {
    if base == 16 {
        hex_numeral(n)
    } else {
        dec_numeral(n)
    }
}

fn numeral_string(n: u64, base: u64) -> (r: String)
    requires
        base == 16 || base == 10,
    ensures
        r@ == numeral(n as nat, base),
{
    proof {
        reveal_strlit("0123456789abcdef");
        reveal_strlit("0123456789");
    }
    let digits = if base == 16 {
        "0123456789abcdef"
    } else {
        "0123456789"
    };
    let mut x = n;
    let mut acc = String::new();
    while x >= base
        invariant
            base == 16 || base == 10,
            digits@ == if base == 16 {
                "0123456789abcdef"@
            } else {
                "0123456789"@
            },
            digits@.len() == base,
            numeral(n as nat, base) == numeral(x as nat, base) + acc@,
        decreases x,
    {
        let d = x % base;
        let ds = digits.substring_char(d as usize, d as usize + 1);
        proof {
            assert(ds@ =~= seq![digits@[d as int]]);
            assert(numeral(x as nat, base) == numeral((x / base) as nat, base).push(
                digits@[d as int],
            ));
            assert(numeral((x / base) as nat, base).push(digits@[d as int]) + acc@ =~= numeral(
                (x / base) as nat,
                base,
            ) + (ds@ + acc@));
        }
        acc = join2(ds, acc.as_str());
        x = x / base;
    }
    let ds = digits.substring_char(x as usize, x as usize + 1);
    proof {
        assert(ds@ =~= seq![digits@[x as int]]);
    }
    join2(ds, acc.as_str())
}

/// The `{:x}` formatting of `u64`: lowercase digits, no leading zeros.
pub(crate) fn hex_u64(n: u64) -> (r: String)
    ensures
        r@ == hex_numeral(n as nat),
{
    numeral_string(n, 16)
}

/// The `{}` formatting of `u64`: decimal digits, no leading zeros.
pub(crate) fn dec_u64(n: u64) -> (r: String)
    ensures
        r@ == dec_numeral(n as nat),
{
    numeral_string(n, 10)
}

/// Relies on base64's `STANDARD.encode`; decoding its output gives the input back.
#[verifier::external_body]
pub(crate) fn base64_encode(b: &[u8]) -> (r: String)
    ensures
        r@ == base64_of(b@),
        base64_decoded(r@) == Some(b@),
{
    base64::engine::general_purpose::STANDARD.encode(b)
}

/// Relies on base64's `STANDARD.decode`; a rejected text gives `None`.
#[verifier::external_body]
pub(crate) fn base64_decode(s: &str) -> (r: Option<Vec<u8>>)
    ensures
        match r {
            Some(v) => base64_decoded(s@) == Some(v@),
            None => base64_decoded(s@) is None,
        },
{
    base64::engine::general_purpose::STANDARD.decode(s).ok()
}

/// Relies on `String::from_utf8`: it accepts exactly the valid UTF-8 byte strings.
#[verifier::external_body]
pub(crate) fn utf8_string(b: Vec<u8>) -> (r: Option<String>)
    ensures
        r is Some <==> valid_utf8(b@),
        r matches Some(s) ==> s@ == decode_utf8(b@),
{
    String::from_utf8(b).ok()
}

/// Relies on `rand::Rng::fill` with the thread-local generator: `n` random bytes.
#[verifier::external_body]
pub(crate) fn random_bytes(n: usize) -> (r: Vec<u8>)
    ensures
        r@.len() == n,
{
    let mut v = vec![0u8; n];
    rand::thread_rng().fill(&mut v[..]);
    v
}

/// Relies on `SystemTime::now().duration_since(UNIX_EPOCH)`: the current time
/// in milliseconds since the Unix epoch, or `None` when the clock reads before
/// the epoch or too far after it for an `i64`.
#[verifier::external_body]
pub(crate) fn now_millis() -> (r: Option<i64>)
    ensures
        r matches Some(t) ==> t >= 0,
{
    let since = std::time::SystemTime::now().duration_since(std::time::UNIX_EPOCH).ok()?;
    i64::try_from(since.as_millis()).ok()
}

} // verus!
