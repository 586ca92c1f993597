//! How a session token is made: a random identifier, a colon and the time of
//! issue in decimal, all of it in base64.

use base64::Engine;
use vstd::prelude::*;
use vstd::utf8::*;

verus! {

/// The byte that stands between the identifier and the time in a token's source.
pub const SEPARATOR: u8 = 58;

/// Whether `c` is one of `0`..`9`, `a`..`f`.
pub open spec fn is_lower_hex(c: char) -> bool {
    ('0' <= c && c <= '9') || ('a' <= c && c <= 'f')
}

/// Whether `text` has the shape of an identifier in its usual written form:
/// 36 characters, hyphens after the 8th, 12th, 16th and 20th digit, lower-case
/// hexadecimal digits elsewhere.
pub open spec fn is_hyphenated_uuid(text: Seq<char>) -> bool {
    &&& text.len() == 36
    &&& forall|i: int|
        0 <= i < 36 ==> if i == 8 || i == 13 || i == 18 || i == 23 {
            #[trigger] text[i] == '-'
        } else {
            is_lower_hex(text[i])
        }
}

/// The decimal digits of `n` as ASCII bytes, most significant first, without
/// leading zeros (`0` itself is the one digit `0`).
pub open spec fn decimal_digits(n: nat) -> Seq<u8>
    decreases n,
{
    if n < 10 {
        seq![(48 + n) as u8]
    } else {
        decimal_digits(n / 10).push((48 + n % 10) as u8)
    }
}

/// The bytes that a token encodes: the identifier, a colon, the time of issue.
pub open spec fn token_source(uuid: Seq<char>, now: u64) -> Seq<u8> {
    encode_utf8(uuid) + seq![SEPARATOR] + decimal_digits(now as nat)
}

/// The length in characters of the base64 form of `len` bytes.
pub open spec fn encoded_len(len: nat) -> nat {
    4 * ((len + 2) / 3)
}

/// The standard base64 form, with padding, of `data`.
pub uninterp spec fn base64_standard(data: Seq<u8>) -> Seq<char>;

/// The length of every token that is made at `now` from an identifier in its
/// usual written form: 36 characters, the colon and the digits of `now`, in
/// base64.
pub open spec fn token_len(now: u64) -> nat {
    encoded_len(37 + decimal_digits(now as nat).len())
}

/// The token made from the identifier `uuid` at the time `now`.
pub open spec fn token_of(uuid: Seq<char>, now: u64) -> Seq<char> {
    base64_standard(token_source(uuid, now))
}

/// Calls `Engine::encode` of the crate `base64` on its standard engine
/// (standard alphabet, padded). The contract names the text that comes back
/// `base64_standard` of the input and states its length, four characters for
/// every three bytes begun; the encoding itself was not proved here. The call
/// stops the program when the length of the result does not fit `usize`, so
/// such inputs are left out.
#[verifier::external_body]
fn encode_base64(data: &[u8]) -> (text: String)
    requires
        encoded_len(data@.len()) <= usize::MAX,
    ensures
        text@ == base64_standard(data@),
        text@.len() == encoded_len(data@.len()),
{
    base64::prelude::BASE64_STANDARD.encode(data)
}

/// Calls `Uuid::new_v4` of the crate `uuid` and writes the identifier out with
/// its `Display`. The identifier is random, so the contract states only the
/// shape that every outcome has. The call stops the program where the system
/// has no randomness to give.
#[verifier::external_body]
fn random_uuid() -> (text: String)
    ensures
        is_hyphenated_uuid(text@),
{
    uuid::Uuid::new_v4().to_string()
}

/// The digits of `m`, or nothing for zero: what is left to write of a number
/// whose last digits are written already.
spec fn leading_digits(m: nat) -> Seq<u8> {
    if m == 0 {
        Seq::empty()
    } else {
        decimal_digits(m)
    }
}

/// Ten to the power `k`.
spec fn ten_to(k: nat) -> nat
    decreases k,
{
    if k == 0 {
        1
    } else {
        10 * ten_to((k - 1) as nat)
    }
}

/// A number below ten to the `k` has at most `k` digits.
proof fn digits_are_few(n: nat, k: nat)
    requires
        k >= 1,
        n < ten_to(k),
    ensures
        decimal_digits(n).len() <= k,
    decreases k,
{
    if n >= 10 {
        assert(ten_to(1) == 10) by {
            reveal_with_fuel(ten_to, 2);
        }
        digits_are_few(n / 10, (k - 1) as nat);
    }
}

/// Every `u64` has between one and twenty digits.
pub proof fn decimal_digits_of_u64(n: u64)
    ensures
        1 <= decimal_digits(n as nat).len() <= 20,
{
    assert(ten_to(20) == 100_000_000_000_000_000_000nat) by {
        reveal_with_fuel(ten_to, 21);
    }
    digits_are_few(n as nat, 20);
}

/// The decimal digits of `n` as ASCII bytes.
pub fn decimal(n: u64) -> (digits: Vec<u8>)
    ensures
        digits@ == decimal_digits(n as nat),
{
    let mut digits: Vec<u8> = Vec::new();
    digits.push((n % 10) as u8 + 48);
    let mut rest: u64 = n / 10;
    while rest > 0
        invariant
            decimal_digits(n as nat) == leading_digits(rest as nat) + digits@,
        decreases rest,
    {
        digits.insert(0, (rest % 10) as u8 + 48);
        rest = rest / 10;
    }
    digits
}

/// Makes the token of the identifier `uuid` and the time `now`.
///
/// The identifier may be any text whose token has a length that fits `usize`.
pub fn mint_token(uuid: &str, now: u64) -> (token: String)
    requires
        encoded_len(token_source(uuid@, now).len()) <= usize::MAX,
    ensures
        token@ == token_of(uuid@, now),
        token@.len() == encoded_len(token_source(uuid@, now).len()),
{
    let mut source: Vec<u8> = Vec::new();
    source.extend_from_slice(uuid.as_bytes());
    source.push(SEPARATOR);
    let digits = decimal(now);
    source.extend_from_slice(digits.as_slice());
    assert(source@ =~= token_source(uuid@, now));
    encode_base64(source.as_slice())
}

/// Every token is between 52 and 76 characters long.
pub proof fn token_len_bounds(now: u64)
    ensures
        52 <= token_len(now) <= 76,
{
    decimal_digits_of_u64(now);
}

/// Makes a token for the time `now` from a fresh random identifier.
pub fn new_token(now: u64) -> (token: String)
    ensures
        exists|uuid: Seq<char>| is_hyphenated_uuid(uuid) && token@ == token_of(uuid, now),
        token@.len() == token_len(now),
        token@.len() > 0,
{
    let uuid = random_uuid();
    proof {
        assert(is_ascii_chars(uuid@));
        is_ascii_chars_encode_utf8(uuid@);
        decimal_digits_of_u64(now);
    }
    mint_token(uuid.as_str(), now)
}

} // verus!
