use vstd::prelude::*;
use base64::Engine as _;
use rand::Rng as _;

verus! {

/// What `uuid::Uuid::parse_str` makes of a text: the UUID's 128-bit value,
/// or the text of the parse error.
pub uninterp spec fn uuid_parse(text: Seq<char>) -> Result<u128, Seq<char>>;

/// Calls `uuid::Uuid::parse_str` and returns the UUID as its 128-bit value
/// (`as_u128`), or the error's display text. Claimed: the result is
/// `uuid_parse` of the text, which depends on the text alone.
#[verifier::external_body]
pub(crate) fn parse_uuid(text: &str) -> (r: Result<u128, String>)
    ensures
        match r {
            Ok(v) => uuid_parse(text@) == Ok::<u128, Seq<char>>(v),
            Err(e) => uuid_parse(text@) == Err::<u128, Seq<char>>(e@),
        },
{
    match uuid::Uuid::parse_str(text) {
        Ok(u) => Ok(u.as_u128()),
        Err(e) => Err(e.to_string()),
    }
}

/// Calls `uuid::Uuid::new_v4` and returns the new UUID's 128-bit value.
/// Claimed: the version nibble is 4, as the source masks it in. The other
/// bits are random, so nothing else is said of them.
#[verifier::external_body]
pub(crate) fn new_uuid() -> (r: u128)
    ensures
        (r >> 76u128) & 0xfu128 == 4u128,
{
    uuid::Uuid::new_v4().as_u128()
}

/// What `uuid::Uuid::new_v5` makes of a name (its UTF-8 bytes) in the
/// OID namespace: a SHA-1 digest of namespace and name, cut to 128 bits,
/// as its 128-bit value.
pub uninterp spec fn name_based_uuid(name: Seq<char>) -> u128;

/// Calls `uuid::Uuid::new_v5` with `Uuid::NAMESPACE_OID` on the UTF-8
/// bytes of a text and returns the UUID's 128-bit value. Claimed: the
/// result is `name_based_uuid` of the text, which depends on the text
/// alone (the source hashes namespace and name with SHA-1).
#[verifier::external_body]
pub(crate) fn name_uuid(name: &str) -> (r: u128)
    ensures
        r == name_based_uuid(name@),
{
    uuid::Uuid::new_v5(&uuid::Uuid::NAMESPACE_OID, name.as_bytes()).as_u128()
}

/// A character of the URL-safe base64 alphabet: a letter, a digit, `-` or
/// `_`.
pub open spec fn url_safe_char(c: char) -> bool {
    ('A' <= c <= 'Z') || ('a' <= c <= 'z') || ('0' <= c <= '9') || c == '-' || c == '_'
}

/// The character of the URL-safe base64 alphabet for a six-bit value:
/// `A`-`Z`, `a`-`z`, `0`-`9`, then `-` and `_`.
pub open spec fn url_safe_digit(n: int) -> char {
    if n < 26 {
        (65 + n) as char
    } else if n < 52 {
        (71 + n) as char
    } else if n < 62 {
        (n - 4) as char
    } else if n == 62 {
        '-'
    } else {
        '_'
    }
}

/// The `i`-th group of six bits of some bytes, most significant bit
/// first; bits past the last byte count as zero.
pub open spec fn sextet(bytes: Seq<u8>, i: int) -> int {
    let k = (6 * i) / 8;
    let pair = bytes[k] as int * 256 + if k + 1 < bytes.len() {
        bytes[k + 1] as int
    } else {
        0
    };
    let shift = (6 * i) % 8;
    let d = if shift == 0 {
        1024int
    } else if shift == 2 {
        256int
    } else if shift == 4 {
        64int
    } else {
        16int
    };
    (pair / d) % 64
}

/// Bytes in URL-safe base64 without padding: one character for each six
/// bits, the last group filled up with zero bits.
pub open spec fn base64_url_no_pad(bytes: Seq<u8>) -> Seq<char> {
    Seq::new(((4 * bytes.len() + 2) / 3) as nat, |i: int| url_safe_digit(sextet(bytes, i)))
}

/// Every character of an encoding is of the URL-safe alphabet.
pub(crate) proof fn lemma_encoding_url_safe(bytes: Seq<u8>)
    ensures
        forall|i: int|
            0 <= i < base64_url_no_pad(bytes).len() ==> url_safe_char(
                #[trigger] base64_url_no_pad(bytes)[i],
            ),
{
    assert forall|i: int| 0 <= i < base64_url_no_pad(bytes).len() implies url_safe_char(
        #[trigger] base64_url_no_pad(bytes)[i],
    ) by {
        let n = sextet(bytes, i);
        assert(0 <= n < 64);
    }
}

/// Calls `encode` of `base64`'s engine built from `alphabet::URL_SAFE` and
/// `general_purpose::NO_PAD`. Claimed: the text is `base64_url_no_pad` of
/// the bytes, the standard encoding over the URL-safe alphabet with no
/// padding.
#[verifier::external_body]
pub(crate) fn encode_url_safe_no_pad(bytes: &[u8]) -> (r: String)
    ensures
        r@ == base64_url_no_pad(bytes@),
{
    base64::engine::GeneralPurpose::new(
        &base64::alphabet::URL_SAFE,
        base64::engine::general_purpose::NO_PAD,
    ).encode(bytes)
}

/// Draws a `[u8; 32]` from `rand::thread_rng()` and returns it as a vector.
/// Claimed: it holds 32 bytes; the bytes themselves are random.
#[verifier::external_body]
pub(crate) fn random_key_bytes() -> (r: Vec<u8>)
    ensures
        r@.len() == 32,
{
    let key: [u8; 32] = rand::thread_rng().gen();
    key.to_vec()
}

/// The lowercase hexadecimal digit for 0 to 15.
pub open spec fn hex_digit(n: int) -> char {
    if n < 10 {
        (48 + n) as char
    } else {
        (87 + n) as char
    }
}

/// The `k`-th hexadecimal digit of a 128-bit value, most significant first.
pub open spec fn hex_nibble(x: u128, k: int) -> int {
    (x as int / vstd::arithmetic::power::pow(16, (31 - k) as nat)) % 16
}

/// How many hyphens come before position `i` of a hyphenated UUID.
pub open spec fn hyphens_before(i: int) -> int {
    (if i > 8 { 1int } else { 0int }) + (if i > 13 { 1int } else { 0int }) + (if i > 18 {
        1int
    } else {
        0int
    }) + (if i > 23 { 1int } else { 0int })
}

/// A UUID as `uuid` displays it: 32 lowercase hex digits of the 128-bit
/// value, most significant first, with hyphens after the 8th, 12th, 16th
/// and 20th digit.
pub open spec fn uuid_text(x: u128) -> Seq<char> {
    Seq::new(
        36,
        |i: int|
            if i == 8 || i == 13 || i == 18 || i == 23 {
                '-'
            } else {
                hex_digit(hex_nibble(x, i - hyphens_before(i)))
            },
    )
}

/// Calls `to_string` on `uuid::Uuid::from_u128`. Claimed: the hyphenated
/// lowercase form, as `uuid_text` spells it out (the source's `Display`
/// writes `as_hyphenated` in lowercase).
#[verifier::external_body]
pub(crate) fn uuid_to_text(x: u128) -> (r: String)
    ensures
        r@ == uuid_text(x),
{
    uuid::Uuid::from_u128(x).to_string()
}

} // verus!
