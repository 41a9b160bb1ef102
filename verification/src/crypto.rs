//! The cryptographic primitives the webhook signature is made of.
use vstd::prelude::*;
use base64::Engine;
use hmac::Mac;

verus! {

/// The HMAC-SHA256 tag of `message` under `key` (RFC 2104 over SHA-256).
pub uninterp spec fn hmac_sha256_tag(key: Seq<u8>, message: Seq<u8>) -> Seq<u8>;

/// The character of a six-bit value in the standard base64 alphabet (RFC 4648):
/// `A`–`Z`, `a`–`z`, `0`–`9`, `+`, `/`.
pub open spec fn base64_char(v: int) -> char {
    if v < 26 {
        (65 + v) as char
    } else if v < 52 {
        (97 + v - 26) as char
    } else if v < 62 {
        (48 + v - 52) as char
    } else if v == 62 {
        '+'
    } else {
        '/'
    }
}

/// Whether `c` is a character of the standard base64 alphabet.
pub open spec fn is_base64_char(c: char) -> bool {
    ||| 'A' <= c <= 'Z'
    ||| 'a' <= c <= 'z'
    ||| '0' <= c <= '9'
    ||| c == '+'
    ||| c == '/'
}

/// The standard base64 encoding of `bytes` (RFC 4648): each group of three bytes gives
/// four characters of six bits each; a last group of one or two bytes is padded with `=`.
pub open spec fn base64_standard(b: Seq<u8>) -> Seq<char>
    decreases b.len(),
{
    if b.len() == 0 {
        Seq::empty()
    } else if b.len() == 1 {
        seq![base64_char((b[0] as int) / 4), base64_char(((b[0] as int) % 4) * 16), '=', '=']
    } else if b.len() == 2 {
        seq![
            base64_char((b[0] as int) / 4),
            base64_char(((b[0] as int) % 4) * 16 + (b[1] as int) / 16),
            base64_char(((b[1] as int) % 16) * 4),
            '=',
        ]
    } else {
        seq![
            base64_char((b[0] as int) / 4),
            base64_char(((b[0] as int) % 4) * 16 + (b[1] as int) / 16),
            base64_char(((b[1] as int) % 16) * 4 + (b[2] as int) / 64),
            base64_char((b[2] as int) % 64),
        ] + base64_standard(b.skip(3))
    }
}

/// How many `=` end the encoding of `n` bytes.
pub open spec fn base64_padding(n: nat) -> nat {
    if n % 3 == 1 {
        2
    } else if n % 3 == 2 {
        1
    } else {
        0
    }
}

/// The encoding of `n` bytes has `4 * ceil(n / 3)` characters: alphabet characters, then
/// the padding.
pub proof fn law_base64_shape(b: Seq<u8>)
    ensures
        base64_standard(b).len() == 4 * ((b.len() + 2) / 3),
        forall|i: int|
            0 <= i < base64_standard(b).len() - base64_padding(b.len()) ==> is_base64_char(
                #[trigger] base64_standard(b)[i],
            ),
        forall|i: int|
            base64_standard(b).len() - base64_padding(b.len()) <= i < base64_standard(b).len()
                ==> #[trigger] base64_standard(b)[i] == '=',
    decreases b.len(),
{
    assert forall|v: int| 0 <= v < 64 implies is_base64_char(#[trigger] base64_char(v)) by {}
    if b.len() >= 3 {
        let rest = b.skip(3);
        law_base64_shape(rest);
        let s = base64_standard(b);
        let r = base64_standard(rest);
        assert(base64_padding(rest.len()) == base64_padding(b.len()));
        assert forall|i: int| 4 <= i < s.len() implies s[i] == r[i - 4] by {}
        assert((b[0] as int) / 4 < 64 && ((b[0] as int) % 4) * 16 + (b[1] as int) / 16 < 64);
        assert(((b[1] as int) % 16) * 4 + (b[2] as int) / 64 < 64 && (b[2] as int) % 64 < 64);
    } else if b.len() == 2 {
        assert((b[0] as int) / 4 < 64 && ((b[0] as int) % 4) * 16 + (b[1] as int) / 16 < 64 && ((b[1] as int) % 16) * 4 < 64);
    } else if b.len() == 1 {
        assert((b[0] as int) / 4 < 64 && ((b[0] as int) % 4) * 16 < 64);
    }
}

/// Calls `hmac::Hmac::<sha2::Sha256>::new_from_slice(key)`, `update(message)` and
/// `finalize().into_bytes()`. Claims: the tag is `hmac_sha256_tag(key, message)` and is
/// 32 bytes long (SHA-256's output size). `new_from_slice` accepts keys of any length
/// (the hmac source pads or hashes the key and always returns `Ok`).
#[verifier::external_body]
pub(crate) fn hmac_sha256(key: &[u8], message: &[u8]) -> (tag: Vec<u8>)
    ensures
        tag@ == hmac_sha256_tag(key@, message@),
        tag@.len() == 32,
{
    let mut mac = hmac::Hmac::<sha2::Sha256>::new_from_slice(key).expect("HMAC accepts any key length");
    mac.update(message);
    mac.finalize().into_bytes().to_vec()
}

/// Calls `base64::engine::general_purpose::STANDARD.encode(bytes)`. Claims: the text is
/// `base64_standard(bytes)`, the standard alphabet with padding. The crate panics when the
/// encoded length overflows `usize`, which `requires` rules out.
#[verifier::external_body]
pub(crate) fn base64_encode(bytes: &[u8]) -> (text: String)
    requires
        bytes@.len() <= usize::MAX / 2,
    ensures
        text@ == base64_standard(bytes@),
{
    base64::engine::general_purpose::STANDARD.encode(bytes)
}

} // verus!
