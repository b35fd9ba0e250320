//! The fingerprint of a public key: the SHA-256 digest of its encoding,
//! written in base64 with the standard alphabet and padding.
//!
//! A client pins a self-signed certificate by this text instead of
//! validating a chain.

use base64::Engine;
use vstd::prelude::*;

verus! {

/// Length of a SHA-256 digest in bytes.
pub const DIGEST_BYTES: usize = 32;

/// Length of the fingerprint text: 32 bytes make ten full groups of four
/// characters and one padded group.
pub const FINGERPRINT_CHARS: usize = 44;

/// The character that stands for the six-bit value `value` in the standard
/// alphabet: `A`-`Z`, `a`-`z`, `0`-`9`, `+`, `/`.
pub open spec fn sextet_char(value: int) -> char
    recommends
        0 <= value < 64,
{
    if value < 26 {
        (value + 65) as char
    } else if value < 52 {
        (value - 26 + 97) as char
    } else if value < 62 {
        (value - 52 + 48) as char
    } else if value == 62 {
        '+'
    } else {
        '/'
    }
}

/// The six-bit value that `c` stands for, if it is of the alphabet. The
/// padding character `=` is not.
pub open spec fn char_sextet(c: char) -> Option<int> {
    let code = c as int;
    if 65 <= code <= 90 {
        Some(code - 65)
    } else if 97 <= code <= 122 {
        Some(code - 97 + 26)
    } else if 48 <= code <= 57 {
        Some(code - 48 + 52)
    } else if c == '+' {
        Some(62)
    } else if c == '/' {
        Some(63)
    } else {
        None
    }
}

/// The padded base64 text of `bytes`: four characters for every three
/// bytes, the last group filled up with `=`.
pub open spec fn base64_standard(bytes: Seq<u8>) -> Seq<char>
    decreases bytes.len(),
{
    if bytes.len() == 0 {
        Seq::empty()
    } else if bytes.len() == 1 {
        let b0 = bytes[0] as int;
        seq![sextet_char(b0 / 4), sextet_char((b0 % 4) * 16), '=', '=']
    } else if bytes.len() == 2 {
        let b0 = bytes[0] as int;
        let b1 = bytes[1] as int;
        seq![
            sextet_char(b0 / 4),
            sextet_char((b0 % 4) * 16 + b1 / 16),
            sextet_char((b1 % 16) * 4),
            '=',
        ]
    } else {
        let b0 = bytes[0] as int;
        let b1 = bytes[1] as int;
        let b2 = bytes[2] as int;
        seq![
            sextet_char(b0 / 4),
            sextet_char((b0 % 4) * 16 + b1 / 16),
            sextet_char((b1 % 16) * 4 + b2 / 64),
            sextet_char(b2 % 64),
        ] + base64_standard(bytes.skip(3))
    }
}

/// The bytes that a padded base64 text stands for, or `None` where the text
/// is no canonical encoding: a length that is no multiple of four, a
/// character outside the alphabet, padding anywhere but at the end, or unused
/// bits that are not zero.
pub open spec fn base64_decoded(text: Seq<char>) -> Option<Seq<u8>>
    decreases text.len(),
{
    if text.len() == 0 {
        Some(Seq::empty())
    } else if text.len() < 4 {
        None
    } else {
        match (char_sextet(text[0]), char_sextet(text[1])) {
            (Some(a), Some(b)) => {
                if text[3] == '=' {
                    if text.len() != 4 {
                        None
                    } else if text[2] == '=' {
                        if b % 16 == 0 {
                            Some(seq![(a * 4 + b / 16) as u8])
                        } else {
                            None
                        }
                    } else {
                        match char_sextet(text[2]) {
                            Some(c) => if c % 4 == 0 {
                                Some(seq![(a * 4 + b / 16) as u8, ((b % 16) * 16 + c / 4) as u8])
                            } else {
                                None
                            },
                            None => None,
                        }
                    }
                } else {
                    match (char_sextet(text[2]), char_sextet(text[3]), base64_decoded(text.skip(4))) {
                        (Some(c), Some(d), Some(rest)) => Some(
                            seq![
                                (a * 4 + b / 16) as u8,
                                ((b % 16) * 16 + c / 4) as u8,
                                ((c % 4) * 64 + d) as u8,
                            ] + rest,
                        ),
                        _ => None,
                    }
                }
            },
            _ => None,
        }
    }
}

/// Every six-bit value is recovered from its character, and no character of
/// the alphabet is the padding character.
pub proof fn lemma_alphabet(value: int)
    requires
        0 <= value < 64,
    ensures
        char_sextet(sextet_char(value)) == Some(value),
        sextet_char(value) != '=',
{
}

/// The text of `n` bytes has four characters for every started group of
/// three.
pub proof fn lemma_base64_len(bytes: Seq<u8>)
    ensures
        base64_standard(bytes).len() == 4 * ((bytes.len() + 2) / 3),
    decreases bytes.len(),
{
    if bytes.len() >= 3 {
        lemma_base64_len(bytes.skip(3));
    }
}

/// Decoding undoes encoding: the text of any bytes is canonical and stands
/// for just those bytes.
pub proof fn lemma_base64_round_trip(bytes: Seq<u8>)
    ensures
        base64_decoded(base64_standard(bytes)) == Some(bytes),
    decreases bytes.len(),
{
    let text = base64_standard(bytes);
    if bytes.len() == 0 {
        assert(bytes =~= Seq::<u8>::empty());
    } else {
        let b0 = bytes[0] as int;
        let s0 = b0 / 4;
        lemma_alphabet(s0);
        if bytes.len() == 1 {
            let s1 = (b0 % 4) * 16;
            lemma_alphabet(s1);
            assert(base64_decoded(text).unwrap() =~= bytes);
        } else {
            let b1 = bytes[1] as int;
            let s1 = (b0 % 4) * 16 + b1 / 16;
            lemma_alphabet(s1);
            if bytes.len() == 2 {
                let s2 = (b1 % 16) * 4;
                lemma_alphabet(s2);
                assert(base64_decoded(text).unwrap() =~= bytes);
            } else {
                let b2 = bytes[2] as int;
                let s2 = (b1 % 16) * 4 + b2 / 64;
                let s3 = b2 % 64;
                lemma_alphabet(s2);
                lemma_alphabet(s3);
                let rest = bytes.skip(3);
                lemma_base64_round_trip(rest);
                assert(text.skip(4) =~= base64_standard(rest));
                assert(text[0] == sextet_char(s0));
                assert(text[1] == sextet_char(s1));
                assert(text[2] == sextet_char(s2));
                assert(text[3] == sextet_char(s3));
                assert(seq![bytes[0], bytes[1], bytes[2]] + rest =~= bytes);
                assert(base64_decoded(text).unwrap() =~= bytes);
            }
        }
    }
}

/// Different bytes have different texts.
pub proof fn lemma_base64_injective(a: Seq<u8>, b: Seq<u8>)
    requires
        base64_standard(a) == base64_standard(b),
    ensures
        a == b,
{
    lemma_base64_round_trip(a);
    lemma_base64_round_trip(b);
}

/// The SHA-256 digest of `data`, as FIPS 180-4 defines it.
pub uninterp spec fn sha256(data: Seq<u8>) -> Seq<u8>;

/// The fingerprint text of a public key in its encoded form.
pub open spec fn fingerprint_of(public_key: Seq<u8>) -> Seq<char> {
    base64_standard(sha256(public_key))
}

/// Calls `ring::digest::digest` with `ring::digest::SHA256`. Trusted: the
/// bytes returned are the SHA-256 digest of `data`, and there are 32 of them.
#[verifier::external_body]
fn sha256_digest(data: &[u8]) -> (digest: Vec<u8>)
    ensures
        digest@ == sha256(data@),
        digest@.len() == DIGEST_BYTES,
{
    ring::digest::digest(&ring::digest::SHA256, data).as_ref().to_vec()
}

/// Calls `base64::Engine::encode` on `base64::engine::general_purpose::STANDARD`.
/// Trusted: the text returned is the padded base64 of `data` in the standard
/// alphabet. The bound keeps the length of that text within `usize`, beyond
/// which the call panics.
#[verifier::external_body]
fn encode_standard(data: &[u8]) -> (text: String)
    requires
        4 * ((data@.len() + 2) / 3) <= usize::MAX,
    ensures
        text@ == base64_standard(data@),
{
    base64::engine::general_purpose::STANDARD.encode(data)
}

/// Computes the fingerprint of a public key from its encoded form: 44
/// characters that decode to the 32 bytes of its SHA-256 digest.
pub fn fingerprint(public_key: &[u8]) -> (text: String)
    ensures
        text@ == fingerprint_of(public_key@),
        text@.len() == FINGERPRINT_CHARS,
        base64_decoded(text@) == Some(sha256(public_key@)),
        sha256(public_key@).len() == DIGEST_BYTES,
{
    let digest = sha256_digest(public_key);
    let text = encode_standard(digest.as_slice());
    proof {
        lemma_base64_len(digest@);
        lemma_base64_round_trip(digest@);
    }
    text
}

} // verus!
