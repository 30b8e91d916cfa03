//! Proof Key for Code Exchange (RFC 7636): the random code verifier drawn
//! from the unreserved characters, and its S256 code challenge, the
//! unpadded URL-safe Base64 form of the verifier's SHA-256 digest.

use base64::Engine;
use sha2::Digest;
use vstd::prelude::*;
use vstd::utf8::*;
use vstd::string::*;
use crate::text::{all_ascii, ascii_chars, lemma_ascii_decodes};

verus! {

/// Number of characters in a generated code verifier.
pub const CODE_VERIFIER_LENGTH: usize = 128;

/// Number of characters a code verifier is drawn from.
pub const CODE_VERIFIER_CHARSET_LEN: usize = 66;

/// The unreserved characters of RFC 3986, the only ones a code verifier may hold:
/// letters, digits, `-`, `.`, `_` and `~`.
pub open spec fn is_unreserved(b: u8) -> bool {
    (65 <= b <= 90) || (97 <= b <= 122) || (48 <= b <= 57) || b == 45 || b == 46 || b == 95
        || b == 126
}

/// The byte at position `i` of the code verifier alphabet
/// `A..Z a..z 0..9 - . _ ~`, in that order.
pub open spec fn charset_byte(i: nat) -> u8 {
    if i < 26 {
        (65 + i) as u8
    } else if i < 52 {
        (97 + (i - 26)) as u8
    } else if i < 62 {
        (48 + (i - 52)) as u8
    } else if i == 62 {
        45u8
    } else if i == 63 {
        46u8
    } else if i == 64 {
        95u8
    } else {
        126u8
    }
}

/// The position of an unreserved byte in the code verifier alphabet.
pub open spec fn charset_index(b: u8) -> nat {
    if 65 <= b <= 90 {
        (b - 65) as nat
    } else if 97 <= b <= 122 {
        (b - 97 + 26) as nat
    } else if 48 <= b <= 57 {
        (b - 48 + 52) as nat
    } else if b == 45 {
        62
    } else if b == 46 {
        63
    } else if b == 95 {
        64
    } else {
        65
    }
}

/// The code verifier alphabet is exactly the unreserved characters, each once:
/// every position names an unreserved byte, distinct positions name distinct
/// bytes, and every unreserved byte has a position.
pub proof fn lemma_charset_is_unreserved_alphabet()
    ensures
        forall|i: nat| i < 66 ==> is_unreserved(#[trigger] charset_byte(i)),
        forall|i: nat| i < 66 ==> charset_index(#[trigger] charset_byte(i)) == i,
        forall|i: nat, j: nat|
            i < 66 && j < 66 && i != j ==> #[trigger] charset_byte(i) != #[trigger] charset_byte(j),
        forall|b: u8|
            is_unreserved(b) ==> charset_index(b) < 66 && #[trigger] charset_byte(charset_index(b))
                == b,
{
    assert forall|i: nat, j: nat|
        i < 66 && j < 66 && i != j implies #[trigger] charset_byte(i) != #[trigger] charset_byte(
        j,
    ) by {
        assert(charset_index(charset_byte(i)) == i);
        assert(charset_index(charset_byte(j)) == j);
    }
}

/// The unreserved characters as characters: `A..Z a..z 0..9 - . _ ~`.
pub open spec fn is_unreserved_char(c: char) -> bool {
    ('A' <= c <= 'Z') || ('a' <= c <= 'z') || ('0' <= c <= '9') || c == '-' || c == '.' || c
        == '_' || c == '~'
}

/// A well-formed code verifier of this library: 128 unreserved characters.
pub open spec fn is_code_verifier(v: Seq<char>) -> bool {
    v.len() == CODE_VERIFIER_LENGTH && forall|i: int|
        0 <= i < v.len() ==> is_unreserved_char(#[trigger] v[i])
}

/// The alphabet of unpadded URL-safe Base64 (RFC 4648, section 5).
pub open spec fn base64_url_char(v: nat) -> char {
    if v < 26 {
        (65 + v) as char
    } else if v < 52 {
        (97 + (v - 26)) as char
    } else if v < 62 {
        (48 + (v - 52)) as char
    } else if v == 62 {
        '-'
    } else {
        '_'
    }
}

/// True for the characters `A..Z a..z 0..9 - _`.
pub open spec fn is_base64_url_char(c: char) -> bool {
    ('A' <= c <= 'Z') || ('a' <= c <= 'z') || ('0' <= c <= '9') || c == '-' || c == '_'
}

/// Unpadded URL-safe Base64: each group of three bytes gives four
/// characters of six bits each; a last group of one or two bytes gives two
/// or three characters, the missing low bits being zero.
pub open spec fn base64_url_no_pad(data: Seq<u8>) -> Seq<char>
    decreases data.len(),
{
    if data.len() == 0 {
        seq![]
    } else if data.len() == 1 {
        seq![base64_url_char((data[0] / 4) as nat), base64_url_char(((data[0] % 4) * 16) as nat)]
    } else if data.len() == 2 {
        seq![
            base64_url_char((data[0] / 4) as nat),
            base64_url_char(((data[0] % 4) * 16 + data[1] / 16) as nat),
            base64_url_char(((data[1] % 16) * 4) as nat),
        ]
    } else {
        seq![
            base64_url_char((data[0] / 4) as nat),
            base64_url_char(((data[0] % 4) * 16 + data[1] / 16) as nat),
            base64_url_char(((data[1] % 16) * 4 + data[2] / 64) as nat),
            base64_url_char((data[2] % 64) as nat),
        ] + base64_url_no_pad(data.skip(3))
    }
}

/// Length of the unpadded Base64 text of `n` bytes.
pub open spec fn base64_url_no_pad_len(n: nat) -> nat {
    (n / 3) * 4 + if n % 3 == 0 {
        0
    } else {
        n % 3 + 1
    }
}

/// Unpadded URL-safe Base64 text has the length `ceil(4n/3)` and uses only
/// the URL-safe alphabet.
pub proof fn lemma_base64_url_no_pad_shape(data: Seq<u8>)
    ensures
        base64_url_no_pad(data).len() == base64_url_no_pad_len(data.len()),
        forall|i: int|
            0 <= i < base64_url_no_pad(data).len() ==> is_base64_url_char(
                #[trigger] base64_url_no_pad(data)[i],
            ),
    decreases data.len(),
{
    if data.len() >= 3 {
        lemma_base64_url_no_pad_shape(data.skip(3));
        assert(base64_url_no_pad_len(data.len()) == base64_url_no_pad_len(
            (data.len() - 3) as nat,
        ) + 4);
    }
    let s = base64_url_no_pad(data);
    assert forall|i: int| 0 <= i < s.len() implies is_base64_url_char(#[trigger] s[i]) by {
        if data.len() >= 3 && i >= 4 {
            assert(s[i] == base64_url_no_pad(data.skip(3))[i - 4]);
        }
    }
}

/// Name for the SHA-256 digest of a byte sequence.
pub uninterp spec fn sha256(data: Seq<u8>) -> Seq<u8>;

/// `Sha256::digest` from `sha2`: the result is the SHA-256 digest of the
/// input, 32 bytes long.
#[verifier::external_body]
fn sha256_digest(data: &[u8]) -> (digest: Vec<u8>)
    ensures
        digest@ == sha256(data@),
        digest@.len() == 32,
{
    sha2::Sha256::digest(data).to_vec()
}

/// `Engine::encode` of `base64` with the `URL_SAFE_NO_PAD` engine: the
/// unpadded URL-safe Base64 text of the input. It panics when the length of
/// that text overflows `usize`, which the precondition leaves out.
#[verifier::external_body]
fn base64_url_no_pad_encode(data: &[u8]) -> (text: String)
    requires
        base64_url_no_pad_len(data@.len()) <= usize::MAX,
    ensures
        text@ == base64_url_no_pad(data@),
{
    base64::engine::general_purpose::URL_SAFE_NO_PAD.encode(data)
}

#[verifier::external_type_specification]
#[verifier::external_body]
pub struct ExThreadRng(rand::rngs::ThreadRng);

/// `rand::rng`: a handle to the thread-local random number generator.
/// Nothing is stated of it.
#[verifier::external_body]
fn thread_rng() -> rand::rngs::ThreadRng {
    rand::rng()
}

/// `Rng::random_range` over `0..bound`: a random index below `bound`.
/// It panics on an empty range, which the precondition leaves out; which
/// index comes out is chance.
#[verifier::external_body]
fn random_below(rng: &mut rand::rngs::ThreadRng, bound: usize) -> (r: usize)
    requires
        bound > 0,
    ensures
        r < bound,
{
    rand::Rng::random_range(rng, 0..bound)
}

/// The S256 code challenge of a code verifier: the unpadded URL-safe Base64
/// text of the SHA-256 digest of its UTF-8 bytes.
pub open spec fn code_challenge_of(verifier: Seq<char>) -> Seq<char> {
    base64_url_no_pad(sha256(encode_utf8(verifier)))
}

/// The shape of every S256 code challenge: 43 characters of the URL-safe
/// Base64 alphabet.
pub open spec fn is_challenge_shaped(challenge: Seq<char>) -> bool {
    challenge.len() == 43 && forall|i: int|
        0 <= i < challenge.len() ==> is_base64_url_char(#[trigger] challenge[i])
}

/// Computes the S256 code challenge of a code verifier.
pub fn code_challenge(verifier: &str) -> (challenge: String)
    ensures
        challenge@ == code_challenge_of(verifier@),
        challenge@ == base64_url_no_pad(sha256(encode_utf8(verifier@))),
        is_challenge_shaped(challenge@),
{
    let digest = sha256_digest(verifier.as_bytes());
    proof {
        lemma_base64_url_no_pad_shape(digest@);
    }
    base64_url_no_pad_encode(digest.as_slice())
}

/// The byte at a position of the code verifier alphabet.
pub fn code_verifier_byte(i: usize) -> (b: u8)
    requires
        i < CODE_VERIFIER_CHARSET_LEN,
    ensures
        b == charset_byte(i as nat),
{
    if i < 26 {
        65 + i as u8
    } else if i < 52 {
        97 + (i - 26) as u8
    } else if i < 62 {
        48 + (i - 52) as u8
    } else if i == 62 {
        45
    } else if i == 63 {
        46
    } else if i == 64 {
        95
    } else {
        126
    }
}

/// Spells out a code verifier from positions in its alphabet.
pub fn code_verifier_from_indices(indices: &[usize]) -> (verifier: Vec<u8>)
    requires
        forall|i: int| 0 <= i < indices@.len() ==> #[trigger] indices@[i] < CODE_VERIFIER_CHARSET_LEN,
    ensures
        verifier@.len() == indices@.len(),
        forall|i: int|
            0 <= i < indices@.len() ==> #[trigger] verifier@[i] == charset_byte(indices@[i] as nat),
{
    let mut verifier: Vec<u8> = Vec::new();
    let mut k: usize = 0;
    while k < indices.len()
        invariant
            k <= indices@.len(),
            forall|i: int| 0 <= i < indices@.len() ==> #[trigger] indices@[i] < CODE_VERIFIER_CHARSET_LEN,
            verifier@.len() == k,
            forall|i: int| 0 <= i < k ==> #[trigger] verifier@[i] == charset_byte(indices@[i] as nat),
        decreases indices@.len() - k,
    {
        verifier.push(code_verifier_byte(indices[k]));
        k = k + 1;
    }
    verifier
}

/// Builds a fresh code verifier of 128 random characters of the unreserved
/// alphabet, and its S256 code challenge. The result is always `Ok`.
pub fn build_code_challenge() -> (r: Result<(String, String), ()>)
    ensures
        r matches Ok((verifier, challenge)) && is_code_verifier(verifier@) && challenge@
            == code_challenge_of(verifier@) && is_challenge_shaped(challenge@) && challenge@
            == base64_url_no_pad(sha256(encode_utf8(verifier@))),
{
    let mut rng = thread_rng();
    let mut indices: Vec<usize> = Vec::new();
    while indices.len() < CODE_VERIFIER_LENGTH
        invariant
            indices@.len() <= CODE_VERIFIER_LENGTH,
            forall|i: int| 0 <= i < indices@.len() ==> #[trigger] indices@[i] < CODE_VERIFIER_CHARSET_LEN,
        decreases CODE_VERIFIER_LENGTH - indices@.len(),
    {
        let idx = random_below(&mut rng, CODE_VERIFIER_CHARSET_LEN);
        indices.push(idx);
    }
    let bytes = code_verifier_from_indices(indices.as_slice());
    proof {
        lemma_charset_is_unreserved_alphabet();
        assert(all_ascii(bytes@)) by {
            assert forall|i: int| 0 <= i < bytes@.len() implies #[trigger] bytes@[i] < 128 by {
                assert(bytes@[i] == charset_byte(indices@[i] as nat));
            }
        }
        lemma_ascii_decodes(bytes@);
    }
    let ghost byte_view = bytes@;
    match String::from_utf8(bytes) {
        Ok(verifier) => {
            let challenge = code_challenge(verifier.as_str());
            proof {
                assert(verifier@ == ascii_chars(byte_view));
                assert forall|i: int| 0 <= i < verifier@.len() implies is_unreserved_char(
                    #[trigger] verifier@[i],
                ) by {
                    assert(byte_view[i] == charset_byte(indices@[i] as nat));
                    assert(verifier@[i] == byte_view[i] as char);
                }
            }
            Ok((verifier, challenge))
        },
        Err(_) => Err(()),
    }
}

/// The S256 rule of RFC 7636: the challenge of a verifier is the unpadded
/// URL-safe Base64 text of the SHA-256 digest of all of the verifier's UTF-8
/// bytes, for every verifier.
pub proof fn lemma_code_challenge_is_s256(verifier: Seq<char>)
    ensures
        code_challenge_of(verifier) == base64_url_no_pad(sha256(encode_utf8(verifier))),
{
}

/// Two verifiers with the same UTF-8 bytes have the same challenge, and
/// whenever two challenges differ, the digests of the whole verifiers differ.
pub proof fn lemma_code_challenge_follows_whole_digest(v1: Seq<char>, v2: Seq<char>)
    ensures
        sha256(encode_utf8(v1)) == sha256(encode_utf8(v2)) ==> code_challenge_of(v1)
            == code_challenge_of(v2),
        code_challenge_of(v1) != code_challenge_of(v2) ==> sha256(encode_utf8(v1)) != sha256(
            encode_utf8(v2),
        ),
{
}

} // verus!
