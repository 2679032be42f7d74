//! API key generation and hashing.
//!
//! A credential stores only the hash of its secret; the secret itself
//! is shown once at creation and never stored in cleartext.

use rand::Rng;
use rand::distr::SampleString;
use sha2::Digest;
use vstd::prelude::*;

verus! {

/// The lowercase hexadecimal digit for a value below sixteen.
pub open spec fn hex_digit_lower(n: u8) -> char
    recommends
        n < 16,
{
    if n == 0 {
        '0'
    } else if n == 1 {
        '1'
    } else if n == 2 {
        '2'
    } else if n == 3 {
        '3'
    } else if n == 4 {
        '4'
    } else if n == 5 {
        '5'
    } else if n == 6 {
        '6'
    } else if n == 7 {
        '7'
    } else if n == 8 {
        '8'
    } else if n == 9 {
        '9'
    } else if n == 10 {
        'a'
    } else if n == 11 {
        'b'
    } else if n == 12 {
        'c'
    } else if n == 13 {
        'd'
    } else if n == 14 {
        'e'
    } else {
        'f'
    }
}

/// The two lowercase hexadecimal digits of a byte, high nibble first.
pub open spec fn hex_byte_lower(b: u8) -> Seq<char> {
    seq![hex_digit_lower(b / 16), hex_digit_lower(b % 16)]
}

/// The lowercase hexadecimal encoding of a byte sequence.
pub open spec fn hex_lower_of(bytes: Seq<u8>) -> Seq<char>
    decreases bytes.len(),
{
    if bytes.len() == 0 {
        Seq::empty()
    } else {
        hex_byte_lower(bytes[0]) + hex_lower_of(bytes.drop_first())
    }
}

/// The hexadecimal encoding of a sequence is twice as long as the
/// sequence itself.
pub proof fn lemma_hex_lower_len(bytes: Seq<u8>)
    ensures
        hex_lower_of(bytes).len() == 2 * bytes.len(),
    decreases bytes.len(),
{
    if bytes.len() > 0 {
        lemma_hex_lower_len(bytes.drop_first());
    }
}

/// Whether a character is a lowercase hexadecimal digit.
pub open spec fn is_hex_digit_lower(c: char) -> bool {
    ('0' <= c && c <= '9') || ('a' <= c && c <= 'f')
}

/// Every character of a hexadecimal encoding is a lowercase
/// hexadecimal digit.
pub proof fn lemma_hex_lower_chars(bytes: Seq<u8>)
    ensures
        forall|i: int|
            0 <= i < hex_lower_of(bytes).len() ==> is_hex_digit_lower(
                #[trigger] hex_lower_of(bytes)[i],
            ),
    decreases bytes.len(),
{
    if bytes.len() > 0 {
        lemma_hex_lower_chars(bytes.drop_first());
        assert(is_hex_digit_lower(hex_digit_lower(bytes[0] / 16)));
        assert(is_hex_digit_lower(hex_digit_lower(bytes[0] % 16)));
        assert forall|i: int|
            0 <= i < hex_lower_of(bytes).len() implies is_hex_digit_lower(
            #[trigger] hex_lower_of(bytes)[i]) by {
            if i >= 2 {
                assert(hex_lower_of(bytes)[i] == hex_lower_of(bytes.drop_first())[i - 2]);
            }
        }
    }
}

/// The SHA-256 digest of a string's bytes.
pub uninterp spec fn sha256_of(data: Seq<char>) -> Seq<u8>;

/// Relies on sha2::Sha256: the digest is a function of the input alone
/// and is 32 bytes long.
#[verifier::external_body]
fn sha256(data: &str) -> (r: Vec<u8>)
    ensures
        r@ == sha256_of(data@),
        r@.len() == 32,
{
    sha2::Sha256::digest(data.as_bytes()).to_vec()
}

/// Relies on base16::encode_lower: each input byte becomes its two
/// lowercase hexadecimal digits, high nibble first.
#[verifier::external_body]
fn encode_lower(input: &Vec<u8>) -> (r: String)
    ensures
        r@ == hex_lower_of(input@),
{
    base16::encode_lower(input)
}

/// Relies on rand: fills a buffer of the requested length from the
/// thread-local generator.  Nothing is promised of the bytes
/// themselves.
#[verifier::external_body]
fn random_bytes(len: usize) -> (r: Vec<u8>)
    ensures
        r@.len() == len,
{
    let mut bytes = vec![0u8; len];
    rand::rng().fill_bytes(&mut bytes);
    bytes
}

/// Whether a character is one an API key may contain: an ASCII letter
/// or digit.
pub open spec fn is_key_char(c: char) -> bool {
    ('a' <= c && c <= 'z') || ('A' <= c && c <= 'Z') || ('0' <= c && c <= '9')
}

/// Relies on rand's Alphanumeric distribution: the sampled string has
/// the requested length and draws only from a-z, A-Z and 0-9.
#[verifier::external_body]
fn alphanumeric_string(len: usize) -> (r: String)
    ensures
        r@.len() == len,
        forall|i: int| 0 <= i < r@.len() ==> is_key_char(r@[i]),
{
    rand::distr::Alphanumeric.sample_string(&mut rand::rng(), len)
}

/// Generates a new API key: 64 random alphanumeric characters.
pub fn generate_key() -> (r: String)
    ensures
        r@.len() == 64,
        forall|i: int| 0 <= i < r@.len() ==> is_key_char(r@[i]),
{
    alphanumeric_string(64)
}

/// Hashes an API key for storage: the lowercase hexadecimal encoding
/// of the SHA-256 digest of the key.
pub fn hash_key(key: &str) -> (r: String)
    ensures
        r@ == hex_lower_of(sha256_of(key@)),
        r@.len() == 64,
{
    let digest = sha256(key);
    let hex = encode_lower(&digest);
    proof {
        lemma_hex_lower_len(digest@);
    }
    hex
}

/// Creates a random HMAC signing secret: the lowercase hexadecimal
/// encoding of 256 random bytes.
pub fn random_signing_key() -> (r: String)
    ensures
        r@.len() == 512,
        exists|b: Seq<u8>| b.len() == 256 && r@ == #[trigger] hex_lower_of(b),
        forall|i: int| 0 <= i < r@.len() ==> is_hex_digit_lower(r@[i]),
{
    let bytes = random_bytes(256);
    let hex = encode_lower(&bytes);
    proof {
        lemma_hex_lower_len(bytes@);
        lemma_hex_lower_chars(bytes@);
        assert(bytes@.len() == 256 && hex@ == hex_lower_of(bytes@));
    }
    hex
}

} // verus!
