use vstd::prelude::*;
use vstd::utf8::encode_utf8;
use aes::cipher::block_padding::Pkcs7;
use aes::cipher::BlockEncryptMut;
use aes::cipher::KeyIvInit;
use base64::prelude::BASE64_STANDARD;
use base64::Engine;

verus! {

/// The 32 bytes that PBKDF2 derives with HMAC-SHA1 from a password, a salt and a number
/// of rounds.
pub uninterp spec fn pbkdf2_hmac_sha1(password: Seq<u8>, salt: Seq<u8>, rounds: u32) -> Seq<u8>;

/// What AES-256 in CBC mode makes of a message that is first padded as PKCS#7 says.
pub uninterp spec fn aes256_cbc_pkcs7(key: Seq<u8>, iv: Seq<u8>, message: Seq<u8>) -> Seq<u8>;

/// The standard base64 form of some bytes, with padding.
pub uninterp spec fn base64_standard(bytes: Seq<u8>) -> Seq<char>;

/// Whether a byte is written as it is when a text is percent-encoded: the letters and
/// digits of ASCII, `-`, `.`, `_` and `~`.
pub open spec fn is_unreserved(byte: u8) -> bool {
    ||| 0x30 <= byte <= 0x39
    ||| 0x41 <= byte <= 0x5a
    ||| 0x61 <= byte <= 0x7a
    ||| byte == 0x2d
    ||| byte == 0x2e
    ||| byte == 0x5f
    ||| byte == 0x7e
}

/// The hexadecimal digit for a number below sixteen, in upper case.
pub open spec fn hex_digit(nibble: u8) -> char {
    if nibble < 10 {
        (0x30 + nibble) as char
    } else {
        (0x41 + nibble - 10) as char
    }
}

/// The percent-encoded form of some bytes: an unreserved byte is written as the
/// character that it is, any other as `%` and its two hexadecimal digits.
pub open spec fn percent_encoded_bytes(bytes: Seq<u8>) -> Seq<char>
    decreases bytes.len(),
{
    if bytes.len() == 0 {
        Seq::empty()
    } else {
        let front = percent_encoded_bytes(bytes.drop_last());
        let byte = bytes.last();
        if is_unreserved(byte) {
            front.push(byte as char)
        } else {
            front.push('%').push(hex_digit(byte / 16)).push(hex_digit(byte % 16))
        }
    }
}

/// The percent-encoded form of a text, that is of its bytes in UTF-8.
pub open spec fn percent_encoded(text: Seq<char>) -> Seq<char> {
    percent_encoded_bytes(encode_utf8(text))
}

/// The length of a message of `length` bytes once PKCS#7 has padded it to whole blocks
/// of 16 bytes: the padding is never empty.
pub open spec fn padded_len(length: nat) -> nat {
    length / 16 * 16 + 16
}

/// `pbkdf2::pbkdf2_hmac_array` with SHA-1 and 32 bytes of output: the key depends on
/// the password, the salt and the rounds alone.
#[verifier::external_body]
pub(crate) fn derive_key(password: &[u8], salt: &[u8], rounds: u32) -> (key: [u8; 32])
    ensures
        key@ == pbkdf2_hmac_sha1(password@, salt@, rounds),
{
    pbkdf2::pbkdf2_hmac_array::<sha1::Sha1, 32>(password, salt, rounds)
}

/// `encrypt_padded_b2b_mut` of a `cbc::Encryptor<aes::Aes256>` with PKCS#7 padding, into
/// the buffer given. It refuses exactly when the padded message does not fit the
/// buffer. Else it says how many bytes it has written, which is the length of the
/// padded message; these bytes stand at the front of the buffer and depend on the key,
/// the initialisation vector and the message alone.
#[verifier::external_body]
pub(crate) fn encrypt(key: &[u8; 32], iv: &[u8; 16], message: &[u8], buffer: &mut [u8]) -> (written:
    Option<usize>)
    ensures
        final(buffer)@.len() == old(buffer)@.len(),
        written.is_some() == (padded_len(message@.len()) <= old(buffer)@.len()),
        written matches Some(n) ==> n == padded_len(message@.len()) && final(buffer)@.take(
            n as int,
        ) == aes256_cbc_pkcs7(key@, iv@, message@),
{
    let cipher = cbc::Encryptor::<aes::Aes256>::new(&(*key).into(), &(*iv).into());
    cipher.encrypt_padded_b2b_mut::<Pkcs7>(message, buffer).ok().map(|sealed| sealed.len())
}

/// `encode` of base64's standard engine. It is not to be called with so many bytes
/// that the length of the result cannot be counted.
#[verifier::external_body]
pub(crate) fn base64_encode(bytes: &[u8]) -> (text: String)
    requires
        bytes@.len() / 3 * 4 + 4 <= usize::MAX,
    ensures
        text@ == base64_standard(bytes@),
{
    BASE64_STANDARD.encode(bytes)
}

/// `urlencoding::encode`: every byte of the text but the unreserved ones is written as
/// `%` and two hexadecimal digits in upper case.
#[verifier::external_body]
pub(crate) fn url_encode(text: &str) -> (encoded: String)
    ensures
        encoded@ == percent_encoded(text@),
{
    urlencoding::encode(text).into_owned()
}

} // verus!
