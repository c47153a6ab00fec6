//! Calls into outside crates, with what this library relies on of them.

use vstd::prelude::*;
use base64::Engine;

verus! {

/// The padded standard-alphabet base64 text of a byte sequence.
pub uninterp spec fn base64_standard(b: Seq<u8>) -> Seq<char>;

/// Relies on `base64::engine::general_purpose::STANDARD.encode`: the padded
/// standard-alphabet encoding of the bytes, which depends on the bytes
/// alone. It panics when the encoded length overflows `usize`, which the
/// bound on the input rules out.
#[verifier::external_body]
pub(crate) fn base64_encode(b: &[u8]) -> (r: String)
    requires
        b@.len() <= usize::MAX / 2,
    ensures
        r@ == base64_standard(b@),
{
    base64::engine::general_purpose::STANDARD.encode(b)
}

/// What bcrypt's comparison of a password with a stored hash gives:
/// `Some(matches)`, or `None` when the hash cannot be read.
pub uninterp spec fn bcrypt_verdict(password: Seq<char>, hash: Seq<char>) -> Option<bool>;

/// Relies on `bcrypt::verify`: it rehashes the password with the cost and
/// salt read from the stored hash and compares, so the outcome depends on
/// the two texts alone; an unreadable hash gives an error.
#[verifier::external_body]
pub(crate) fn bcrypt_verify(password: &str, hash: &str) -> (r: Option<bool>)
    ensures
        r == bcrypt_verdict(password@, hash@),
{
    bcrypt::verify(password, hash).ok()
}

/// What decoding a text as padded standard-alphabet base64 gives: the
/// bytes, or `None` when the text is not such base64.
pub uninterp spec fn base64_decoded(s: Seq<char>) -> Option<Seq<u8>>;

/// Relies on `base64::engine::general_purpose::STANDARD.decode`: the bytes
/// that the text encodes, or an error when it is not valid padded base64;
/// the outcome depends on the text alone.
#[verifier::external_body]
pub(crate) fn base64_decode(s: &str) -> (r: Option<Vec<u8>>)
    ensures
        match r {
            Some(b) => base64_decoded(s@) == Some(b@),
            None => base64_decoded(s@) is None,
        },
{
    base64::engine::general_purpose::STANDARD.decode(s).ok()
}

/// Relies on `String::from_utf8`: the text that the bytes encode as UTF-8,
/// or an error when they are not valid UTF-8.
#[verifier::external_body]
pub(crate) fn utf8_text(b: Vec<u8>) -> (r: Option<String>)
    ensures
        match r {
            Some(s) => vstd::utf8::valid_utf8(b@) && s@ == vstd::utf8::decode_utf8(b@),
            None => !vstd::utf8::valid_utf8(b@),
        },
{
    String::from_utf8(b).ok()
}

/// Relies on `bcrypt::hash` at `bcrypt::DEFAULT_COST`: a hash of the
/// password under a fresh random salt, or an error. Nothing is stated of
/// the result, which changes from call to call.
#[verifier::external_body]
pub(crate) fn bcrypt_hash(password: &str) -> (r: Option<String>) {
    bcrypt::hash(password, bcrypt::DEFAULT_COST).ok()
}

} // verus!
