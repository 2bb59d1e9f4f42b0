use std::str::FromStr;
use vstd::prelude::*;

verus! {

use crate::errors::AuthError;

/// The fields of a sign-in message that sessions are built from, as
/// mathematical values. Times are seconds since the Unix epoch.
pub ghost struct MessageFields {
    /// The 20-byte address embedded in the message.
    pub address: Seq<u8>,
    /// When the message was issued.
    pub issued_at: int,
    /// When the message stops being valid, if declared.
    pub expiration_time: Option<int>,
    /// Before this time the message is not yet valid, if declared.
    pub not_before: Option<int>,
    /// The resource URIs declared in the message, in order.
    pub resources: Seq<Seq<char>>,
}

/// A parsed sign-in message: the fields a session is built from.
pub struct ParsedMessage {
    /// The 20-byte address embedded in the message.
    pub address: Vec<u8>,
    /// When the message was issued, in seconds since the Unix epoch.
    pub issued_at: i64,
    /// When the message stops being valid, if declared.
    pub expiration_time: Option<i64>,
    /// Before this time the message is not yet valid, if declared.
    pub not_before: Option<i64>,
    /// The resource URIs declared in the message, in order.
    pub resources: Vec<String>,
}

impl View for ParsedMessage {
    type V = MessageFields;

    open spec fn view(&self) -> MessageFields {
        MessageFields {
            address: self.address@,
            issued_at: self.issued_at as int,
            expiration_time: match self.expiration_time {
                None => None,
                Some(t) => Some(t as int),
            },
            not_before: match self.not_before {
                None => None,
                Some(t) => Some(t as int),
            },
            resources: Seq::new(self.resources@.len(), |i: int| self.resources@[i]@),
        }
    }
}

/// What parsing a sign-in message yields: its fields, or nothing when
/// the text does not follow the EIP-4361 grammar.
pub uninterp spec fn siwe_fields(msg: Seq<char>) -> Option<MessageFields>;

/// Whether a 65-byte signature was produced over a sign-in message by
/// the key behind the message's own embedded address.
pub uninterp spec fn siwe_sig_ok(msg: Seq<char>, sig: Seq<u8>) -> bool;

/// The SHA-256 digest of a byte string.
pub uninterp spec fn sha256_of(data: Seq<u8>) -> Seq<u8>;

/// Relies on siwe's message parser, `siwe::Message` as `FromStr`: on
/// success the result holds exactly the message's embedded 20-byte
/// address, its issuance, expiration and not-before times, and its
/// resource list. The time bounds come with the `time` crate, which
/// keeps dates within the years -9999 to 9999.
#[verifier::external_body]
pub fn parse_message(msg: &str) -> (r: Result<ParsedMessage, AuthError>)
    ensures
        match r {
            Ok(p) => siwe_fields(msg@) == Some(p@) && p.address@.len() == 20 && time_in_range(
                p.issued_at as int,
            ) && (p.expiration_time matches Some(t) ==> time_in_range(t as int)) && (p.not_before
                matches Some(t) ==> time_in_range(t as int)),
            Err(e) => siwe_fields(msg@) is None && e == AuthError::MalformedMessage,
        },
{
    match siwe::Message::from_str(msg) {
        Ok(m) => Ok(ParsedMessage {
            address: m.address.to_vec(),
            issued_at: m.issued_at.as_ref().unix_timestamp(),
            expiration_time: m.expiration_time.as_ref().map(|t| t.as_ref().unix_timestamp()),
            not_before: m.not_before.as_ref().map(|t| t.as_ref().unix_timestamp()),
            resources: m.resources.iter().map(|u| u.to_string()).collect(),
        }),
        Err(_) => Err(AuthError::MalformedMessage),
    }
}

/// The band all message times lie in: the `time` crate keeps dates
/// within the years -9999 to 9999, well inside these bounds.
pub open spec fn time_in_range(t: int) -> bool {
    -400_000_000_000 <= t <= 400_000_000_000
}

/// Relies on siwe's EIP-191 verification, `Message::verify_eip191`
/// after re-parsing the text with `Message::from_str`: whether the
/// 65-byte signature was produced over this message by the key behind
/// the message's embedded address. The outcome is a function of the
/// message text and the signature bytes alone; an unparseable message
/// verifies no signature.
#[verifier::external_body]
pub fn verify_signature(msg: &str, sig: &Vec<u8>) -> (r: bool)
    requires
        sig@.len() == 65,
    ensures
        r == siwe_sig_ok(msg@, sig@),
{
    let arr: [u8; 65] = match sig.as_slice().try_into() {
        Ok(a) => a,
        Err(_) => return false,
    };
    match siwe::Message::from_str(msg) {
        Ok(m) => matches!(m.verify_eip191(&arr), Ok(_)),
        Err(_) => false,
    }
}

/// Relies on sha2's SHA-256: the 32-byte digest of the input, a
/// function of the input bytes alone.
#[verifier::external_body]
pub fn sha256(data: &Vec<u8>) -> (r: Vec<u8>)
    ensures
        r@ == sha256_of(data@),
        r@.len() == 32,
{
    let digest = <sha2::Sha256 as sha2::Digest>::digest(data.as_slice());
    digest.to_vec()
}

/// Relies on rand's thread-local generator, `rand::random`: 32 bytes
/// from a cryptographically secure source. Nothing is assumed about
/// their values.
#[verifier::external_body]
pub fn random_salt() -> (r: Vec<u8>)
    ensures
        r@.len() == 32,
{
    let bytes: [u8; 32] = rand::random();
    bytes.to_vec()
}

} // verus!
