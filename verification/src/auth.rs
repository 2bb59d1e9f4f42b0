use vstd::prelude::*;

verus! {

use crate::codec::enc_record;
use crate::crypto::MessageFields;
use crate::crypto::parse_message;
use crate::crypto::random_salt;
use crate::crypto::sha256;
use crate::crypto::sha256_of;
use crate::crypto::siwe_fields;
use crate::crypto::siwe_sig_ok;
use crate::crypto::time_in_range;
use crate::crypto::verify_signature;
use crate::errors::AuthError;
use crate::hexcode::decode_prefixed_hex;
use crate::hexcode::hex_bytes_of;
use crate::hexcode::hex_of;
use crate::hexcode::hex_seq_ok;
use crate::hexcode::hex_upper;
use crate::hexcode::strip_hex_prefix;
use crate::store::SessionStore;

/// A sign-in request as handed over by the transport layer: the EIP-4361
/// message text and the hex-encoded signature, possibly `0x`-prefixed.
pub struct AuthRequest {
    /// The sign-in message text.
    pub message: String,
    /// The signature, 65 bytes hex-encoded, with an optional `0x` prefix.
    pub signature: String,
}

/// A session record: the subject address a signature proved control of,
/// and the validity window and resource list declared in the signed
/// message. Written once at creation and never mutated.
pub struct Authorization {
    /// The resource URIs declared in the signed message, in order.
    pub resources: Vec<String>,
    /// When the message was issued, in seconds since the Unix epoch.
    pub issued_at: i64,
    /// When the session expires, in seconds since the Unix epoch.
    pub expiration_time: Option<i64>,
    /// Before this time the message is not yet valid, in seconds since
    /// the Unix epoch.
    pub not_before: Option<i64>,
    /// The 20-byte address whose key signed the message.
    pub address: Vec<u8>,
}

/// The signature bytes a request's signature string denotes: an optional
/// `0x` prefix stripped, then exactly 65 hex-encoded bytes.
pub open spec fn sig_bytes_of(s: Seq<char>) -> Option<Seq<u8>> {
    let t = strip_hex_prefix(s);
    if t.len() == 130 && hex_seq_ok(t) {
        Some(hex_bytes_of(t))
    } else {
        None
    }
}

/// The address bytes an address string denotes: an optional `0x` prefix
/// stripped, then exactly 20 hex-encoded bytes.
pub open spec fn address_bytes_of(s: Seq<char>) -> Option<Seq<u8>> {
    let t = strip_hex_prefix(s);
    if t.len() == 40 && hex_seq_ok(t) {
        Some(hex_bytes_of(t))
    } else {
        None
    }
}

/// Why session creation refuses a request, if it does: an unparseable
/// message, then a malformed signature, then a signature that does not
/// verify, then a missing expiration time, then a not-before time still
/// in the future.
pub open spec fn create_failure(msg: Seq<char>, sig: Seq<char>, now: int) -> Option<AuthError> {
    match siwe_fields(msg) {
        None => Some(AuthError::MalformedMessage),
        Some(f) => match sig_bytes_of(sig) {
            None => Some(AuthError::MalformedSignature),
            Some(sb) => if !siwe_sig_ok(msg, sb) {
                Some(AuthError::InvalidSignature)
            } else if f.expiration_time is None {
                Some(AuthError::MissingExpiration)
            } else if f.not_before matches Some(nb) && nb > now {
                Some(AuthError::NotYetValid)
            } else {
                None
            },
        },
    }
}

/// When a session created at `now` from a message with these fields
/// stops being returned by the store: at the message's expiration time,
/// or at once for a message already expired.
pub open spec fn session_expiry(f: MessageFields, now: int) -> int {
    match f.expiration_time {
        Some(exp) => if exp >= now {
            exp
        } else {
            now
        },
        None => now,
    }
}

/// What a successful creation guarantees: the request passed every check
/// of `create_failure`; the store now files, under the returned token, a
/// well-formed record carrying exactly the message's fields, live until
/// `session_expiry`; the token is the uppercase hex SHA-256 digest of
/// the record's canonical serialization followed by a 32-byte salt; and
/// every other token is untouched.
pub open spec fn create_ok(
    pre: SessionStore,
    post: SessionStore,
    msg: Seq<char>,
    sig: Seq<char>,
    now: i64,
    token: Seq<char>,
) -> bool {
    &&& create_failure(msg, sig, now as int) is None
    &&& token.len() == 64
    &&& siwe_fields(msg) matches Some(f) && {
        &&& post.spec_lookup(token) matches Some(e) && {
            &&& e.token@ == token
            &&& e.record.wf()
            &&& e.record.matches_fields(f)
            &&& e.expires_at as int == session_expiry(f, now as int)
            &&& exists|salt: Seq<u8>|
                salt.len() == 32 && token == hex_of(
                    sha256_of(#[trigger] (enc_record(e.record) + salt)),
                )
        }
        &&& forall|t: Seq<char>| t != token ==> post.spec_lookup(t) == pre.spec_lookup(t)
    }
}

impl Authorization {
    /// A record is well formed when its subject is a 20-byte address.
    pub open spec fn wf(self) -> bool {
        self.address@.len() == 20
    }

    /// Whether this record carries exactly the given message fields.
    pub open spec fn matches_fields(self, f: MessageFields) -> bool {
        &&& self.address@ == f.address
        &&& self.issued_at as int == f.issued_at
        &&& match (self.expiration_time, f.expiration_time) {
            (None, None) => true,
            (Some(a), Some(b)) => a as int == b,
            _ => false,
        }
        &&& match (self.not_before, f.not_before) {
            (None, None) => true,
            (Some(a), Some(b)) => a as int == b,
            _ => false,
        }
        &&& self.resources@.len() == f.resources.len()
        &&& forall|i: int|
            0 <= i < f.resources.len() ==> self.resources@[i]@ == #[trigger] f.resources[i]
    }

    /// Verifies a sign-in request and, on success, mints a session:
    /// parses the message, checks the signature against the embedded
    /// address, refuses a message with no expiration time or one not yet
    /// valid, then files a fresh record under an unguessable token and
    /// returns that token. On failure the store is left untouched and
    /// the error names the first check that failed.
    pub fn create(store: &mut SessionStore, auth: &AuthRequest, now: i64) -> (r: Result<
        String,
        AuthError,
    >)
        requires
            time_in_range(now as int),
        ensures
            match r {
                Ok(token) => create_ok(
                    *old(store),
                    *final(store),
                    auth.message@,
                    auth.signature@,
                    now,
                    token@,
                ),
                Err(e) => {
                    &&& create_failure(auth.message@, auth.signature@, now as int) == Some(e)
                    &&& *final(store) == *old(store)
                },
            },
    {
        let parsed = match parse_message(auth.message.as_str()) {
            Ok(p) => p,
            Err(e) => {
                return Err(e);
            },
        };
        let sig = match decode_signature(&auth.signature) {
            Ok(v) => v,
            Err(e) => {
                return Err(e);
            },
        };
        if !verify_signature(auth.message.as_str(), &sig) {
            return Err(AuthError::InvalidSignature);
        }
        let expiration = match parsed.expiration_time {
            Some(t) => t,
            None => {
                return Err(AuthError::MissingExpiration);
            },
        };
        match parsed.not_before {
            Some(nb) => {
                if nb > now {
                    return Err(AuthError::NotYetValid);
                }
            },
            None => {},
        }
        let ghost f = parsed@;
        let record = Authorization {
            resources: parsed.resources,
            issued_at: parsed.issued_at,
            expiration_time: parsed.expiration_time,
            not_before: parsed.not_before,
            address: parsed.address,
        };
        let ghost rec_ghost = record;
        let mut input = crate::codec::encode_record(&record);
        let mut salt = random_salt();
        let ghost saltv = salt@;
        input.append(&mut salt);
        let digest = sha256(&input);
        let token = hex_upper(&digest);
        let ttl: i64 = if expiration > now {
            expiration - now
        } else {
            0
        };
        proof {
            assert(record.matches_fields(f));
        }
        match store.put(token.clone(), record, ttl, now) {
            Ok(_) => {
                proof {
                    assert(token@ == hex_of(sha256_of(enc_record(rec_ghost) + saltv)));
                    crate::hexcode::lemma_hex_of_len(digest@);
                }
                Ok(token)
            },
            Err(_) => Err(AuthError::StoreUnavailable),
        }
    }

    /// Reads the session record a token denotes, if the store still
    /// holds a live one at `now`.
    pub fn get<'a>(store: &'a SessionStore, token: &String, now: i64) -> (r: Option<
        &'a Authorization,
    >)
        ensures
            match r {
                Some(rec) => store.spec_get(token@, now) == Some(*rec),
                None => store.spec_get(token@, now) is None,
            },
    {
        store.get(token, now)
    }

    /// Picks the token a request presents: an explicit bearer token
    /// takes precedence over a cookie-carried one; a request with
    /// neither is unauthenticated.
    pub fn parse_request(bearer: Option<String>, cookie: Option<String>) -> (r: Result<
        String,
        AuthError,
    >)
        ensures
            match r {
                Ok(t) => presented_token(bearer, cookie) == Some(t),
                Err(e) => presented_token(bearer, cookie) is None && e
                    == AuthError::Unauthenticated,
            },
    {
        match bearer {
            Some(b) => Ok(b),
            None => match cookie {
                Some(c) => Ok(c),
                None => Err(AuthError::Unauthenticated),
            },
        }
    }
}

/// The token a request presents: the bearer one if any, else the
/// cookie-carried one if any.
pub open spec fn presented_token(bearer: Option<String>, cookie: Option<String>) -> Option<String> {
    match bearer {
        Some(b) => Some(b),
        None => cookie,
    }
}

/// What authorization decides: with no token presented the request is
/// unauthenticated; with a token the store does not hold live, the
/// session is not found; otherwise access is granted exactly when the
/// session's subject is the claimed owner.
pub open spec fn authorize_spec(
    store: SessionStore,
    bearer: Option<String>,
    cookie: Option<String>,
    owner: Seq<u8>,
    now: i64,
) -> Result<bool, AuthError> {
    match presented_token(bearer, cookie) {
        None => Err(AuthError::Unauthenticated),
        Some(t) => match store.spec_get(t@, now) {
            None => Err(AuthError::SessionNotFound),
            Some(rec) => Ok(rec.address@ == owner),
        },
    }
}

/// Decides whether the token a request presents authorizes access to a
/// resource owned by the claimed address, against the sessions the
/// store holds live at `now`. Address equality is the sole policy: a
/// session speaks for its subject address and for nothing else; the
/// resource list is carried in the record but never consulted here.
pub fn authorize(
    store: &SessionStore,
    bearer: Option<String>,
    cookie: Option<String>,
    owner: &Vec<u8>,
    now: i64,
) -> (r: Result<bool, AuthError>)
    ensures
        r == authorize_spec(*store, bearer, cookie, owner@, now),
{
    let token = match Authorization::parse_request(bearer, cookie) {
        Ok(t) => t,
        Err(e) => {
            return Err(e);
        },
    };
    match Authorization::get(store, &token, now) {
        Some(rec) => Ok(addr_matches(&rec.address, owner)),
        None => Err(AuthError::SessionNotFound),
    }
}

/// Whether two byte strings are equal.
pub fn addr_matches(a: &Vec<u8>, b: &Vec<u8>) -> (r: bool)
    ensures
        r == (a@ == b@),
{
    if a.len() != b.len() {
        return false;
    }
    let mut i: usize = 0;
    while i < a.len()
        invariant
            a@.len() == b@.len(),
            i <= a@.len(),
            forall|j: int| 0 <= j < i ==> a@[j] == b@[j],
        decreases a@.len() - i,
    {
        if a[i] != b[i] {
            return false;
        }
        i = i + 1;
    }
    proof {
        assert(a@ =~= b@);
    }
    true
}

/// Decodes a request's signature string: an optional `0x` prefix, then
/// exactly 65 hex-encoded bytes; anything else is malformed.
pub fn decode_signature(s: &String) -> (r: Result<Vec<u8>, AuthError>)
    ensures
        match r {
            Ok(v) => sig_bytes_of(s@) == Some(v@) && v@.len() == 65,
            Err(e) => sig_bytes_of(s@) is None && e == AuthError::MalformedSignature,
        },
{
    match decode_prefixed_hex(s.as_str(), 130) {
        Some(v) => Ok(v),
        None => Err(AuthError::MalformedSignature),
    }
}

/// Parses an address string: an optional `0x` prefix, then exactly 20
/// hex-encoded bytes; anything else is a malformed request.
pub fn parse_address(s: &String) -> (r: Result<Vec<u8>, AuthError>)
    ensures
        match r {
            Ok(v) => address_bytes_of(s@) == Some(v@) && v@.len() == 20,
            Err(e) => address_bytes_of(s@) is None && e == AuthError::MalformedRequest,
        },
{
    match decode_prefixed_hex(s.as_str(), 40) {
        Some(v) => Ok(v),
        None => Err(AuthError::MalformedRequest),
    }
}

} // verus!
