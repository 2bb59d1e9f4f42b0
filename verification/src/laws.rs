use vstd::prelude::*;

verus! {

use crate::auth::authorize_spec;
use crate::auth::create_failure;
use crate::auth::create_ok;
use crate::auth::session_expiry;
use crate::auth::sig_bytes_of;
use crate::crypto::siwe_fields;
use crate::crypto::siwe_sig_ok;
use crate::errors::AuthError;
use crate::hexcode::hex_of;
use crate::hexcode::lemma_hex_of_injective;
use crate::store::SessionStore;

/// A minted token authorizes its subject and nobody else: while the
/// store files a live session under a token — as `create` guarantees
/// for the token it returns — a request presenting that token is
/// granted access as the session's subject address and refused it as
/// any other address.
pub proof fn lemma_token_binds_subject(
    store: SessionStore,
    token: String,
    a: Seq<u8>,
    b: Seq<u8>,
    now: i64,
)
    requires
        store.spec_lookup(token@) matches Some(e) && e.record.address@ == a && now < e.expires_at,
        a != b,
    ensures
        authorize_spec(store, Some(token), None, a, now) == Ok::<bool, AuthError>(true),
        authorize_spec(store, Some(token), None, b, now) == Ok::<bool, AuthError>(false),
{
}

/// Once a session's time-to-live has elapsed — and equally when none
/// was ever filed under the token — the store returns nothing for its
/// token and authorization reports `SessionNotFound`, whoever the
/// claimed owner is.
pub proof fn lemma_expired_session_not_found(
    store: SessionStore,
    token: String,
    owner: Seq<u8>,
    now: i64,
)
    requires
        match store.spec_lookup(token@) {
            Some(e) => now >= e.expires_at,
            None => true,
        },
    ensures
        store.spec_get(token@, now) is None,
        authorize_spec(store, Some(token), None, owner, now) == Err::<bool, AuthError>(
            AuthError::SessionNotFound,
        ),
{
}

/// A freshly created session authorizes exactly its signer: whenever
/// `create` succeeds — `create_ok` is its postcondition — and the
/// message's expiration time has not yet been reached, presenting the
/// returned token grants access as the message's embedded address and
/// refuses it as any other address.
pub proof fn lemma_create_then_authorize(
    pre: SessionStore,
    post: SessionStore,
    msg: Seq<char>,
    sig: Seq<char>,
    now: i64,
    token: String,
    b: Seq<u8>,
)
    requires
        create_ok(pre, post, msg, sig, now, token@),
    ensures
        match siwe_fields(msg) {
            Some(f) => match f.expiration_time {
                Some(exp) => exp > now ==> {
                    &&& authorize_spec(post, Some(token), None, f.address, now) == Ok::<
                        bool,
                        AuthError,
                    >(true)
                    &&& b != f.address ==> authorize_spec(post, Some(token), None, b, now) == Ok::<
                        bool,
                        AuthError,
                    >(false)
                },
                None => true,
            },
            None => true,
        },
{
}

/// A created session dies with its time-to-live: whenever `create`
/// succeeds, then from the session's expiry on — `session_expiry`, the
/// message's expiration time — the store returns nothing for the token
/// and authorization reports `SessionNotFound`, whoever the claimed
/// owner is.
pub proof fn lemma_create_then_expire(
    pre: SessionStore,
    post: SessionStore,
    msg: Seq<char>,
    sig: Seq<char>,
    now: i64,
    token: String,
    owner: Seq<u8>,
    later: i64,
)
    requires
        create_ok(pre, post, msg, sig, now, token@),
        siwe_fields(msg) matches Some(f) && session_expiry(f, now as int) <= later as int,
    ensures
        post.spec_get(token@, later) is None,
        authorize_spec(post, Some(token), None, owner, later) == Err::<bool, AuthError>(
            AuthError::SessionNotFound,
        ),
{
    lemma_expired_session_not_found(post, token, owner, later);
}

/// Tokens are hex renderings of salted digests, and hex rendering is
/// injective: two session creations can return the same token only if
/// their salted record digests collide. That distinct salts give
/// distinct digests is a property of SHA-256 itself and is not stated
/// here.
pub proof fn lemma_distinct_digests_distinct_tokens(d1: Seq<u8>, d2: Seq<u8>)
    requires
        d1 != d2,
    ensures
        hex_of(d1) != hex_of(d2),
{
    if hex_of(d1) == hex_of(d2) {
        lemma_hex_of_injective(d1, d2);
    }
}

/// A message carrying no expiration time is always refused: creation
/// fails, and when every earlier check passes the reported error is
/// `MissingExpiration` itself.
pub proof fn lemma_missing_expiration_refused(msg: Seq<char>, sig: Seq<char>, now: int)
    requires
        siwe_fields(msg) matches Some(f) && f.expiration_time is None,
    ensures
        create_failure(msg, sig, now) is Some,
        sig_bytes_of(sig) matches Some(sb) && siwe_sig_ok(msg, sb) ==> create_failure(
            msg,
            sig,
            now,
        ) == Some(AuthError::MissingExpiration),
{
}

} // verus!
