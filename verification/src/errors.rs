use vstd::prelude::*;

verus! {

/// The failure taxonomy of the authentication core.
#[derive(Clone, Copy, Debug, PartialEq, Eq, Structural)]
pub enum AuthError {
    /// The request body could not be read as a sign-in request.
    MalformedRequest,
    /// The sign-in message does not follow the EIP-4361 grammar.
    MalformedMessage,
    /// The signature is not 65 hex-encoded bytes.
    MalformedSignature,
    /// The signature was not produced by the key behind the embedded address.
    InvalidSignature,
    /// The message carries no expiration time, so no TTL can be derived.
    MissingExpiration,
    /// The message's not-before time is still in the future.
    NotYetValid,
    /// Neither a bearer token nor a cookie accompanied the request.
    Unauthenticated,
    /// No live session is stored under the presented token.
    SessionNotFound,
    /// The claimed owner address differs from the session's subject.
    AddressMismatch,
    /// The session store did not take or return the record.
    StoreUnavailable,
}

/// Failure of the session store's `put` operation.
#[derive(Clone, Copy, Debug, PartialEq, Eq, Structural)]
pub enum StoreError {
    /// The store could not be reached.
    Unavailable,
}

} // verus!
