use vstd::prelude::*;

verus! {

use crate::auth::Authorization;
use crate::errors::StoreError;

/// One stored session: the token it is filed under, the record, and the
/// absolute time at which the store stops returning it.
pub struct StoredSession {
    /// The token the record is filed under.
    pub token: String,
    /// The session record.
    pub record: Authorization,
    /// The absolute expiry time, in seconds since the Unix epoch.
    pub expires_at: i64,
}

/// The entry filed under a token: the most recently written one wins.
spec fn lookup(s: Seq<StoredSession>, tok: Seq<char>) -> Option<StoredSession>
    decreases s.len(),
{
    if s.len() == 0 {
        None
    } else if s[0].token@ == tok {
        Some(s[0])
    } else {
        lookup(s.drop_first(), tok)
    }
}

/// A time-limited key-value store of session records. Records are
/// written once, never updated, and stop being returned once their
/// time-to-live has elapsed; there is no delete operation.
pub struct SessionStore {
    entries: Vec<StoredSession>,
}

impl SessionStore {
    /// The entry filed under a token, disregarding expiry.
    pub closed spec fn spec_lookup(self, tok: Seq<char>) -> Option<StoredSession> {
        lookup(self.entries@, tok)
    }

    /// The record a read at a given time yields: the entry filed under
    /// the token, provided its expiry time has not yet been reached.
    pub open spec fn spec_get(self, tok: Seq<char>, now: i64) -> Option<Authorization> {
        match self.spec_lookup(tok) {
            Some(e) => if now < e.expires_at {
                Some(e.record)
            } else {
                None
            },
            None => None,
        }
    }

    /// An empty store, with nothing filed under any token.
    pub fn new() -> (s: SessionStore)
        ensures
            forall|t: Seq<char>| s.spec_lookup(t) is None,
    {
        SessionStore { entries: Vec::new() }
    }

    /// Files a record under a token for `ttl_seconds` from `now` on.
    /// The write always succeeds, leaves every other token untouched,
    /// and the record is retrievable at once and until its expiry.
    pub fn put(
        &mut self,
        token: String,
        record: Authorization,
        ttl_seconds: i64,
        now: i64,
    ) -> (r: Result<(), StoreError>)
        requires
            ttl_seconds >= 0,
            now + ttl_seconds <= i64::MAX,
        ensures
            r is Ok,
            final(self).spec_lookup(token@) matches Some(e) && e.token == token && e.record
                == record && e.expires_at == now + ttl_seconds,
            forall|t: Seq<char>|
                t != token@ ==> final(self).spec_lookup(t) == old(self).spec_lookup(t),
    {
        let ghost pre: Seq<StoredSession> = self.entries@;
        let ghost tokview: Seq<char> = token@;
        let entry = StoredSession { token, record, expires_at: now + ttl_seconds };
        self.entries.insert(0, entry);
        proof {
            assert(self.entries@.drop_first() =~= pre);
            assert(self.entries@[0] == entry);
            assert forall|t: Seq<char>| t != tokview implies lookup(self.entries@, t) == lookup(
                pre,
                t,
            ) by {
                assert(self.entries@.drop_first() =~= pre);
            }
        }
        Ok(())
    }

    /// Reads the record filed under a token, if one is there and its
    /// time-to-live has not yet elapsed at `now`.
    pub fn get(&self, token: &String, now: i64) -> (r: Option<&Authorization>)
        ensures
            match r {
                Some(rec) => self.spec_get(token@, now) == Some(*rec),
                None => self.spec_get(token@, now) is None,
            },
    {
        let n = self.entries.len();
        let mut i: usize = 0;
        proof {
            assert(self.entries@.skip(0) =~= self.entries@);
        }
        while i < n
            invariant
                n == self.entries@.len(),
                i <= n,
                lookup(self.entries@, token@) == lookup(self.entries@.skip(i as int), token@),
            decreases n - i,
        {
            let e = &self.entries[i];
            proof {
                assert(self.entries@.skip(i as int)[0] == self.entries@[i as int]);
            }
            if e.token == *token {
                if now < e.expires_at {
                    return Some(&e.record);
                } else {
                    return None;
                }
            }
            proof {
                assert(self.entries@.skip(i as int).drop_first() =~= self.entries@.skip(
                    i as int + 1,
                ));
            }
            i = i + 1;
        }
        proof {
            assert(self.entries@.skip(n as int) =~= Seq::<StoredSession>::empty());
        }
        None
    }
}

} // verus!
