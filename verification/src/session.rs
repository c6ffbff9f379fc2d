use vstd::prelude::*;
use crate::models::{LastLoginSession, SessionView};

verus! {

/// The session under identifier `k`, with the most recent insertion taking
/// precedence: the lookup a keyed map would give.
pub open spec fn lookup(records: Seq<LastLoginSession>, k: Seq<char>) -> Option<SessionView>
    decreases records.len(),
{
    if records.len() == 0 {
        None
    } else if records.last().session_id@ == k {
        Some(records.last()@)
    } else {
        lookup(records.drop_last(), k)
    }
}

/// The keyed store of sessions. It exclusively owns all session records;
/// expiry is never filtered here — reads are side-effect-free and the
/// expiry check is the caller's (lazy expiry, no background eviction).
pub struct SessionStore {
    pub records: Vec<LastLoginSession>,
}

impl SessionStore {
    /// An empty store.
    pub fn new() -> (r: SessionStore)
        ensures
            r.records@.len() == 0,
            forall|k: Seq<char>| lookup(r.records@, k) is None,
    {
        SessionStore { records: Vec::new() }
    }

    /// Stores `session` under its identifier, shadowing any record that was
    /// there before; every other identifier is untouched.
    pub fn put(&mut self, session: LastLoginSession)
        ensures
            final(self).records@ == old(self).records@.push(session),
            lookup(final(self).records@, session.session_id@) == Some(session@),
            forall|k: Seq<char>|
                k != session.session_id@ ==> lookup(final(self).records@, k) == lookup(
                    old(self).records@,
                    k,
                ),
    {
        proof {
            assert(old(self).records@.push(session).drop_last() =~= old(self).records@);
        }
        self.records.push(session);
    }

    /// Pure lookup of the session stored under `session_id`; no expiry
    /// filtering.
    pub fn get(&self, session_id: &String) -> (r: Option<LastLoginSession>)
        ensures
            match r {
                Some(s) => lookup(self.records@, session_id@) == Some(s@),
                None => lookup(self.records@, session_id@) is None,
            },
    {
        let n = self.records.len();
        proof {
            assert(self.records@.take(n as int) =~= self.records@);
        }
        let mut i = n;
        while i > 0
            invariant
                i <= n,
                n == self.records@.len(),
                lookup(self.records@, session_id@) == lookup(
                    self.records@.take(i as int),
                    session_id@,
                ),
            decreases i,
        {
            proof {
                assert(self.records@.take(i as int).drop_last() =~= self.records@.take(
                    i - 1,
                ));
            }
            let candidate = &self.records[i - 1];
            if candidate.session_id == *session_id {
                let found = LastLoginSession {
                    email: candidate.email.clone(),
                    session_id: candidate.session_id.clone(),
                    hostname: candidate.hostname.clone(),
                    expires_at: candidate.expires_at,
                };
                return Some(found);
            }
            i = i - 1;
        }
        proof {
            assert(self.records@.take(0) =~= Seq::<LastLoginSession>::empty());
        }
        None
    }

    /// Removes whatever is stored under `session_id`. Removing an absent
    /// identifier is not an error; every other identifier is untouched.
    pub fn delete(&mut self, session_id: &String)
        ensures
            lookup(final(self).records@, session_id@) is None,
            forall|k: Seq<char>|
                k != session_id@ ==> lookup(final(self).records@, k) == lookup(
                    old(self).records@,
                    k,
                ),
            lookup(old(self).records@, session_id@) is None ==> final(self).records@ == old(self).records@,
    {
        let n = self.records.len();
        let mut kept: Vec<LastLoginSession> = Vec::new();
        let mut dropped = false;
        for i in 0..n
            invariant
                n == self.records@.len(),
                lookup(kept@, session_id@) is None,
                forall|k: Seq<char>|
                    k != session_id@ ==> lookup(kept@, k) == lookup(
                        self.records@.take(i as int),
                        k,
                    ),
                !dropped ==> kept@ == self.records@.take(i as int),
                dropped ==> lookup(self.records@.take(i as int), session_id@) is Some,
        {
            let ghost prefix = self.records@.take(i as int);
            proof {
                assert(self.records@.take(i + 1).drop_last() =~= prefix);
                assert(self.records@.take(i + 1).last() == self.records@[i as int]);
            }
            let candidate = &self.records[i];
            if candidate.session_id == *session_id {
                dropped = true;
                proof {
                    assert forall|k: Seq<char>|
                        k != session_id@ implies lookup(self.records@.take(i + 1), k) == lookup(
                        kept@,
                        k,
                    ) by {
                        assert(self.records@.take(i + 1).drop_last() =~= prefix);
                    }
                }
            } else {
                let ghost kept_before = kept@;
                let element = LastLoginSession {
                    email: candidate.email.clone(),
                    session_id: candidate.session_id.clone(),
                    hostname: candidate.hostname.clone(),
                    expires_at: candidate.expires_at,
                };
                kept.push(element);
                proof {
                    assert(kept@.drop_last() =~= kept_before);
                    assert(!dropped ==> kept@ =~= self.records@.take(i + 1));
                    assert forall|k: Seq<char>|
                        k != session_id@ implies lookup(self.records@.take(i + 1), k) == lookup(
                        kept@,
                        k,
                    ) by {
                        assert(self.records@.take(i + 1).drop_last() =~= prefix);
                        assert(self.records@.take(i + 1).last() == self.records@[i as int]);
                        assert(kept@.drop_last() =~= kept_before);
                        assert(kept@.last() == element);
                        assert(element@ == self.records@[i as int]@);
                        if element.session_id@ == k {
                            assert(lookup(kept@, k) == Some(element@));
                            assert(lookup(self.records@.take(i + 1), k) == Some(
                                self.records@[i as int]@,
                            ));
                        } else {
                            assert(lookup(kept@, k) == lookup(kept_before, k));
                            assert(lookup(self.records@.take(i + 1), k) == lookup(prefix, k));
                        }
                    }
                }
            }
        }
        proof {
            assert(self.records@.take(n as int) =~= self.records@);
        }
        self.records = kept;
    }
}

} // verus!
