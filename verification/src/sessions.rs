//! The session store: rows mapping opaque bearer tokens to administrator
//! identities.  Tokens are unique; resolution is exact-match with no
//! normalization and no expiry.

use vstd::prelude::*;
use crate::errors::{AuthError, StoreError};
use crate::ident;

verus! {

/// One issued session: created on successful login, looked up by token on
/// every protected request.
#[derive(Debug, PartialEq, Eq)]
pub struct Session {
    pub id: String,
    pub user_id: String,
    pub token: String,
    pub created_at: i64,
}

impl Session {
    /// A field-for-field copy, equal to the original.
    pub fn duplicate(&self) -> (r: Session)
        ensures
            r == *self,
    {
        Session {
            id: self.id.clone(),
            user_id: self.user_id.clone(),
            token: self.token.clone(),
            created_at: self.created_at,
        }
    }
}

/// No two rows carry the same token.
pub open spec fn unique_tokens(rows: Seq<Session>) -> bool {
    forall|i: int, j: int|
        0 <= i < j < rows.len() ==> (#[trigger] rows[i].token)@ != (#[trigger] rows[j].token)@
}

/// Some row carries this token.
pub open spec fn has_token(rows: Seq<Session>, token: Seq<char>) -> bool {
    exists|i: int| 0 <= i < rows.len() && (#[trigger] rows[i].token)@ == token
}

/// The first row carrying the token, if any.
pub open spec fn find_by_token(rows: Seq<Session>, token: Seq<char>) -> Option<Session>
    decreases rows.len(),
{
    if rows.len() == 0 {
        None
    } else if rows[0].token@ == token {
        Some(rows[0])
    } else {
        find_by_token(rows.drop_first(), token)
    }
}

/// `find_by_token` answers exactly when some row carries the token.
pub proof fn lemma_find_by_token_iff(rows: Seq<Session>, token: Seq<char>)
    ensures
        find_by_token(rows, token) is Some <==> has_token(rows, token),
        match find_by_token(rows, token) {
            Some(s) => exists|i: int|
                0 <= i < rows.len() && #[trigger] rows[i] == s && s.token@ == token,
            None => true,
        },
    decreases rows.len(),
{
    if rows.len() > 0 {
        if rows[0].token@ == token {
        } else {
            lemma_find_by_token_iff(rows.drop_first(), token);
            assert forall|i: int|
                0 <= i < rows.len() && (#[trigger] rows[i].token)@ == token implies has_token(
                rows.drop_first(),
                token,
            ) by {
                assert(rows.drop_first()[i - 1] == rows[i]);
            }
            if has_token(rows.drop_first(), token) {
                let i = choose|i: int|
                    0 <= i < rows.drop_first().len() && (#[trigger] rows.drop_first()[i].token)@
                        == token;
                assert(rows[i + 1] == rows.drop_first()[i]);
            }
        }
    }
}

/// Persistent table of sessions.
pub struct SessionStore {
    pub rows: Vec<Session>,
}

impl SessionStore {
    /// The store's one invariant: token uniqueness, which the underlying
    /// table enforces with a unique constraint.
    pub open spec fn wf(self) -> bool {
        unique_tokens(self.rows@)
    }

    pub fn new() -> (r: SessionStore)
        ensures
            r.wf(),
            r.rows@.len() == 0,
    {
        SessionStore { rows: Vec::new() }
    }

    /// Exact-match lookup of a presented bearer token.
    pub fn resolve(&self, token: &str) -> (r: Result<Session, AuthError>)
        ensures
            match r {
                Ok(s) => find_by_token(self.rows@, token@) == Some(s),
                Err(e) => e == AuthError::InvalidToken && find_by_token(self.rows@, token@)
                    is None,
            },
    {
        let n = self.rows.len();
        let mut i: usize = 0;
        proof {
            assert(self.rows@.skip(0) =~= self.rows@);
        }
        while i < n
            invariant
                0 <= i <= n,
                n == self.rows@.len(),
                find_by_token(self.rows@, token@) == find_by_token(
                    self.rows@.skip(i as int),
                    token@,
                ),
            decreases n - i,
        {
            proof {
                assert(self.rows@.skip(i as int)[0] == self.rows@[i as int]);
            }
            if crate::strutil::str_eq(self.rows[i].token.as_str(), token) {
                return Ok(self.rows[i].duplicate());
            }
            proof {
                assert(self.rows@.skip(i as int).drop_first() =~= self.rows@.skip(i + 1));
            }
            i = i + 1;
        }
        proof {
            assert(self.rows@.skip(n as int) =~= Seq::<Session>::empty());
        }
        Err(AuthError::InvalidToken)
    }

    /// Stores a fully built session row.  The insert succeeds exactly when
    /// the token is not yet present; a collision is rejected, never
    /// overwritten.
    pub fn insert(&mut self, session: Session) -> (r: Result<(), StoreError>)
        requires
            old(self).wf(),
        ensures
            final(self).wf(),
            match r {
                Ok(()) => !has_token(old(self).rows@, session.token@) && final(self).rows@ == old(
                    self,
                ).rows@.push(session),
                Err(e) => e == StoreError::DuplicateToken && has_token(
                    old(self).rows@,
                    session.token@,
                ) && final(self).rows@ == old(self).rows@,
            },
    {
        let n = self.rows.len();
        let mut i: usize = 0;
        while i < n
            invariant
                0 <= i <= n,
                n == self.rows@.len(),
                self.rows@ == old(self).rows@,
                unique_tokens(self.rows@),
                forall|j: int| 0 <= j < i ==> (#[trigger] self.rows@[j].token)@ != session.token@,
            decreases n - i,
        {
            if crate::strutil::str_eq(self.rows[i].token.as_str(), session.token.as_str()) {
                return Err(StoreError::DuplicateToken);
            }
            i = i + 1;
        }
        self.rows.push(session);
        Ok(())
    }

    /// Issues a session for an administrator: draws a fresh opaque token and
    /// a fresh row id, stamps the issue time, and stores the row.  Whatever
    /// the random draw, the store's invariant holds afterwards; the
    /// (probabilistically negligible) token collision is surfaced, with the
    /// store unchanged.  A collision presupposes a stored row, so issuing
    /// against an empty store always succeeds.
    pub fn issue(&mut self, user_id: &str, now: i64) -> (r: Result<Session, StoreError>)
        requires
            old(self).wf(),
        ensures
            final(self).wf(),
            match r {
                Ok(s) => {
                    &&& s.user_id@ == user_id@
                    &&& s.created_at == now
                    &&& s.token@.len() == ident::KEY_LEN
                    &&& ident::all_alnum(s.token@)
                    &&& !has_token(old(self).rows@, s.token@)
                    &&& final(self).rows@ == old(self).rows@.push(s)
                },
                Err(e) => e == StoreError::DuplicateToken && old(self).rows@.len() > 0 && final(
                    self).rows@ == old(self).rows@,
            },
    {
        let session = Session {
            id: ident::new_uuid_string(),
            user_id: user_id.to_owned(),
            token: ident::generate_key(),
            created_at: now,
        };
        let copy = session.duplicate();
        match self.insert(session) {
            Ok(()) => Ok(copy),
            Err(e) => Err(e),
        }
    }
}

/// Resolving the exact token a session was stored under returns that
/// session, provided tokens are unique in the store.
pub proof fn lemma_resolve_issued(rows: Seq<Session>, s: Session)
    requires
        unique_tokens(rows.push(s)),
        forall|i: int| 0 <= i < rows.len() ==> (#[trigger] rows[i].token)@ != s.token@,
    ensures
        find_by_token(rows.push(s), s.token@) == Some(s),
    decreases rows.len(),
{
    if rows.len() == 0 {
        assert(rows.push(s)[0] == s);
    } else {
        assert(rows.push(s)[0] == rows[0]);
        assert(rows.push(s).drop_first() =~= rows.drop_first().push(s));
        assert forall|i: int| 0 <= i < rows.drop_first().len() implies (#[trigger] rows.drop_first(
        )[i].token)@ != s.token@ by {
            assert(rows.drop_first()[i] == rows[i + 1]);
        }
        assert forall|i: int, j: int|
            0 <= i < j < rows.drop_first().push(s).len() implies (#[trigger] rows.drop_first().push(
            s,
        )[i].token)@ != (#[trigger] rows.drop_first().push(s)[j].token)@ by {
            assert(rows.drop_first().push(s)[i] == rows.push(s)[i + 1]);
            assert(rows.drop_first().push(s)[j] == rows.push(s)[j + 1]);
        }
        lemma_resolve_issued(rows.drop_first(), s);
    }
}

/// A string that no stored session carries as its token resolves to
/// nothing.
pub proof fn lemma_resolve_unknown(rows: Seq<Session>, token: Seq<char>)
    requires
        forall|i: int| 0 <= i < rows.len() ==> (#[trigger] rows[i].token)@ != token,
    ensures
        find_by_token(rows, token) is None,
{
    lemma_find_by_token_iff(rows, token);
}

} // verus!
