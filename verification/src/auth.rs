//! The bearer-token guard in front of every protected route, and the login
//! flow that hands tokens out.

use vstd::prelude::*;
use vstd::string::*;
use crate::credentials::{find_by_username, CredentialStore};
use crate::crypto;
use crate::errors::{AuthError, LoginError};
use crate::ident;
use crate::sessions::{find_by_token, has_token, Session, SessionStore};

verus! {

/// The token carried by an `Authorization` header value, if the value has
/// the `Bearer ` shape.
pub open spec fn spec_bearer_token(header: Option<Seq<char>>) -> Option<Seq<char>> {
    match header {
        None => None,
        Some(h) => if h.len() >= 7 && h.subrange(0, 7) == "Bearer "@ {
            Some(h.subrange(7, h.len() as int))
        } else {
            None
        },
    }
}

/// Strips the `Bearer ` prefix off an `Authorization` header value.
pub fn extract_bearer(header: &str) -> (r: Option<String>)
    ensures
        match r {
            Some(t) => spec_bearer_token(Some(header@)) == Some(t@),
            None => spec_bearer_token(Some(header@)) is None,
        },
{
    proof {
        reveal_strlit("Bearer ");
    }
    if crate::strutil::str_starts_with(header, "Bearer ") {
        let n = header.unicode_len();
        let token = header.substring_char(7, n);
        Some(token.to_owned())
    } else {
        None
    }
}

/// The guard in front of every protected route: it extracts the bearer
/// token from the `Authorization` header (if any) and resolves it against
/// the session store.  A missing or malformed header fails with
/// `MissingToken`; an unknown token with `InvalidToken`.  The guard is
/// pure — it reads the store and mutates nothing.
pub fn authorize(header: Option<&str>, sessions: &SessionStore) -> (r: Result<Session, AuthError>)
    ensures
        match spec_bearer_token(match header {
            Some(h) => Some(h@),
            None => None,
        }) {
            None => r == Err::<Session, AuthError>(AuthError::MissingToken),
            Some(t) => match find_by_token(sessions.rows@, t) {
                Some(s) => r == Ok::<Session, AuthError>(s),
                None => r == Err::<Session, AuthError>(AuthError::InvalidToken),
            },
        },
{
    match header {
        None => Err(AuthError::MissingToken),
        Some(h) => match extract_bearer(h) {
            None => Err(AuthError::MissingToken),
            Some(token) => match sessions.resolve(token.as_str()) {
                Ok(s) => Ok(s),
                Err(_) => Err(AuthError::InvalidToken),
            },
        },
    }
}

/// The login flow: checks the credential pair against the credential store
/// and, on success, issues a fresh session.  A bad pair leaves the session
/// store untouched; a token collision is surfaced, never overwritten, and
/// presupposes a stored session — a first login against a fresh store
/// always yields a token.
pub fn login(
    creds: &CredentialStore,
    sessions: &mut SessionStore,
    username: &str,
    password: &str,
    now: i64,
) -> (r: Result<Session, LoginError>)
    requires
        creds.wf(),
        old(sessions).wf(),
    ensures
        final(sessions).wf(),
        match find_by_username(creds.rows@, username@) {
            None => r == Err::<Session, LoginError>(LoginError::Credentials) && final(
                sessions).rows@ == old(sessions).rows@,
            Some(a) => if a.password_hash@ != crypto::password_hash_of(password@) {
                r == Err::<Session, LoginError>(LoginError::Credentials) && final(sessions).rows@
                    == old(sessions).rows@
            } else {
                match r {
                    Ok(s) => {
                        &&& s.user_id@ == a.id@
                        &&& s.created_at == now
                        &&& s.token@.len() == ident::KEY_LEN
                        &&& ident::all_alnum(s.token@)
                        &&& !has_token(old(sessions).rows@, s.token@)
                        &&& final(sessions).rows@ == old(sessions).rows@.push(s)
                    },
                    Err(e) => e == LoginError::TokenCollision && old(sessions).rows@.len() > 0
                        && final(sessions).rows@ == old(sessions).rows@,
                }
            },
        },
{
    match creds.verify(username, password) {
        Err(_) => Err(LoginError::Credentials),
        Ok(admin_id) => match sessions.issue(admin_id.as_str(), now) {
            Ok(s) => Ok(s),
            Err(_) => Err(LoginError::TokenCollision),
        },
    }
}

} // verus!
