//! The credential store: administrator identities with salted-free,
//! deterministic SHA-256 password hashes, bootstrapped once on first run.

use vstd::prelude::*;
use crate::crypto;
use crate::errors::AuthError;
use crate::ident;

verus! {

/// One administrator identity.
#[derive(Debug, PartialEq, Eq)]
pub struct Administrator {
    pub id: String,
    pub username: String,
    pub password_hash: String,
    pub created_at: i64,
}

/// No two rows carry the same username.
pub open spec fn unique_usernames(rows: Seq<Administrator>) -> bool {
    forall|i: int, j: int|
        0 <= i < j < rows.len() ==> (#[trigger] rows[i].username)@ != (
        #[trigger] rows[j].username)@
}

/// The first row carrying the username, if any.
pub open spec fn find_by_username(rows: Seq<Administrator>, username: Seq<char>) -> Option<
    Administrator,
>
    decreases rows.len(),
{
    if rows.len() == 0 {
        None
    } else if rows[0].username@ == username {
        Some(rows[0])
    } else {
        find_by_username(rows.drop_first(), username)
    }
}

/// `find_by_username` answers exactly when some row carries the username.
pub proof fn lemma_find_by_username_iff(rows: Seq<Administrator>, username: Seq<char>)
    ensures
        find_by_username(rows, username) is Some <==> exists|i: int|
            0 <= i < rows.len() && (#[trigger] rows[i].username)@ == username,
        match find_by_username(rows, username) {
            Some(a) => exists|i: int|
                0 <= i < rows.len() && #[trigger] rows[i] == a && a.username@ == username,
            None => true,
        },
    decreases rows.len(),
{
    if rows.len() > 0 {
        if rows[0].username@ == username {
        } else {
            lemma_find_by_username_iff(rows.drop_first(), username);
            assert forall|i: int|
                0 <= i < rows.len() && (#[trigger] rows[i].username)@ == username implies exists|
                k: int,
            |
                0 <= k < rows.drop_first().len() && (#[trigger] rows.drop_first()[k].username)@
                    == username by {
                assert(rows.drop_first()[i - 1] == rows[i]);
            }
            if exists|k: int|
                0 <= k < rows.drop_first().len() && (#[trigger] rows.drop_first()[k].username)@
                    == username {
                let k = choose|k: int|
                    0 <= k < rows.drop_first().len() && (#[trigger] rows.drop_first()[k].username)@
                        == username;
                assert(rows[k + 1] == rows.drop_first()[k]);
            }
        }
    }
}

/// Persistent table of administrators.
pub struct CredentialStore {
    pub rows: Vec<Administrator>,
}

impl CredentialStore {
    /// Usernames are unique, as the underlying table enforces.
    pub open spec fn wf(self) -> bool {
        unique_usernames(self.rows@)
    }

    pub fn new() -> (r: CredentialStore)
        ensures
            r.wf(),
            r.rows@.len() == 0,
    {
        CredentialStore { rows: Vec::new() }
    }

    /// Checks a credential pair: looks the username up, hashes the supplied
    /// password, and compares against the stored hash.  Succeeds exactly
    /// when a row carries this username and the hash of this password.
    pub fn verify(&self, username: &str, password: &str) -> (r: Result<String, AuthError>)
        requires
            self.wf(),
        ensures
            match find_by_username(self.rows@, username@) {
                Some(a) => if a.password_hash@ == crypto::password_hash_of(password@) {
                    r == Ok::<String, AuthError>(a.id)
                } else {
                    r == Err::<String, AuthError>(AuthError::InvalidCredentials)
                },
                None => r == Err::<String, AuthError>(AuthError::InvalidCredentials),
            },
            (r is Ok) <==> exists|i: int|
                0 <= i < self.rows@.len() && (#[trigger] self.rows@[i].username)@ == username@
                    && self.rows@[i].password_hash@ == crypto::password_hash_of(password@),
    {
        proof {
            lemma_find_by_username_iff(self.rows@, username@);
            assert(self.rows@.skip(0) =~= self.rows@);
        }
        let n = self.rows.len();
        let mut i: usize = 0;
        while i < n
            invariant
                0 <= i <= n,
                n == self.rows@.len(),
                unique_usernames(self.rows@),
                find_by_username(self.rows@, username@) == find_by_username(
                    self.rows@.skip(i as int),
                    username@,
                ),
            decreases n - i,
        {
            proof {
                assert(self.rows@.skip(i as int)[0] == self.rows@[i as int]);
            }
            if crate::strutil::str_eq(self.rows[i].username.as_str(), username) {
                let incoming = crypto::hash_password(password);
                proof {
                    assert forall|j: int|
                        0 <= j < self.rows@.len() && (#[trigger] self.rows@[j].username)@
                            == username@ implies j == i by {
                        if j < i {
                            assert(self.rows@[j].username@ != self.rows@[i as int].username@);
                        } else if j > i {
                            assert(self.rows@[i as int].username@ != self.rows@[j].username@);
                        }
                    }
                }
                if self.rows[i].password_hash == incoming {
                    return Ok(self.rows[i].id.clone());
                } else {
                    return Err(AuthError::InvalidCredentials);
                }
            }
            proof {
                assert(self.rows@.skip(i as int).drop_first() =~= self.rows@.skip(i + 1));
            }
            i = i + 1;
        }
        proof {
            assert(self.rows@.skip(n as int) =~= Seq::<Administrator>::empty());
        }
        Err(AuthError::InvalidCredentials)
    }

    /// Seeds one administrator when the table is empty; never touches an
    /// existing one.  Idempotent: a second call is a no-op.
    pub fn ensure_bootstrap_administrator(&mut self, username: &str, password: &str, now: i64)
        requires
            old(self).wf(),
        ensures
            final(self).wf(),
            old(self).rows@.len() > 0 ==> final(self).rows@ == old(self).rows@,
            old(self).rows@.len() == 0 ==> {
                &&& final(self).rows@.len() == 1
                &&& final(self).rows@[0].username@ == username@
                &&& final(self).rows@[0].password_hash@ == crypto::password_hash_of(password@)
                &&& final(self).rows@[0].created_at == now
                &&& final(self).rows@[0].id@.len() == 36
            },
    {
        if self.rows.len() == 0 {
            let admin = Administrator {
                id: ident::new_uuid_string(),
                username: username.to_owned(),
                password_hash: crypto::hash_password(password),
                created_at: now,
            };
            self.rows.push(admin);
        }
    }
}

} // verus!
