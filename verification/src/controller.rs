//! The user/cert store and the identity bridge over it.
//!
//! `ModelController` keeps the user table and the certificate table of the
//! service. A username maps to at most one user row, rows receive consecutive
//! surrogate ids starting at 1, and the certificate table keeps one row per
//! persisted record, replaced in place on an upsert by id.

use vstd::prelude::*;

use crate::model::{
    assertion_subject_name, assertion_view, cert_view, certs_view, user_view, users_view,
    Assertion, Cert, CertV, User, UserV,
};

verus! {

/// The errors of the store and of the identity bridge.
#[derive(Debug)]
pub enum StoreError {
    /// The underlying storage could not take another row.
    SqlError,
    /// Serializing a certificate payload to its persisted form failed.
    SerdeJsonError(serde_json::Error),
    /// The assertion carries no subject identifier; it is returned for
    /// diagnostics.
    FailedToRetrieveUsernameFromAssertion { assertion: Assertion },
    /// A user record handed to the create path already carried an id.
    UserIdMustBeNoneOnCreate,
}

/// The error type of `serde_json`, opaque to this library.
#[verifier::external_type_specification]
#[verifier::external_body]
pub struct ExSerdeJsonError(serde_json::Error);

/// No two stored users share a username.
pub open spec fn usernames_distinct(users: Seq<UserV>) -> bool {
    forall|i: int, j: int|
        #![trigger users[i], users[j]]
        0 <= i < j < users.len() ==> users[i].1 != users[j].1
}

/// Well-formed user table: row `i` carries id `i + 1`, usernames are unique,
/// and the table fits the id space.
pub open spec fn users_wf(users: Seq<UserV>) -> bool {
    &&& users.len() <= i64::MAX
    &&& (forall|i: int| 0 <= i < users.len() ==> (#[trigger] users[i]).0 == Some((i + 1) as i64))
    &&& usernames_distinct(users)
}

/// Well-formed certificate table: row `i` carries id `i + 1` and the table
/// fits the id space.
pub open spec fn certs_wf(certs: Seq<CertV>) -> bool {
    &&& certs.len() <= i64::MAX
    &&& (forall|i: int| 0 <= i < certs.len() ==> (#[trigger] certs[i]).0 == Some((i + 1) as i64))
}

/// Some stored user carries this username.
pub open spec fn has_user(users: Seq<UserV>, name: Seq<char>) -> bool {
    exists|i: int| 0 <= i < users.len() && (#[trigger] users[i]).1 == name
}

/// The row index of the user with this username (meaningful when
/// `has_user` holds; under `usernames_distinct` it is the only such row).
pub open spec fn user_index(users: Seq<UserV>, name: Seq<char>) -> int {
    choose|i: int| 0 <= i < users.len() && (#[trigger] users[i]).1 == name
}

/// What get-or-create does to the user table: an existing row is returned
/// unchanged; otherwise a row with the next id is appended and returned.
pub open spec fn spec_get_or_create(users: Seq<UserV>, name: Seq<char>) -> (Seq<UserV>, UserV) {
    if has_user(users, name) {
        (users, users[user_index(users, name)])
    } else {
        let nu = (Some((users.len() + 1) as i64), name);
        (users.push(nu), nu)
    }
}

/// What upsert does to the certificate table: a record without an id is
/// appended under the next id; a record with an id replaces the row that
/// carries that id, if any, and is otherwise a no-op.
pub open spec fn spec_upsert(certs: Seq<CertV>, rec: CertV) -> (Seq<CertV>, CertV) {
    match rec.0 {
        None => {
            let nc = (Some((certs.len() + 1) as i64), rec.1);
            (certs.push(nc), nc)
        },
        Some(id) => {
            if 1 <= id && id <= certs.len() {
                (certs.update(id - 1, rec), rec)
            } else {
                (certs, rec)
            }
        },
    }
}

/// The store: the user table and the certificate table.
pub struct ModelController {
    pub users: Vec<User>,
    pub certs: Vec<Cert>,
}

impl ModelController {
    pub open spec fn wf(&self) -> bool {
        &&& users_wf(users_view(self.users@))
        &&& certs_wf(certs_view(self.certs@))
    }

    /// An empty store.
    pub fn new() -> (c: ModelController)
        ensures
            c.users@.len() == 0,
            c.certs@.len() == 0,
            c.wf(),
    {
        ModelController { users: Vec::new(), certs: Vec::new() }
    }

    /// Exact-match lookup by username: no case folding, no partial match.
    pub fn get_user_by_username(&self, username: &str) -> (r: Result<Option<User>, StoreError>)
        requires
            self.wf(),
        ensures
            r matches Ok(opt) && ({
                let uv = users_view(self.users@);
                &&& (opt is Some <==> has_user(uv, username@))
                &&& (opt matches Some(u) ==> user_view(u) == uv[user_index(uv, username@)])
            }),
    {
        let uname: String = username.to_owned();
        let n = self.users.len();
        let mut idx: usize = 0;
        while idx < n
            invariant
                n == self.users@.len(),
                idx <= n,
                self.wf(),
                uname@ == username@,
                forall|k: int| 0 <= k < idx ==> (#[trigger] self.users@[k]).username@ != username@,
            decreases n - idx,
        {
            if self.users[idx].username == uname {
                let u = User {
                    id: self.users[idx].id,
                    username: self.users[idx].username.clone(),
                };
                proof {
                    let uv = users_view(self.users@);
                    assert(uv[idx as int].1 == username@);
                    assert(has_user(uv, username@));
                    let j = user_index(uv, username@);
                    assert(0 <= j < uv.len() && uv[j].1 == username@);
                    if j != idx as int {
                        assert(uv[j].1 != uv[idx as int].1);
                    }
                }
                return Ok(Some(u));
            }
            idx += 1;
        }
        proof {
            let uv = users_view(self.users@);
            assert forall|i: int| 0 <= i < uv.len() implies (#[trigger] uv[i]).1 != username@ by {
                assert(self.users@[i].username@ != username@);
            }
        }
        Ok(None)
    }

    /// Lookup by surrogate id; `None` when no row carries the id.
    pub fn get_user_by_id(&self, user_id: i64) -> (r: Result<Option<User>, StoreError>)
        requires
            self.wf(),
        ensures
            r matches Ok(opt) && ({
                let uv = users_view(self.users@);
                &&& (opt is Some <==> 1 <= user_id <= uv.len())
                &&& (opt matches Some(u) ==> user_view(u) == uv[user_id - 1])
            }),
    {
        if 1 <= user_id && (user_id as u64) <= (self.users.len() as u64) {
            let idx = (user_id - 1) as usize;
            let u = User {
                id: self.users[idx].id,
                username: self.users[idx].username.clone(),
            };
            Ok(Some(u))
        } else {
            Ok(None)
        }
    }

    /// Lookup-or-create by username. A user that exists is returned
    /// unchanged; a new username receives a fresh row under the next id.
    /// First login is account provisioning: there is no separate
    /// registration step.
    pub fn get_or_create_user_by_username(&mut self, username: &str) -> (r: Result<User, StoreError>)
        requires
            old(self).wf(),
        ensures
            final(self).wf(),
            final(self).certs@ == old(self).certs@,
            ({
                let uv = users_view(old(self).users@);
                let t = spec_get_or_create(uv, username@);
                &&& (has_user(uv, username@) || uv.len() < i64::MAX ==> (r matches Ok(u)
                    && user_view(u) == t.1 && users_view(final(self).users@) == t.0))
                &&& (!has_user(uv, username@) && uv.len() == i64::MAX ==> (r matches Err(e)
                    && e is SqlError && users_view(final(self).users@) == uv))
            }),
    {
        let fetched = self.get_user_by_username(username);
        match fetched {
            Ok(Some(u)) => Ok(u),
            Ok(None) => {
                if (self.users.len() as u64) >= (i64::MAX as u64) {
                    return Err(StoreError::SqlError);
                }
                let id = (self.users.len() as i64) + 1;
                let uname = username.to_owned();
                let ret_name = uname.clone();
                self.users.push(User { id: Some(id), username: uname });
                let ghost uv = users_view(old(self).users@);
                proof {
                    let nu = (Some((uv.len() + 1) as i64), username@);
                    assert(users_view(self.users@) =~= uv.push(nu));
                    assert forall|i: int, j: int|
                        #![trigger users_view(self.users@)[i], users_view(self.users@)[j]]
                        0 <= i < j < users_view(self.users@).len()
                        implies users_view(self.users@)[i].1 != users_view(self.users@)[j].1 by {
                        if j < uv.len() {
                            assert(uv[i].1 != uv[j].1);
                        } else {
                            assert(!has_user(uv, username@));
                            assert(uv[i].1 != username@);
                        }
                    }
                }
                Ok(User { id: Some(id), username: ret_name })
            },
            Err(e) => Err(e),
        }
    }

    /// Insert a record without an id under the next id; replace in place the
    /// row whose id a record carries. A carried id that no row holds leaves
    /// the table unchanged.
    pub fn upsert_cert(&mut self, cert: Cert) -> (r: Result<Cert, StoreError>)
        requires
            old(self).wf(),
        ensures
            final(self).wf(),
            final(self).users@ == old(self).users@,
            ({
                let cv = certs_view(old(self).certs@);
                let t = spec_upsert(cv, cert_view(cert));
                &&& (cert.id is Some || cv.len() < i64::MAX ==> (r matches Ok(c)
                    && cert_view(c) == t.1 && certs_view(final(self).certs@) == t.0))
                &&& (cert.id is None && cv.len() == i64::MAX ==> (r matches Err(e)
                    && e is SqlError && certs_view(final(self).certs@) == cv))
            }),
    {
        match cert.id {
            None => {
                if (self.certs.len() as u64) >= (i64::MAX as u64) {
                    return Err(StoreError::SqlError);
                }
                let id = (self.certs.len() as i64) + 1;
                let ret_inner = cert.inner.clone();
                self.certs.push(Cert { id: Some(id), inner: cert.inner });
                proof {
                    let cv = certs_view(old(self).certs@);
                    assert(certs_view(self.certs@) =~= cv.push((Some((cv.len() + 1) as i64), cert.inner@)));
                }
                Ok(Cert { id: Some(id), inner: ret_inner })
            },
            Some(id) => {
                if 1 <= id && (id as u64) <= (self.certs.len() as u64) {
                    let idx = (id - 1) as usize;
                    self.certs[idx] = Cert { id: Some(id), inner: cert.inner.clone() };
                    proof {
                        let cv = certs_view(old(self).certs@);
                        assert(certs_view(self.certs@) =~= cv.update(id - 1, cert_view(cert)));
                    }
                } else {
                    proof {
                        assert(certs_view(self.certs@) =~= certs_view(old(self).certs@));
                    }
                }
                Ok(cert)
            },
        }
    }

    /// The identity bridge: extract the subject identifier from an
    /// already-validated assertion and resolve it to a local user, creating
    /// the user on first sight. An assertion without a subject identifier is
    /// rejected and creates no row.
    pub fn authenticate(&mut self, creds: Assertion) -> (r: Result<Option<User>, StoreError>)
        requires
            old(self).wf(),
        ensures
            final(self).wf(),
            final(self).certs@ == old(self).certs@,
            (assertion_subject_name(creds) is None ==> {
                &&& users_view(final(self).users@) == users_view(old(self).users@)
                &&& (r matches Err(e) && e matches StoreError::FailedToRetrieveUsernameFromAssertion {
                    assertion,
                } && assertion_view(assertion) == assertion_view(creds))
            }),
            (assertion_subject_name(creds) matches Some(name) ==> {
                let uv = users_view(old(self).users@);
                let t = spec_get_or_create(uv, name);
                &&& (has_user(uv, name) || uv.len() < i64::MAX ==> (r matches Ok(ou)
                    && ou matches Some(u) && user_view(u) == t.1
                    && users_view(final(self).users@) == t.0))
                &&& (!has_user(uv, name) && uv.len() == i64::MAX ==> (r matches Err(e)
                    && e is SqlError && users_view(final(self).users@) == uv))
            }),
    {
        let name_opt: Option<String> = match crate::model::extract_subject_name(&creds) {
            Some(name) => Some(name.clone()),
            None => None,
        };
        match name_opt {
            None => Err(StoreError::FailedToRetrieveUsernameFromAssertion { assertion: creds }),
            Some(name) => match self.get_or_create_user_by_username(name.as_str()) {
                Ok(u) => Ok(Some(u)),
                Err(e) => Err(e),
            },
        }
    }

    /// Resolve a session's user id to its record, as the session gate does on
    /// each authenticated request.
    pub fn get_user(&self, user_id: &i64) -> (r: Result<Option<User>, StoreError>)
        requires
            self.wf(),
        ensures
            r matches Ok(opt) && ({
                let uv = users_view(self.users@);
                &&& (opt is Some <==> 1 <= *user_id <= uv.len())
                &&& (opt matches Some(u) ==> user_view(u) == uv[*user_id - 1])
            }),
    {
        self.get_user_by_id(*user_id)
    }
}

/// Law: resolving one username twice yields the same id both times, and the
/// second call adds no row.
pub proof fn lemma_get_or_create_idempotent(users: Seq<UserV>, name: Seq<char>)
    requires
        users_wf(users),
        users.len() < i64::MAX,
    ensures
        ({
            let t1 = spec_get_or_create(users, name);
            let t2 = spec_get_or_create(t1.0, name);
            &&& t2.1 == t1.1
            &&& t2.0 == t1.0
        }),
{
    let t1 = spec_get_or_create(users, name);
    if has_user(users, name) {
        let j = user_index(users, name);
        assert(0 <= j < users.len() && users[j].1 == name);
    } else {
        let users1 = t1.0;
        assert(users1[users.len() as int].1 == name);
        assert(has_user(users1, name));
        let j = user_index(users1, name);
        assert(0 <= j < users1.len() && users1[j].1 == name);
        if j < users.len() {
            assert(users[j].1 == name);
            assert(has_user(users, name));
        }
        assert(j == users.len() as int);
    }
}

/// Law: a first resolution of a fresh subject name provisions exactly one
/// row — the table grows by one, the new row carries the next id and that
/// name, and that row is what the caller receives.
pub proof fn lemma_first_login_provisions_once(users: Seq<UserV>, name: Seq<char>)
    requires
        users_wf(users),
        !has_user(users, name),
        users.len() < i64::MAX,
    ensures
        ({
            let t = spec_get_or_create(users, name);
            let nu = (Some((users.len() + 1) as i64), name);
            &&& t.0 == users.push(nu)
            &&& t.0.len() == users.len() + 1
            &&& t.1 == nu
        }),
{
}

/// Law: an upsert without an id followed by an upsert under the returned id
/// leaves exactly one stored row for that id, holding the second payload.
pub proof fn lemma_upsert_insert_then_update(certs: Seq<CertV>, p1: Seq<char>, p2: Seq<char>)
    requires
        certs_wf(certs),
        certs.len() < i64::MAX,
    ensures
        ({
            let t1 = spec_upsert(certs, (None, p1));
            let t2 = spec_upsert(t1.0, (t1.1.0, p2));
            &&& t2.0 == certs.push((t1.1.0, p2))
            &&& t2.0.len() == certs.len() + 1
        }),
{
    let t1 = spec_upsert(certs, (None, p1));
    let id = (certs.len() + 1) as i64;
    assert(t1.1.0 == Some(id));
    let t2 = spec_upsert(t1.0, (Some(id), p2));
    assert(1 <= id && id <= t1.0.len());
    assert(t2.0 =~= certs.push((Some(id), p2)));
}

} // verus!
