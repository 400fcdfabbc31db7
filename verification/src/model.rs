//! Data model: user identities, stored certificate records, and the shape of
//! a federated assertion as far as this library reads it.

use vstd::prelude::*;

verus! {

/// The spec-level image of a user record: its surrogate id and its username.
pub type UserV = (Option<i64>, Seq<char>);

/// The spec-level image of a certificate record: its surrogate id and its
/// persisted payload.
pub type CertV = (Option<i64>, Seq<char>);

/// A user identity record. `id` is the surrogate key assigned by the store;
/// it is `None` before the record is first persisted. `username` is the
/// federated subject identifier and is unique among stored users.
pub struct User {
    pub id: Option<i64>,
    pub username: String,
}

pub open spec fn user_view(u: User) -> UserV {
    (u.id, u.username@)
}

pub open spec fn users_view(s: Seq<User>) -> Seq<UserV> {
    s.map_values(|u: User| user_view(u))
}

impl User {
    /// The stable identifier of a persisted user; a user that was never
    /// persisted reports the sentinel 0.
    pub fn id(&self) -> (r: i64)
        ensures
            self.id matches Some(i) ==> r == i,
            self.id is None ==> r == 0,
    {
        match self.id {
            Some(i) => i,
            None => 0,
        }
    }

    /// The byte string a session layer may use to recognise this user: the
    /// UTF-8 encoding of the username.
    pub fn session_auth_hash(&self) -> (r: &[u8])
        ensures
            r@ == vstd::utf8::encode_utf8(self.username@),
    {
        self.username.as_str().as_bytes()
    }
}

/// A certificate record: `id` is the surrogate key (`None` before the record
/// is first persisted), `inner` the serialized form of the signed certificate
/// as the store keeps it.
pub struct Cert {
    pub id: Option<i64>,
    pub inner: String,
}

pub open spec fn cert_view(c: Cert) -> CertV {
    (c.id, c.inner@)
}

pub open spec fn certs_view(s: Seq<Cert>) -> Seq<CertV> {
    s.map_values(|c: Cert| cert_view(c))
}

impl Cert {
    /// A record for a freshly signed certificate, not yet persisted.
    pub fn new(inner: String) -> (c: Cert)
        ensures
            c.id is None,
            c.inner@ == inner@,
    {
        Cert { id: None, inner }
    }
}

/// The subject identifier carried inside an assertion's subject element.
#[derive(Debug)]
pub struct SubjectNameID {
    pub value: String,
}

/// The subject element of an assertion; its name-id may be absent.
#[derive(Debug)]
pub struct Subject {
    pub name_id: Option<SubjectNameID>,
}

/// A federated assertion, reduced to what the identity bridge reads from it:
/// the optional subject and its optional name-id. Its authenticity has been
/// established before it reaches this library.
#[derive(Debug)]
pub struct Assertion {
    pub subject: Option<Subject>,
}

/// Everything an assertion holds, at spec level: `None` for a missing
/// subject, `Some(None)` for a subject without a name-id, and
/// `Some(Some(name))` for a subject whose name-id carries `name`.
pub open spec fn assertion_view(a: Assertion) -> Option<Option<Seq<char>>> {
    match a.subject {
        Some(s) => match s.name_id {
            Some(n) => Some(Some(n.value@)),
            None => Some(None),
        },
        None => None,
    }
}

/// The subject identifier of an assertion, if both the subject and its
/// name-id are present.
pub open spec fn assertion_subject_name(a: Assertion) -> Option<Seq<char>> {
    match assertion_view(a) {
        Some(Some(name)) => Some(name),
        _ => None,
    }
}

/// Read the subject identifier out of an assertion: `None` exactly when the
/// subject or its name-id is absent. The one decision of the identity
/// bridge's extraction step, shared by every backend that fronts it.
pub fn extract_subject_name(a: &Assertion) -> (r: Option<&String>)
    ensures
        r is Some <==> assertion_subject_name(*a) is Some,
        r matches Some(name) ==> assertion_subject_name(*a) == Some(name@),
{
    match &a.subject {
        Some(sub) => match &sub.name_id {
            Some(nid) => Some(&nid.value),
            None => None,
        },
        None => None,
    }
}

} // verus!
