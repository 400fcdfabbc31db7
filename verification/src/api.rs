//! The issuance endpoint: session gate, signer and store composed for one
//! signing request.

use vstd::prelude::*;

use crate::controller::{spec_upsert, ModelController, StoreError};
use crate::model::{certs_view, Cert};
use crate::session::{session_view, AuthSession};
use crate::ssh_ca::{cert_to_json, cert_to_openssh, parse_public_key, parses_as_public_key, SshCA};

verus! {

/// The error taxonomy of the service's endpoints. Each maps to one HTTP
/// status at the edge: client input 400, authentication and authorization
/// 401, signing and storage 500.
#[derive(Debug)]
pub enum ApiError {
    /// Malformed request input (an unparseable public key, a missing form
    /// field).
    ClientInputError,
    /// The assertion could not be resolved to an identity.
    AuthenticationError,
    /// No active session stands behind a protected operation.
    AuthorizationError,
    /// The signer failed: clock or cryptographic failure.
    SigningError,
    /// The store failed: no capacity, or the payload could not be
    /// serialized.
    StorageError,
}

/// How a store or identity-bridge failure surfaces at the HTTP edge: a
/// missing subject identifier is an authentication failure; everything else
/// the store reports is a storage failure.
pub fn store_error_to_api(e: &StoreError) -> (r: ApiError)
    ensures
        r is AuthenticationError <==> e is FailedToRetrieveUsernameFromAssertion,
        r is StorageError <==> !(e is FailedToRetrieveUsernameFromAssertion),
{
    match e {
        StoreError::FailedToRetrieveUsernameFromAssertion { assertion: _ } => {
            ApiError::AuthenticationError
        },
        StoreError::SqlError => ApiError::StorageError,
        StoreError::SerdeJsonError(_) => ApiError::StorageError,
        StoreError::UserIdMustBeNoneOnCreate => ApiError::StorageError,
    }
}

/// Handle one issuance request: parse the raw public key, require an
/// authenticated session, sign, persist, and return the certificate's text
/// form. Each failure short-circuits the rest; no partial certificate is
/// returned and nothing is stored on failure. An anonymous session is
/// rejected before the signer or the store are touched. On success the
/// store holds the new payload under the session's record id — a fresh row
/// on the session's first issuance, the same row replaced on a later one —
/// and the session remembers that id.
pub fn sign_ssh_public_key(
    auth_session: &mut AuthSession,
    ssh_ca: &SshCA,
    store: &mut ModelController,
    body: &str,
) -> (r: Result<String, ApiError>)
    requires
        old(store).wf(),
    ensures
        final(store).wf(),
        final(store).users@ == old(store).users@,
        (r is Err ==> certs_view(final(store).certs@) == certs_view(old(store).certs@)
            && session_view(*final(auth_session)) == session_view(*old(auth_session))),
        ((r matches Err(e) && e is ClientInputError) <==> !parses_as_public_key(body@)),
        ((r matches Err(e) && e is AuthorizationError) <==> (parses_as_public_key(body@)
            && old(auth_session).user is None)),
        (r is Ok ==> old(auth_session).user is Some && session_view(*final(auth_session)).0
            == session_view(*old(auth_session)).0 && ({
            let cv = certs_view(old(store).certs@);
            exists|payload: Seq<char>|
                {
                    let t = #[trigger] spec_upsert(
                        cv,
                        (old(auth_session).current_cert_id, payload),
                    );
                    &&& certs_view(final(store).certs@) == t.0
                    &&& final(auth_session).current_cert_id == t.1.0
                }
        })),
{
    let pub_key = match parse_public_key(body) {
        Ok(k) => k,
        Err(_) => {
            return Err(ApiError::ClientInputError);
        },
    };
    let username = match &auth_session.user {
        Some(u) => u.username.clone(),
        None => {
            return Err(ApiError::AuthorizationError);
        },
    };
    let signed = match ssh_ca.sign_public_key(&pub_key, username.as_str()) {
        Ok(s) => s,
        Err(_) => {
            return Err(ApiError::SigningError);
        },
    };
    let payload = match cert_to_json(&signed.sealed) {
        Ok(p) => p,
        Err(e) => {
            return Err(store_error_to_api(&StoreError::SerdeJsonError(e)));
        },
    };
    let text = match cert_to_openssh(&signed.sealed) {
        Ok(t) => t,
        Err(_) => {
            return Err(ApiError::SigningError);
        },
    };
    let ghost payload_view = payload@;
    let record = Cert { id: auth_session.current_cert_id, inner: payload };
    match store.upsert_cert(record) {
        Ok(stored) => {
            auth_session.current_cert_id = stored.id;
            proof {
                let cv = certs_view(old(store).certs@);
                let t = spec_upsert(cv, (old(auth_session).current_cert_id, payload_view));
                assert(certs_view(store.certs@) == t.0);
                assert(auth_session.current_cert_id == t.1.0);
            }
            Ok(text)
        },
        Err(e) => Err(store_error_to_api(&e)),
    }
}

} // verus!
