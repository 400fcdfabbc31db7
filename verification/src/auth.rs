//! The authentication routes' decision cores: login by federated assertion,
//! the login redirect, and logout.

use vstd::prelude::*;

use crate::api::ApiError;
use crate::controller::{has_user, spec_get_or_create, ModelController};
use crate::model::{assertion_subject_name, user_view, users_view, Assertion};
use crate::session::{session_view, AuthSession};

verus! {

/// Log a caller in from an already-validated assertion: resolve the subject
/// identifier to a local user (creating one on first sight) and bind that
/// user to the session. An assertion without a subject identifier is an
/// authentication error and neither the store nor the session changes.
pub fn login(
    auth_session: &mut AuthSession,
    backend: &mut ModelController,
    assertion: Assertion,
) -> (r: Result<(), ApiError>)
    requires
        old(backend).wf(),
    ensures
        final(backend).wf(),
        final(backend).certs@ == old(backend).certs@,
        (r is Err ==> users_view(final(backend).users@) == users_view(old(backend).users@)
            && session_view(*final(auth_session)) == session_view(*old(auth_session))),
        (assertion_subject_name(assertion) is None ==> (r matches Err(e)
            && e is AuthenticationError)),
        (assertion_subject_name(assertion) matches Some(name) ==> ({
            let uv = users_view(old(backend).users@);
            let t = spec_get_or_create(uv, name);
            &&& (has_user(uv, name) || uv.len() < i64::MAX ==> (r is Ok && users_view(
                final(backend).users@,
            ) == t.0 && (final(auth_session).user matches Some(u) && user_view(u) == t.1)
                && final(auth_session).current_cert_id is None))
            &&& (!has_user(uv, name) && uv.len() == i64::MAX ==> (r matches Err(e)
                && e is StorageError))
        })),
{
    match backend.authenticate(assertion) {
        Ok(Some(user)) => {
            auth_session.login(user);
            Ok(())
        },
        Ok(None) => Err(ApiError::AuthenticationError),
        Err(e) => Err(crate::api::store_error_to_api(&e)),
    }
}

/// Where an unauthenticated GET of the login route goes: to the configured
/// identity-provider login URL, or to a static instruction when none is
/// configured.
pub enum LoginRedirect {
    ToUrl(String),
    Instruction,
}

/// Decide the login redirect from the configured identity-provider login
/// URL.
pub fn login_idp_redirect(idp_login_url: &Option<String>) -> (r: LoginRedirect)
    ensures
        (idp_login_url matches Some(url) ==> (r matches LoginRedirect::ToUrl(u) && u@ == url@)),
        (idp_login_url is None ==> r is Instruction),
{
    match idp_login_url {
        Some(url) => LoginRedirect::ToUrl(url.clone()),
        None => LoginRedirect::Instruction,
    }
}

/// End the current session. Fails with an authorization error, and changes
/// nothing, when no session is active.
pub fn logout(auth_session: &mut AuthSession) -> (r: Result<(), ApiError>)
    ensures
        old(auth_session).user is None ==> (r matches Err(e) && e is AuthorizationError
            && session_view(*final(auth_session)) == session_view(*old(auth_session))),
        old(auth_session).user is Some ==> (r is Ok && final(auth_session).user is None
            && final(auth_session).current_cert_id is None),
{
    match &auth_session.user {
        None => Err(ApiError::AuthorizationError),
        Some(_) => {
            auth_session.user = None;
            auth_session.current_cert_id = None;
            Ok(())
        },
    }
}

} // verus!
