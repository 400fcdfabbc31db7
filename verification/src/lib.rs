//! An SSH certificate authority fronted by federated identity.
//!
//! The library covers the identity-to-credential issuance pipeline: the
//! certificate signing engine, the identity bridge that turns a federated
//! assertion into a durable local user record, the store that keeps the
//! current certificate per issuance, and the session gate in front of it.

use vstd::prelude::*;

pub mod api;
pub mod auth;
pub mod controller;
pub mod model;
pub mod service_provider;
pub mod session;
pub mod signatory;
pub mod ssh_ca;

use crate::service_provider::SamlSPConfig;
use crate::ssh_ca::SshCAConfig;

verus! {

/// The whole service's configuration, loaded once at startup and fixed for
/// the process lifetime.
pub struct AppConfig {
    pub saml_sp_config: SamlSPConfig,
    pub ssh_ca_config: SshCAConfig,
    pub listen_sock_addr: String,
}

} // verus!
