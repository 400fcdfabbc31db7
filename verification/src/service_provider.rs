//! The federated identity provider's side of the configuration.
//!
//! Instantiating a live service provider from this configuration fetches
//! metadata over the network and reads key material from disk; that happens
//! outside this library, which only defines the configuration's shape.

use vstd::prelude::*;

verus! {

/// What the service needs to speak to its identity provider: where its
/// metadata lies, an optional login URL to redirect browsers to, this
/// service's entity id, the local signing certificate and key paths, and
/// the assertion-consumer URL.
pub struct SamlSPConfig {
    pub idp_metadata_url: String,
    pub idp_login_url: Option<String>,
    pub sp_entity_id: String,
    pub cert_path: String,
    pub private_key_path: String,
    pub acs_url: String,
}

} // verus!
