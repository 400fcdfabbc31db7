//! An earlier, smaller shape of the signer's configuration: a private key
//! and a validity duration, without a principal policy. Kept alongside the
//! certificate authority for callers that still build from it.

use vstd::prelude::*;

verus! {

/// Where the signing key lies and how long a signature stays valid.
pub struct SignatoryConfig {
    pub private_key_path: String,
    pub validity_period_secs: u64,
}

/// A loaded signing identity: the private key and the validity duration.
pub struct Signatory {
    pub private_key: ssh_key::PrivateKey,
    pub validity_period_secs: u64,
}

impl Signatory {
    /// A signatory over an already-loaded private key.
    pub fn new(private_key: ssh_key::PrivateKey, validity_period_secs: u64) -> (s: Signatory)
        ensures
            s.private_key == private_key,
            s.validity_period_secs == validity_period_secs,
    {
        Signatory { private_key, validity_period_secs }
    }
}

} // verus!
