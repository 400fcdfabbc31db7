//! The certificate authority signer.
//!
//! `SshCA` holds the CA's private key and issuance policy and turns a subject
//! public key and a subject name into a signed, time-bounded,
//! principal-scoped SSH user certificate. The plain fields of the certificate
//! (serial, key id, comment, validity window, principal policy) are computed
//! and specified here; the cryptographic sealing is done by the `ssh-key`
//! crate behind trusted wrappers.

use vstd::prelude::*;
use vstd::string::StringExecFns;

verus! {

/// The private key type of `ssh-key`, opaque to this library.
#[verifier::external_type_specification]
#[verifier::external_body]
pub struct ExPrivateKey(ssh_key::PrivateKey);

/// The public key type of `ssh-key`, opaque to this library.
#[verifier::external_type_specification]
#[verifier::external_body]
pub struct ExPublicKey(ssh_key::PublicKey);

/// The certificate type of `ssh-key`, opaque to this library.
#[verifier::external_type_specification]
#[verifier::external_body]
pub struct ExCertificate(ssh_key::Certificate);

/// The error type of `ssh-key`, opaque to this library.
#[verifier::external_type_specification]
#[verifier::external_body]
pub struct ExSshError(ssh_key::Error);

/// Why signing failed.
#[derive(Debug)]
pub enum SigningError {
    /// The system clock reads before the Unix epoch.
    Clock,
    /// The validity window would not fit the time type.
    WindowOverflow,
    /// The underlying cryptographic library refused the operation.
    Crypto(ssh_key::Error),
}

/// The decimal digit `d` (`d < 10`) as a character.
pub open spec fn digit_char(d: nat) -> char {
    if d == 0 {
        '0'
    } else if d == 1 {
        '1'
    } else if d == 2 {
        '2'
    } else if d == 3 {
        '3'
    } else if d == 4 {
        '4'
    } else if d == 5 {
        '5'
    } else if d == 6 {
        '6'
    } else if d == 7 {
        '7'
    } else if d == 8 {
        '8'
    } else {
        '9'
    }
}

/// The decimal digits of `n`, most significant first, without leading zeros
/// (`0` is written as "0").
pub open spec fn spec_dec(n: nat) -> Seq<char>
    decreases n,
{
    if n < 10 {
        seq![digit_char(n)]
    } else {
        spec_dec(n / 10).push(digit_char(n % 10))
    }
}

/// The key id embedded in a certificate: the subject name, a hyphen, and the
/// serial in decimal.
pub open spec fn spec_key_id(username: Seq<char>, serial: nat) -> Seq<char> {
    username + seq!['-'] + spec_dec(serial)
}

fn digit_str(d: u64) -> (s: &'static str)
    requires
        d < 10,
    ensures
        s@ == seq![digit_char(d as nat)],
{
    proof {
        reveal_strlit("0");
        reveal_strlit("1");
        reveal_strlit("2");
        reveal_strlit("3");
        reveal_strlit("4");
        reveal_strlit("5");
        reveal_strlit("6");
        reveal_strlit("7");
        reveal_strlit("8");
        reveal_strlit("9");
    }
    let s: &'static str = if d == 0 {
        "0"
    } else if d == 1 {
        "1"
    } else if d == 2 {
        "2"
    } else if d == 3 {
        "3"
    } else if d == 4 {
        "4"
    } else if d == 5 {
        "5"
    } else if d == 6 {
        "6"
    } else if d == 7 {
        "7"
    } else if d == 8 {
        "8"
    } else {
        "9"
    };
    proof {
        assert(s@ =~= seq![digit_char(d as nat)]);
    }
    s
}

/// Write `n` in decimal.
pub fn u64_to_dec(n: u64) -> (s: String)
    ensures
        s@ == spec_dec(n as nat),
    decreases n,
{
    if n < 10 {
        digit_str(n).to_owned()
    } else {
        let q = n / 10;
        let r = n % 10;
        assert(q < n);
        let mut s = u64_to_dec(q);
        s.append(digit_str(r));
        proof {
            assert(s@ =~= spec_dec(n as nat));
        }
        s
    }
}

/// Build the key id `"{username}-{serial}"`.
pub fn make_key_id(username: &str, serial: u64) -> (r: String)
    ensures
        r@ == spec_key_id(username@, serial as nat),
{
    let mut s = username.to_owned();
    s.append("-");
    let digits = u64_to_dec(serial);
    s.append(digits.as_str());
    proof {
        reveal_strlit("-");
        assert(s@ =~= spec_key_id(username@, serial as nat));
    }
    s
}

/// Which login names a certificate may be used for: a closed list, or any
/// principal. The wildcard is a deliberate operator choice, not a safe
/// default.
pub enum PrincipalPolicy {
    AnyPrincipal,
    Only(Vec<String>),
}

pub open spec fn string_seq_view(v: Seq<String>) -> Seq<Seq<char>> {
    v.map_values(|s: String| s@)
}

/// `None` for the wildcard policy, the list of principals otherwise.
pub open spec fn policy_view(p: PrincipalPolicy) -> Option<Seq<Seq<char>>> {
    match p {
        PrincipalPolicy::AnyPrincipal => None,
        PrincipalPolicy::Only(v) => Some(string_seq_view(v@)),
    }
}

pub open spec fn opt_principals_view(p: Option<Vec<String>>) -> Option<Seq<Seq<char>>> {
    match p {
        None => None,
        Some(v) => Some(string_seq_view(v@)),
    }
}

/// The type of a certificate: one for a user, or one for a host. This
/// service has no host-certificate issuance path: everything it signs is a
/// user certificate.
pub enum CertKind {
    User,
    Host,
}

/// The plain fields of a signed certificate, as this library states them.
pub struct CertData {
    pub serial: u64,
    pub key_id: String,
    pub comment: String,
    pub valid_after: u64,
    pub valid_before: u64,
    pub principals: PrincipalPolicy,
    pub cert_type: CertKind,
}

/// The plain fields a correctly prepared certificate carries for a signing
/// request taken at time `now` with serial `serial`.
pub open spec fn cert_data_ok(
    d: CertData,
    principals: Option<Seq<Seq<char>>>,
    period: u64,
    username: Seq<char>,
    now: u64,
    serial: u64,
) -> bool {
    &&& d.serial == serial
    &&& d.key_id@ == spec_key_id(username, serial as nat)
    &&& d.comment@ == username
    &&& d.valid_after == now
    &&& d.valid_before == now + period
    &&& policy_view(d.principals) == principals
    &&& d.cert_type is User
}

/// A signed certificate: the plain fields this library computed, and the
/// sealed certificate the cryptographic library produced from exactly those
/// fields.
pub struct SignedCertificate {
    pub data: CertData,
    pub sealed: ssh_key::Certificate,
}

/// The signer's configuration as it is loaded at startup: where the CA
/// private key lies, the optional closed principal list, and the validity
/// duration in seconds.
pub struct SshCAConfig {
    pub private_key_path: String,
    pub valid_principals: Option<Vec<String>>,
    pub validity_period_secs: u64,
}

/// The certificate authority: private key, principal policy, validity
/// duration. Immutable for the process lifetime and read-only during
/// signing.
pub struct SshCA {
    pub private_key: ssh_key::PrivateKey,
    pub valid_principals: Option<Vec<String>>,
    pub validity_period_secs: u64,
}

/// Relies on `std::time::SystemTime::now` and `duration_since`: the current
/// time in seconds since the Unix epoch, `None` when the clock reads before
/// the epoch. The result depends on the clock, so nothing is stated of it.
#[verifier::external_body]
fn now_unix() -> (r: Option<u64>) {
    match std::time::SystemTime::now().duration_since(std::time::UNIX_EPOCH) {
        Ok(d) => Some(d.as_secs()),
        Err(_) => None,
    }
}

/// Relies on `rand_core::OsRng` (re-exported by `ssh-key`): a 64-bit value
/// from the operating system's secure random source. The result is random,
/// so nothing is stated of it.
#[verifier::external_body]
fn random_serial() -> u64 {
    ssh_key::rand_core::RngCore::next_u64(&mut ssh_key::rand_core::OsRng)
}

/// Relies on `ssh_key::certificate::Builder` and its `sign`: the builder
/// stores exactly the fields it is given and `sign` seals them into a user
/// certificate restricted to the given principals, signed by the CA key.
/// Fails when a timestamp is out of range, the window is inverted, or the
/// key cannot sign — and always when `principals` is empty, since the
/// builder then never sees a principal and its `sign` refuses a certificate
/// whose principals were never set.
#[verifier::external_body]
fn seal_with_principals(
    ca_key: &ssh_key::PrivateKey,
    subject: &ssh_key::PublicKey,
    valid_after: u64,
    valid_before: u64,
    serial: u64,
    key_id: &str,
    comment: &str,
    principals: &Vec<String>,
) -> (r: Result<ssh_key::Certificate, ssh_key::Error>) {
    let mut b = ssh_key::certificate::Builder::new_with_random_nonce(
        &mut ssh_key::rand_core::OsRng,
        subject,
        valid_after,
        valid_before,
    )?;
    b.serial(serial)?;
    b.key_id(key_id)?;
    b.comment(comment)?;
    b.cert_type(ssh_key::certificate::CertType::User)?;
    for p in principals {
        b.valid_principal(p.as_str())?;
    }
    b.sign(ca_key)
}

/// Relies on `ssh_key::certificate::Builder` with `all_principals_valid` and
/// `sign`, as `seal_with_principals` does, but marking the certificate as
/// valid for any principal.
#[verifier::external_body]
fn seal_all_principals(
    ca_key: &ssh_key::PrivateKey,
    subject: &ssh_key::PublicKey,
    valid_after: u64,
    valid_before: u64,
    serial: u64,
    key_id: &str,
    comment: &str,
) -> (r: Result<ssh_key::Certificate, ssh_key::Error>) {
    let mut b = ssh_key::certificate::Builder::new_with_random_nonce(
        &mut ssh_key::rand_core::OsRng,
        subject,
        valid_after,
        valid_before,
    )?;
    b.serial(serial)?;
    b.key_id(key_id)?;
    b.comment(comment)?;
    b.cert_type(ssh_key::certificate::CertType::User)?;
    b.all_principals_valid()?;
    b.sign(ca_key)
}

/// Whether a text is the OpenSSH form of a public key, exactly as
/// `ssh_key::PublicKey::from_openssh` accepts it. The outcome depends on the
/// text alone; stating its grammar here is not attempted.
pub uninterp spec fn parses_as_public_key(s: Seq<char>) -> bool;

/// Relies on `ssh_key::PublicKey::from_openssh`: parses the OpenSSH text
/// form of a public key; malformed input is an error. Success depends on
/// the text alone and is named by `parses_as_public_key`.
#[verifier::external_body]
pub(crate) fn parse_public_key(s: &str) -> (r: Result<ssh_key::PublicKey, ssh_key::Error>)
    ensures
        r is Ok <==> parses_as_public_key(s@),
{
    ssh_key::PublicKey::from_openssh(s)
}

/// Relies on `ssh_key::Certificate::to_openssh`: the OpenSSH text form of a
/// certificate.
#[verifier::external_body]
pub(crate) fn cert_to_openssh(c: &ssh_key::Certificate) -> (r: Result<String, ssh_key::Error>) {
    c.to_openssh()
}

/// Relies on `serde_json::to_string` and the `Serialize` impl of
/// `ssh_key::Certificate`: the JSON form of a certificate, the form in which
/// the store keeps it.
#[verifier::external_body]
pub(crate) fn cert_to_json(c: &ssh_key::Certificate) -> (r: Result<String, serde_json::Error>) {
    serde_json::to_string(c)
}

impl SshCA {
    /// A certificate authority over an already-loaded private key.
    pub fn new(
        private_key: ssh_key::PrivateKey,
        valid_principals: Option<Vec<String>>,
        validity_period_secs: u64,
    ) -> (ca: SshCA)
        ensures
            ca.private_key == private_key,
            ca.valid_principals == valid_principals,
            ca.validity_period_secs == validity_period_secs,
    {
        SshCA { private_key, valid_principals, validity_period_secs }
    }

    /// Compute the plain fields of the certificate for a signing request
    /// taken at time `now` with serial `serial`: the window starts at `now`
    /// and is exactly the configured duration long, the key id is
    /// `"{username}-{serial}"`, the comment is the subject name, the
    /// principal policy is the configured one, and the certificate is a
    /// user certificate.
    pub fn prepare_cert_data(&self, username: &str, now: u64, serial: u64) -> (r: Result<
        CertData,
        SigningError,
    >)
        ensures
            now + self.validity_period_secs <= u64::MAX ==> (r matches Ok(d) && cert_data_ok(
                d,
                opt_principals_view(self.valid_principals),
                self.validity_period_secs,
                username@,
                now,
                serial,
            )),
            now + self.validity_period_secs > u64::MAX ==> (r matches Err(e)
                && e is WindowOverflow),
    {
        if self.validity_period_secs > u64::MAX - now {
            return Err(SigningError::WindowOverflow);
        }
        let valid_before = now + self.validity_period_secs;
        let key_id = make_key_id(username, serial);
        let comment = username.to_owned();
        let principals = match &self.valid_principals {
            None => PrincipalPolicy::AnyPrincipal,
            Some(ps) => {
                let cl = ps.clone();
                proof {
                    assert forall|i: int| 0 <= i < ps@.len() implies cl@[i]@ == ps@[i]@ by {
                        assert(cloned::<String>(ps@[i], cl@[i]));
                    }
                    assert(string_seq_view(cl@) =~= string_seq_view(ps@));
                }
                PrincipalPolicy::Only(cl)
            },
        };
        Ok(CertData {
            serial,
            key_id,
            comment,
            valid_after: now,
            valid_before,
            principals,
            cert_type: CertKind::User,
        })
    }

    /// Sign a subject public key for a subject name. The validity window
    /// starts at the current time and is exactly the configured duration
    /// long; the serial is drawn fresh from a secure random source; the key
    /// id has the form `"{username}-{serial}"`; the principal set is exactly
    /// the configured list, or the certificate is marked valid for any
    /// principal when none is configured. Fails when the clock reads before
    /// the epoch, the window overflows, or the cryptographic library refuses
    /// the key.
    pub fn sign_public_key(&self, pub_key: &ssh_key::PublicKey, username: &str) -> (r: Result<
        SignedCertificate,
        SigningError,
    >)
        ensures
            r matches Ok(sc) ==> exists|now: u64, serial: u64|
                #[trigger] cert_data_ok(
                    sc.data,
                    opt_principals_view(self.valid_principals),
                    self.validity_period_secs,
                    username@,
                    now,
                    serial,
                ),
    {
        let now = match now_unix() {
            Some(t) => t,
            None => {
                return Err(SigningError::Clock);
            },
        };
        let serial = random_serial();
        let data = match self.prepare_cert_data(username, now, serial) {
            Ok(d) => d,
            Err(e) => {
                return Err(e);
            },
        };
        let sealed_res = match &self.valid_principals {
            None => seal_all_principals(
                &self.private_key,
                pub_key,
                data.valid_after,
                data.valid_before,
                data.serial,
                data.key_id.as_str(),
                data.comment.as_str(),
            ),
            Some(ps) => seal_with_principals(
                &self.private_key,
                pub_key,
                data.valid_after,
                data.valid_before,
                data.serial,
                data.key_id.as_str(),
                data.comment.as_str(),
                ps,
            ),
        };
        match sealed_res {
            Ok(sealed) => {
                proof {
                    assert(cert_data_ok(
                        data,
                        opt_principals_view(self.valid_principals),
                        self.validity_period_secs,
                        username@,
                        now,
                        serial,
                    ));
                }
                Ok(SignedCertificate { data, sealed })
            },
            Err(e) => Err(SigningError::Crypto(e)),
        }
    }
}

} // verus!
