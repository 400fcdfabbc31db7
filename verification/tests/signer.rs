use ssh_key::rand_core::OsRng;
use ssh_key::{Algorithm, PrivateKey};
use ssh_web_ca::ssh_ca::{make_key_id, u64_to_dec, CertKind, PrincipalPolicy, SshCA};

fn fresh_key() -> PrivateKey {
    PrivateKey::random(&mut OsRng, Algorithm::Ed25519).expect("key generation")
}

fn now_secs() -> u64 {
    std::time::SystemTime::now()
        .duration_since(std::time::UNIX_EPOCH)
        .expect("clock after epoch")
        .as_secs()
}

#[test]
fn decimal_rendering() {
    assert_eq!(u64_to_dec(0), "0");
    assert_eq!(u64_to_dec(7), "7");
    assert_eq!(u64_to_dec(10), "10");
    assert_eq!(u64_to_dec(1234567890), "1234567890");
    assert_eq!(u64_to_dec(u64::MAX), "18446744073709551615");
}

#[test]
fn key_id_form() {
    assert_eq!(make_key_id("alice", 42), "alice-42");
    assert_eq!(make_key_id("", 0), "-0");
}

#[test]
fn sign_window_and_fields() {
    let ca = SshCA::new(fresh_key(), None, 3600);
    let subject = fresh_key();
    let t0 = now_secs();
    let sc = ca
        .sign_public_key(subject.public_key(), "alice")
        .expect("signing succeeds");
    let t1 = now_secs();

    assert_eq!(sc.data.valid_before - sc.data.valid_after, 3600);
    assert!(t0 <= sc.data.valid_after && sc.data.valid_after <= t1);
    assert_eq!(sc.data.comment, "alice");
    assert_eq!(sc.data.key_id, format!("alice-{}", sc.data.serial));
    assert!(matches!(sc.data.cert_type, CertKind::User));

    assert_eq!(sc.sealed.valid_after(), sc.data.valid_after);
    assert_eq!(sc.sealed.valid_before(), sc.data.valid_before);
    assert_eq!(sc.sealed.serial(), sc.data.serial);
    assert_eq!(sc.sealed.key_id(), sc.data.key_id.as_str());
    assert_eq!(sc.sealed.comment(), "alice");
    assert_eq!(sc.sealed.public_key(), subject.public_key().key_data());
    assert_eq!(sc.sealed.cert_type(), ssh_key::certificate::CertType::User);
}

#[test]
fn consecutive_serials_differ() {
    let ca = SshCA::new(fresh_key(), None, 60);
    let subject = fresh_key();
    let a = ca
        .sign_public_key(subject.public_key(), "bob")
        .expect("first signing");
    let b = ca
        .sign_public_key(subject.public_key(), "bob")
        .expect("second signing");
    assert_ne!(a.data.serial, b.data.serial);
    assert_ne!(a.data.key_id, b.data.key_id);
}

#[test]
fn principal_policy_closed() {
    let ps = vec!["ops".to_string(), "deploy".to_string()];
    let ca = SshCA::new(fresh_key(), Some(ps.clone()), 60);
    let subject = fresh_key();
    let sc = ca
        .sign_public_key(subject.public_key(), "alice")
        .expect("signing succeeds");
    assert_eq!(sc.sealed.valid_principals(), &ps[..]);
    match &sc.data.principals {
        PrincipalPolicy::Only(v) => assert_eq!(v, &ps),
        PrincipalPolicy::AnyPrincipal => panic!("expected the closed principal list"),
    }
}

#[test]
fn principal_policy_wildcard() {
    let ca = SshCA::new(fresh_key(), None, 60);
    let subject = fresh_key();
    let sc = ca
        .sign_public_key(subject.public_key(), "alice")
        .expect("signing succeeds");
    // An empty principal list is how an OpenSSH certificate is marked as
    // valid for any principal.
    assert!(sc.sealed.valid_principals().is_empty());
    assert!(matches!(sc.data.principals, PrincipalPolicy::AnyPrincipal));
}

#[test]
fn prepare_is_exact() {
    let ca = SshCA::new(fresh_key(), None, 100);
    let d = ca.prepare_cert_data("alice", 1000, 77).expect("prepare succeeds");
    assert_eq!(d.valid_after, 1000);
    assert_eq!(d.valid_before, 1100);
    assert_eq!(d.serial, 77);
    assert_eq!(d.key_id, "alice-77");
    assert_eq!(d.comment, "alice");
    assert!(matches!(d.cert_type, CertKind::User));
}

#[test]
fn prepare_window_overflow() {
    let ca = SshCA::new(fresh_key(), None, u64::MAX);
    assert!(ca.prepare_cert_data("alice", 2, 1).is_err());
}
