use ssh_web_ca::controller::{ModelController, StoreError};
use ssh_web_ca::model::{Assertion, Cert, Subject, SubjectNameID, User};

#[test]
fn get_or_create_twice_same_id() {
    let mut mc = ModelController::new();
    let first = mc
        .get_or_create_user_by_username("alice")
        .expect("create succeeds");
    let second = mc
        .get_or_create_user_by_username("alice")
        .expect("lookup succeeds");
    assert_eq!(first.id, Some(1));
    assert_eq!(second.id, first.id);
    assert_eq!(mc.users.len(), 1);
}

#[test]
fn lookup_is_exact_match() {
    let mut mc = ModelController::new();
    mc.get_or_create_user_by_username("alice").expect("create");
    let hit = mc.get_user_by_username("alice").expect("query");
    assert!(hit.is_some());
    assert_eq!(hit.unwrap().username, "alice");
    // No case folding, no partial match.
    assert!(mc.get_user_by_username("Alice").expect("query").is_none());
    assert!(mc.get_user_by_username("alic").expect("query").is_none());
    assert!(mc.get_user_by_username("").expect("query").is_none());
}

#[test]
fn lookup_by_id() {
    let mut mc = ModelController::new();
    mc.get_or_create_user_by_username("alice").expect("create");
    mc.get_or_create_user_by_username("bob").expect("create");
    let u = mc.get_user_by_id(2).expect("query").expect("present");
    assert_eq!(u.username, "bob");
    assert!(mc.get_user_by_id(3).expect("query").is_none());
    assert!(mc.get_user_by_id(0).expect("query").is_none());
    assert!(mc.get_user_by_id(-1).expect("query").is_none());
    let via_gate = mc.get_user(&1).expect("query").expect("present");
    assert_eq!(via_gate.username, "alice");
}

#[test]
fn upsert_insert_then_update() {
    let mut mc = ModelController::new();
    let first = mc
        .upsert_cert(Cert::new("payload-one".to_string()))
        .expect("insert succeeds");
    assert_eq!(first.id, Some(1));
    assert_eq!(mc.certs.len(), 1);

    let second = mc
        .upsert_cert(Cert { id: first.id, inner: "payload-two".to_string() })
        .expect("update succeeds");
    assert_eq!(second.id, Some(1));
    assert_eq!(mc.certs.len(), 1);
    assert_eq!(mc.certs[0].inner, "payload-two");
}

#[test]
fn upsert_unknown_id_changes_nothing() {
    let mut mc = ModelController::new();
    mc.upsert_cert(Cert::new("kept".to_string())).expect("insert");
    let echoed = mc
        .upsert_cert(Cert { id: Some(9), inner: "stray".to_string() })
        .expect("no-op succeeds");
    assert_eq!(echoed.id, Some(9));
    assert_eq!(mc.certs.len(), 1);
    assert_eq!(mc.certs[0].inner, "kept");
}

#[test]
fn authenticate_rejects_missing_subject() {
    let mut mc = ModelController::new();
    let r = mc.authenticate(Assertion { subject: None });
    assert!(matches!(
        r,
        Err(StoreError::FailedToRetrieveUsernameFromAssertion { .. })
    ));
    assert_eq!(mc.users.len(), 0);
}

#[test]
fn authenticate_rejects_missing_name_id() {
    let mut mc = ModelController::new();
    let r = mc.authenticate(Assertion { subject: Some(Subject { name_id: None }) });
    assert!(matches!(
        r,
        Err(StoreError::FailedToRetrieveUsernameFromAssertion { .. })
    ));
    assert_eq!(mc.users.len(), 0);
}

#[test]
fn authenticate_provisions_then_reuses() {
    let mut mc = ModelController::new();
    let a = Assertion {
        subject: Some(Subject { name_id: Some(SubjectNameID { value: "carol".to_string() }) }),
    };
    let u1 = mc.authenticate(a).expect("resolves").expect("some user");
    assert_eq!(u1.id, Some(1));
    assert_eq!(u1.username, "carol");
    let b = Assertion {
        subject: Some(Subject { name_id: Some(SubjectNameID { value: "carol".to_string() }) }),
    };
    let u2 = mc.authenticate(b).expect("resolves").expect("some user");
    assert_eq!(u2.id, Some(1));
    assert_eq!(mc.users.len(), 1);
}

#[test]
fn subject_extraction() {
    let present = Assertion {
        subject: Some(Subject { name_id: Some(SubjectNameID { value: "carol".to_string() }) }),
    };
    assert_eq!(
        ssh_web_ca::model::extract_subject_name(&present),
        Some(&"carol".to_string())
    );
    let no_name_id = Assertion { subject: Some(Subject { name_id: None }) };
    assert!(ssh_web_ca::model::extract_subject_name(&no_name_id).is_none());
    let no_subject = Assertion { subject: None };
    assert!(ssh_web_ca::model::extract_subject_name(&no_subject).is_none());
}

#[test]
fn user_id_and_session_hash() {
    let persisted = User { id: Some(5), username: "bob".to_string() };
    assert_eq!(persisted.id(), 5);
    let fresh = User { id: None, username: "bob".to_string() };
    assert_eq!(fresh.id(), 0);
    assert_eq!(persisted.session_auth_hash(), b"bob");
}
