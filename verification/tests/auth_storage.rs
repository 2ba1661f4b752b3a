use hackernews_tim::auth::{
    backport_decision, has_session_line, WriteStep, keyring_password_account, keyring_session_account, parse_auth_storage,
    plan_migration, Auth, AuthError, AuthFileRepr, AuthSource, AuthStorage, KeyringOp,
    MigrationOutcome,
};

fn auth(storage: AuthStorage, session: Option<&str>) -> Auth {
    Auth {
        username: "alice".to_string(),
        password: "hunter2".to_string(),
        session: session.map(|s| s.to_string()),
        storage,
    }
}

#[test]
fn auth_storage_parse_round_trip() {
    assert_eq!("file".parse::<AuthStorage>().unwrap(), AuthStorage::File);
    assert_eq!("File".parse::<AuthStorage>().unwrap(), AuthStorage::File);
    assert_eq!(
        "keyring".parse::<AuthStorage>().unwrap(),
        AuthStorage::Keyring
    );
    assert_eq!(
        "KEYRING".parse::<AuthStorage>().unwrap(),
        AuthStorage::Keyring
    );
    assert!("plaintext".parse::<AuthStorage>().is_err());

    assert_eq!(AuthStorage::File.to_string(), "file");
    assert_eq!(AuthStorage::Keyring.to_string(), "keyring");
}

#[test]
fn auth_default_storage_is_file() {
    assert_eq!(AuthStorage::default(), AuthStorage::File);
}

#[test]
fn unknown_storage_message_names_the_lowercased_value() {
    assert_eq!(
        parse_auth_storage("PlainText").unwrap_err(),
        "unknown auth storage 'plaintext' (expected 'file' or 'keyring')"
    );
    assert_eq!(parse_auth_storage("kEyRiNg").unwrap(), AuthStorage::Keyring);
    for s in [AuthStorage::File, AuthStorage::Keyring] {
        assert_eq!(parse_auth_storage(&s.to_string()).unwrap(), s);
    }
}

#[test]
fn keyring_accounts_are_username_and_session_suffix() {
    assert_eq!(keyring_password_account("alice"), "alice");
    assert_eq!(keyring_session_account("alice"), "alice:session");
}

#[test]
fn repr_resolution_covers_every_case() {
    let ready = Auth::from_repr(AuthFileRepr {
        storage: None,
        username: "bob".into(),
        password: Some("pw".into()),
        session: Some(String::new()),
    })
    .unwrap();
    match ready {
        AuthSource::Ready(a) => {
            assert_eq!(a.username, "bob");
            assert_eq!(a.password, "pw");
            assert_eq!(a.session, None);
            assert_eq!(a.storage, AuthStorage::File);
        }
        other => panic!("expected ready credentials, got {other:?}"),
    }

    let pointer = Auth::from_repr(AuthFileRepr {
        storage: Some("Keyring".into()),
        username: "carol".into(),
        password: None,
        session: None,
    })
    .unwrap();
    assert!(matches!(pointer, AuthSource::NeedKeyring { ref username } if username == "carol"));

    let missing = Auth::from_repr(AuthFileRepr {
        storage: Some("file".into()),
        username: "dave".into(),
        password: None,
        session: None,
    })
    .unwrap_err();
    assert!(matches!(missing, AuthError::MissingPassword));
    assert_eq!(missing.to_string(), "auth file is missing the `password` field");

    let bad = Auth::from_repr(AuthFileRepr {
        storage: Some("Vault".into()),
        username: "erin".into(),
        password: Some("pw".into()),
        session: None,
    })
    .unwrap_err();
    assert_eq!(
        bad.to_string(),
        "unknown auth storage 'vault' (expected 'file' or 'keyring')"
    );
}

#[test]
fn keyring_entries_complete_pointer_credentials() {
    let a = Auth::from_keyring_entries("carol".into(), Some("pw".into()), Some("".into())).unwrap();
    assert_eq!(a.storage, AuthStorage::Keyring);
    assert_eq!(a.session, None);
    let b = Auth::from_keyring_entries("carol".into(), Some("pw".into()), Some("c=1".into()))
        .unwrap();
    assert_eq!(b.session.as_deref(), Some("c=1"));
    let err = Auth::from_keyring_entries("carol".into(), None, Some("c=1".into())).unwrap_err();
    assert_eq!(
        err.to_string(),
        "no password found in OS keyring for user 'carol' (service 'hackernews-tim')"
    );
}

#[test]
fn keyring_write_plan_stores_secrets_before_the_pointer() {
    let plan = auth(AuthStorage::Keyring, None).write_plan();
    assert_eq!(plan.keyring_ops.len(), 2);
    assert!(matches!(&plan.keyring_ops[0],
        KeyringOp::Store { account, secret } if account == "alice" && secret == "hunter2"));
    assert!(matches!(&plan.keyring_ops[1],
        KeyringOp::Delete { account } if account == "alice:session"));
    assert!(plan.file_body.contains("storage = \"keyring\""));
    assert!(!plan.file_body.contains("hunter2"));

    let with_cookie = auth(AuthStorage::Keyring, Some("alice&abc")).write_plan();
    assert!(matches!(&with_cookie.keyring_ops[1],
        KeyringOp::Store { account, secret } if account == "alice:session" && secret == "alice&abc"));

    let file = auth(AuthStorage::File, Some("alice&abc")).write_plan();
    assert!(file.keyring_ops.is_empty());
    assert!(file.file_body.contains("password = \"hunter2\""));
    assert!(file.file_body.contains("session = \"alice&abc\""));
}

#[test]
fn migration_plans() {
    let same = plan_migration(&auth(AuthStorage::File, None), AuthStorage::File);
    assert_eq!(same.outcome, MigrationOutcome::NoOp { storage: AuthStorage::File });
    assert!(same.write.is_none());
    assert!(same.cleanup.is_empty());

    let to_keyring = plan_migration(&auth(AuthStorage::File, None), AuthStorage::Keyring);
    assert_eq!(
        to_keyring.outcome,
        MigrationOutcome::Migrated { from: AuthStorage::File, to: AuthStorage::Keyring }
    );
    assert_eq!(to_keyring.write.as_ref().unwrap().keyring_ops.len(), 2);
    assert!(to_keyring.cleanup.is_empty());

    let to_file = plan_migration(&auth(AuthStorage::Keyring, None), AuthStorage::File);
    let w = to_file.write.unwrap();
    assert!(w.keyring_ops.is_empty());
    assert!(w.file_body.contains("password = \"hunter2\""));
    assert_eq!(to_file.cleanup.len(), 2);
    assert!(matches!(&to_file.cleanup[0], KeyringOp::Delete { account } if account == "alice"));
    assert!(matches!(&to_file.cleanup[1], KeyringOp::Delete { account } if account == "alice:session"));
}

#[test]
fn session_line_detection() {
    assert!(has_session_line("username = \"bob\"\n  session = \"\"\n"));
    assert!(has_session_line("session=\"x\""));
    assert!(!has_session_line("username = \"bob\"\npassword = \"pw\"\n"));
    assert!(!has_session_line("sessions = 1\n# session = x\n"));
}

#[test]
fn auth_keyring_write_emits_pointer_with_guidance() {
    let body = Auth {
        username: "carol".to_string(),
        password: "pw".to_string(),
        session: None,
        storage: AuthStorage::Keyring,
    }
    .to_annotated_keyring_toml();

    assert!(
        body.contains("storage = \"keyring\""),
        "missing storage marker:\n{body}"
    );
    assert!(
        body.contains("username = \"carol\""),
        "missing username:\n{body}"
    );
    assert!(
        !body.contains("password ="),
        "password leaked into pointer file:\n{body}"
    );
    assert!(
        !body.contains("session ="),
        "session cookie leaked into pointer file:\n{body}"
    );
    assert!(
        body.contains("--migrate-auth file"),
        "missing migration hint:\n{body}"
    );
}

#[test]
fn from_str_reports_the_unknown_name() {
    let err = "Plaintext".parse::<AuthStorage>().unwrap_err();
    assert_eq!(err, "unknown auth storage 'plaintext' (expected 'file' or 'keyring')");
    assert_eq!("FILE".parse::<AuthStorage>(), Ok(AuthStorage::File));
}

#[test]
fn backport_decision_table() {
    assert!(backport_decision(AuthStorage::File, false));
    assert!(!backport_decision(AuthStorage::File, true));
    assert!(!backport_decision(AuthStorage::Keyring, false));
    assert!(!backport_decision(AuthStorage::Keyring, true));
}

#[test]
fn write_steps_put_the_file_last() {
    let steps = auth(AuthStorage::Keyring, Some("alice&abc")).write_plan().steps();
    assert_eq!(steps.len(), 3);
    assert!(matches!(&steps[0], WriteStep::Keyring(KeyringOp::Store { account, .. }) if account == "alice"));
    assert!(matches!(&steps[1], WriteStep::Keyring(KeyringOp::Store { account, .. }) if account == "alice:session"));
    assert!(matches!(&steps[2], WriteStep::File(body) if body.contains("storage = \"keyring\"")));
    let file_steps = auth(AuthStorage::File, None).write_plan().steps();
    assert_eq!(file_steps.len(), 1);
    assert!(matches!(&file_steps[0], WriteStep::File(body) if body.contains("session = \"\"")));
}
