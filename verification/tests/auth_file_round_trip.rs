//! The auth-file scenarios, with the file's text held in memory, the
//! TOML parsed here and the decisions made by the library.

use hackernews_tim::auth::{should_backport, Auth, AuthFileRepr, AuthSource, AuthStorage};

/// A stand-in for one file on disk.
struct Disk {
    body: Option<String>,
}

impl Disk {
    fn new() -> Self {
        Disk { body: None }
    }

    fn write(&mut self, body: &str) {
        self.body = Some(body.to_string());
    }

    fn read(&self) -> String {
        self.body.clone().expect("read should succeed")
    }
}

fn write_file_auth(auth: &Auth, disk: &mut Disk) {
    let plan = auth.write_plan();
    assert!(plan.keyring_ops.is_empty());
    disk.write(&plan.file_body);
}

fn read_repr(disk: &Disk) -> AuthFileRepr {
    let text = disk.read();
    let value: toml::Value = toml::from_str(&text).expect("auth file should parse");
    let table = value.as_table().expect("auth file is a table");
    let field = |k: &str| table.get(k).and_then(|v| v.as_str()).map(|s| s.to_string());
    AuthFileRepr {
        storage: field("storage"),
        username: field("username").expect("username present"),
        password: field("password"),
        session: field("session"),
    }
}

fn read_auth(disk: &Disk) -> Auth {
    match Auth::from_repr(read_repr(disk)).expect("read should succeed") {
        AuthSource::Ready(a) => a,
        other => panic!("expected file credentials, got {other:?}"),
    }
}

fn backport(disk: &mut Disk, auth: &Auth) -> bool {
    if auth.storage != AuthStorage::File {
        return false;
    }
    let existing = disk.read();
    if !should_backport(auth, &existing) {
        return false;
    }
    write_file_auth(auth, disk);
    true
}

#[test]
fn auth_write_then_read_round_trips() {
    let mut disk = Disk::new();

    let original = Auth {
        username: "alice".to_string(),
        password: "hunter2".to_string(),
        session: None,
        storage: AuthStorage::File,
    };
    write_file_auth(&original, &mut disk);

    let parsed = read_auth(&disk);
    assert_eq!(parsed.username, original.username);
    assert_eq!(parsed.password, original.password);
}

#[test]
fn auth_write_then_read_preserves_session() {
    let mut disk = Disk::new();

    let original = Auth {
        username: "alice".to_string(),
        password: "hunter2".to_string(),
        session: Some("alice&abcdef123456".to_string()),
        storage: AuthStorage::File,
    };
    write_file_auth(&original, &mut disk);

    let parsed = read_auth(&disk);
    assert_eq!(parsed.session, original.session);
}

#[test]
fn auth_write_always_emits_session_placeholder_with_guidance() {
    let mut disk = Disk::new();

    write_file_auth(
        &Auth {
            username: "alice".to_string(),
            password: "hunter2".to_string(),
            session: None,
            storage: AuthStorage::File,
        },
        &mut disk,
    );

    let written = disk.read();
    assert!(
        written.contains("session = \"\""),
        "expected empty session line, got:\n{written}"
    );
    assert!(
        written.contains("user="),
        "expected the `user=` cookie hint in the guidance, got:\n{written}"
    );
    assert!(
        written.contains("news.ycombinator.com"),
        "expected a link to HN in the guidance, got:\n{written}"
    );

    let parsed = read_auth(&disk);
    assert_eq!(parsed.session, None);
}

#[test]
fn backport_rewrites_legacy_file_with_session_line() {
    let mut disk = Disk::new();
    disk.write("username = \"bob\"\npassword = \"pw\"\n")
        ;

    let auth = read_auth(&disk);
    let rewrote = backport(&mut disk, &auth);
    assert!(rewrote, "expected legacy file to be rewritten");

    let new_body = disk.read();
    assert!(
        new_body.contains("session = \"\""),
        "expected empty session placeholder, got:\n{new_body}"
    );
    assert!(
        new_body.contains("news.ycombinator.com"),
        "expected cookie-paste guidance, got:\n{new_body}"
    );
}

#[test]
fn backport_noops_when_session_line_already_present() {
    let mut disk = Disk::new();
    let body = "username = \"bob\"\npassword = \"pw\"\nsession = \"\"\n";
    disk.write(body);

    let auth = read_auth(&disk);
    let rewrote = backport(&mut disk, &auth);
    assert!(!rewrote, "expected already-migrated file to be left alone");

    let unchanged = disk.read();
    assert_eq!(unchanged, body);
}

#[test]
fn auth_read_tolerates_missing_session() {
    let mut disk = Disk::new();
    disk.write("username = \"bob\"\npassword = \"pw\"\n")
        ;

    let parsed = read_auth(&disk);
    assert_eq!(parsed.username, "bob");
    assert_eq!(parsed.session, None);
}

#[test]
fn auth_from_file_defaults_storage_to_file() {
    let mut disk = Disk::new();
    disk.write(
        "username = \"bob\"\npassword = \"pw\"\nsession = \"\"\n",
    )
    ;

    let parsed = read_auth(&disk);
    assert_eq!(parsed.username, "bob");
    assert_eq!(parsed.password, "pw");
    assert_eq!(parsed.session, None);
    assert_eq!(parsed.storage, AuthStorage::File);
}

#[test]
fn auth_keyring_pointer_file_round_trip() {
    let mut disk = Disk::new();

    let body = "storage = \"keyring\"\nusername = \"alice\"\n";
    disk.write(body);

    let repr = read_repr(&disk);
    let storage: AuthStorage = repr.storage.as_deref().unwrap_or("file").parse().unwrap();
    assert_eq!(storage, AuthStorage::Keyring);
    assert_eq!(repr.username, "alice");
    assert!(repr.password.is_none());
}

#[test]
fn backport_noops_for_keyring_storage_auth() {
    let mut disk = Disk::new();

    let pointer_body = "storage = \"keyring\"\nusername = \"alice\"\n";
    disk.write(pointer_body);

    let auth = Auth {
        username: "alice".to_string(),
        password: "ignored".to_string(),
        session: None,
        storage: AuthStorage::Keyring,
    };
    let rewrote = backport(&mut disk, &auth);
    assert!(
        !rewrote,
        "keyring-backed auth files should not be backported"
    );
    assert!(!should_backport(&auth, pointer_body));
    assert_eq!(disk.read(), pointer_body);
}

#[test]
fn keyring_pointer_written_by_plan_reads_as_keyring_pointer() {
    let mut disk = Disk::new();
    let auth = Auth {
        username: "carol".to_string(),
        password: "pw".to_string(),
        session: Some("carol&1".to_string()),
        storage: AuthStorage::Keyring,
    };
    disk.write(&auth.write_plan().file_body);
    let repr = read_repr(&disk);
    assert!(repr.password.is_none() && repr.session.is_none());
    match Auth::from_repr(repr).unwrap() {
        AuthSource::NeedKeyring { username } => assert_eq!(username, "carol"),
        other => panic!("expected keyring pointer, got {other:?}"),
    }
}
