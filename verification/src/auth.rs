//! Hacker News credentials: where they are kept, how the auth file is
//! read and written, and how they move between storage backends.
//!
//! Reading and writing files and the OS keyring is left to the caller;
//! this module decides what is read, what is written, and in which
//! order.

use vstd::prelude::*;

use crate::pattern::{compile, is_match, regex_match, regex_valid};
use crate::text::{
    ascii_lower, clone_opt_string, lemma_ascii_lower_idempotent, opt_str_view,
    to_ascii_lowercase,
};
use crate::toml_doc::{
    entry_index, entry_string, new_document, render, rendered_from, set_key_prefix, set_string,
    toml_entries, toml_text,
};

verus! {

/// Service name of every keyring entry the application makes. Kept
/// stable so upgrades and migrations find existing items.
pub const KEYRING_SERVICE: &'static str = "hackernews-tim";

/// Where the user's credentials live: in the plaintext auth file, or in
/// the OS credential manager with the file holding only a pointer.
#[derive(Debug, Clone, Copy, PartialEq, Eq, Structural)]
pub enum AuthStorage {
    File,
    Keyring,
}

impl Default for AuthStorage {
    fn default() -> (r: Self)
        ensures
            r == AuthStorage::File,
    {
        AuthStorage::File
    }
}

/// The lower-case name of a storage backend.
pub open spec fn storage_name(s: AuthStorage) -> Seq<char> {
    match s {
        AuthStorage::File => "file"@,
        AuthStorage::Keyring => "keyring"@,
    }
}

/// The backend a name denotes, ignoring ASCII case.
pub open spec fn storage_named(s: Seq<char>) -> Option<AuthStorage> {
    if ascii_lower(s) == "file"@ {
        Some(AuthStorage::File)
    } else if ascii_lower(s) == "keyring"@ {
        Some(AuthStorage::Keyring)
    } else {
        None
    }
}

/// The message for a name that denotes no backend.
pub open spec fn unknown_storage_message(s: Seq<char>) -> Seq<char> {
    "unknown auth storage '"@ + ascii_lower(s) + "' (expected 'file' or 'keyring')"@
}

impl AuthStorage {
    /// The backend's name, as written in the auth file.
    pub fn to_string(&self) -> (s: String)
        ensures
            s@ == storage_name(*self),
    {
        match self {
            AuthStorage::File => String::from_str("file"),
            AuthStorage::Keyring => String::from_str("keyring"),
        }
    }
}

/// Parse a backend name, ignoring ASCII case.
pub fn parse_auth_storage(s: &str) -> (r: Result<AuthStorage, String>)
    ensures
        match r {
            Ok(st) => storage_named(s@) == Some(st),
            Err(m) => storage_named(s@) is None && m@ == unknown_storage_message(s@),
        },
{
    let lower = to_ascii_lowercase(s);
    if lower == String::from_str("file") {
        Ok(AuthStorage::File)
    } else if lower == String::from_str("keyring") {
        Ok(AuthStorage::Keyring)
    } else {
        let mut m = String::from_str("unknown auth storage '");
        m.append(lower.as_str());
        m.append("' (expected 'file' or 'keyring')");
        Err(m)
    }
}

impl std::str::FromStr for AuthStorage {
    type Err = String;

    /// Parse a backend name, ignoring ASCII case.
    fn from_str(s: &str) -> (r: Result<AuthStorage, String>)
        ensures
            match r {
                Ok(st) => storage_named(s@) == Some(st),
                Err(m) => storage_named(s@) is None && m@ == unknown_storage_message(s@),
            },
    {
        parse_auth_storage(s)
    }
}

/// A backend's own name parses back to it, and parsing ignores ASCII
/// case.
pub proof fn law_storage_name_round_trip(s: AuthStorage, name: Seq<char>)
    ensures
        storage_named(storage_name(s)) == Some(s),
        storage_named(ascii_lower(name)) == storage_named(name),
{
    reveal_strlit("file");
    reveal_strlit("keyring");
    assert(ascii_lower("file"@) =~= "file"@);
    assert(ascii_lower("keyring"@) =~= "keyring"@);
    lemma_ascii_lower_idempotent(name);
}

/// The keyring account that holds a user's password.
pub open spec fn password_account(username: Seq<char>) -> Seq<char> {
    username
}

/// The keyring account that holds a user's cached session cookie.
pub open spec fn session_account(username: Seq<char>) -> Seq<char> {
    username + ":session"@
}

pub fn keyring_password_account(username: &str) -> (r: String)
    ensures
        r@ == password_account(username@),
{
    String::from_str(username)
}

pub fn keyring_session_account(username: &str) -> (r: String)
    ensures
        r@ == session_account(username@),
{
    let mut r = String::from_str(username);
    r.append(":session");
    r
}

/// A user's two keyring accounts are distinct.
pub proof fn lemma_accounts_distinct(username: Seq<char>)
    ensures
        password_account(username) != session_account(username),
{
    reveal_strlit(":session");
    assert(password_account(username).len() != session_account(username).len());
}

/// Hacker News credentials.
#[derive(Debug)]
pub struct Auth {
    pub username: String,
    pub password: String,
    /// Cached session cookie (the value of HN's `user=` cookie), used to
    /// restore a session without logging in again.
    pub session: Option<String>,
    /// The backend these credentials were loaded from and are written
    /// back to.
    pub storage: AuthStorage,
}

/// Credentials as plain values.
pub struct AuthView {
    pub username: Seq<char>,
    pub password: Seq<char>,
    pub session: Option<Seq<char>>,
    pub storage: AuthStorage,
}

impl View for Auth {
    type V = AuthView;

    open spec fn view(&self) -> AuthView {
        AuthView {
            username: self.username@,
            password: self.password@,
            session: opt_str_view(self.session),
            storage: self.storage,
        }
    }
}

impl Clone for Auth {
    fn clone(&self) -> (r: Self)
        ensures
            r == *self,
    {
        Auth {
            username: self.username.clone(),
            password: self.password.clone(),
            session: clone_opt_string(&self.session),
            storage: self.storage,
        }
    }
}

/// An empty cached cookie counts as no cookie.
pub open spec fn nonempty(s: Option<Seq<char>>) -> Option<Seq<char>> {
    match s {
        Some(v) => if v.len() > 0 {
            Some(v)
        } else {
            None
        },
        None => None,
    }
}

fn nonempty_string(s: Option<String>) -> (r: Option<String>)
    ensures
        opt_str_view(r) == nonempty(opt_str_view(s)),
{
    match s {
        Some(v) => if v.as_str().unicode_len() > 0 {
            Some(v)
        } else {
            None
        },
        None => None,
    }
}

/// The fields of an auth file as written on disk. `password` and
/// `session` are present only for file storage; a keyring pointer file
/// carries `storage = "keyring"` and the username.
#[derive(Debug)]
pub struct AuthFileRepr {
    pub storage: Option<String>,
    pub username: String,
    pub password: Option<String>,
    pub session: Option<String>,
}

/// Why an auth file could not be turned into credentials.
#[derive(Debug)]
pub enum AuthError {
    UnknownStorage { text: String },
    MissingPassword,
    NoKeyringPassword { username: String },
}

impl AuthError {
    pub open spec fn message(&self) -> Seq<char> {
        match self {
            AuthError::UnknownStorage { text } => text@,
            AuthError::MissingPassword => "auth file is missing the `password` field"@,
            AuthError::NoKeyringPassword { username } => "no password found in OS keyring for user '"@
                + username@ + "' (service 'hackernews-tim')"@,
        }
    }

    pub fn to_string(&self) -> (s: String)
        ensures
            s@ == self.message(),
    {
        match self {
            AuthError::UnknownStorage { text } => String::from_str(text.as_str()),
            AuthError::MissingPassword => String::from_str("auth file is missing the `password` field"),
            AuthError::NoKeyringPassword { username } => {
                let mut s = String::from_str("no password found in OS keyring for user '");
                s.append(username.as_str());
                s.append("' (service 'hackernews-tim')");
                s
            },
        }
    }
}

/// What an auth file says, before the keyring is consulted.
pub enum Resolution {
    /// Complete credentials.
    Ready(AuthView),
    /// A keyring pointer: the secrets of this user are in the keyring.
    NeedKeyring(Seq<char>),
    /// The `storage` field names no backend; the message says so.
    UnknownStorage(Seq<char>),
    /// A file-storage auth file without a password.
    MissingPassword,
}

/// How the fields of an auth file resolve. A missing `storage` means
/// file storage, for files written before the keyring existed.
pub open spec fn resolve(
    storage: Option<Seq<char>>,
    username: Seq<char>,
    password: Option<Seq<char>>,
    session: Option<Seq<char>>,
) -> Resolution {
    let name = match storage {
        Some(s) => s,
        None => "file"@,
    };
    match storage_named(name) {
        None => Resolution::UnknownStorage(unknown_storage_message(name)),
        Some(AuthStorage::File) => match password {
            None => Resolution::MissingPassword,
            Some(p) => Resolution::Ready(
                AuthView {
                    username,
                    password: p,
                    session: nonempty(session),
                    storage: AuthStorage::File,
                },
            ),
        },
        Some(AuthStorage::Keyring) => Resolution::NeedKeyring(username),
    }
}

/// Credentials completed from the keyring's password and session
/// entries for `username`.
pub open spec fn resolve_keyring(
    username: Seq<char>,
    password: Option<Seq<char>>,
    session: Option<Seq<char>>,
) -> Option<AuthView> {
    match password {
        Some(p) => Some(
            AuthView {
                username,
                password: p,
                session: nonempty(session),
                storage: AuthStorage::Keyring,
            },
        ),
        None => None,
    }
}

/// The outcome of reading an auth file.
#[derive(Debug)]
pub enum AuthSource {
    Ready(Auth),
    /// The password and session must be fetched from the keyring for
    /// this user.
    NeedKeyring { username: String },
}

impl Auth {
    /// Interpret the fields of an auth file.
    pub fn from_repr(repr: AuthFileRepr) -> (r: Result<AuthSource, AuthError>)
        ensures
            ({
                let res = resolve(
                    opt_str_view(repr.storage),
                    repr.username@,
                    opt_str_view(repr.password),
                    opt_str_view(repr.session),
                );
                match r {
                    Ok(AuthSource::Ready(a)) => res == Resolution::Ready(a@),
                    Ok(AuthSource::NeedKeyring { username }) => res == Resolution::NeedKeyring(
                        username@,
                    ),
                    Err(AuthError::UnknownStorage { text }) => res == Resolution::UnknownStorage(
                        text@,
                    ),
                    Err(AuthError::MissingPassword) => res == Resolution::MissingPassword,
                    Err(AuthError::NoKeyringPassword { .. }) => false,
                }
            }),
    {
        let parsed = match &repr.storage {
            Some(s) => parse_auth_storage(s.as_str()),
            None => parse_auth_storage("file"),
        };
        match parsed {
            Err(text) => Err(AuthError::UnknownStorage { text }),
            Ok(AuthStorage::File) => match repr.password {
                None => Err(AuthError::MissingPassword),
                Some(password) => Ok(
                    AuthSource::Ready(
                        Auth {
                            username: repr.username,
                            password,
                            session: nonempty_string(repr.session),
                            storage: AuthStorage::File,
                        },
                    ),
                ),
            },
            Ok(AuthStorage::Keyring) => Ok(AuthSource::NeedKeyring { username: repr.username }),
        }
    }

    /// Complete keyring-backed credentials from the keyring's password and
    /// session entries; an empty session counts as none.
    pub fn from_keyring_entries(
        username: String,
        password: Option<String>,
        session: Option<String>,
    ) -> (r: Result<Auth, AuthError>)
        ensures
            match r {
                Ok(a) => resolve_keyring(username@, opt_str_view(password), opt_str_view(session))
                    == Some(a@),
                Err(e) => {
                    &&& password is None
                    &&& e matches AuthError::NoKeyringPassword { username: u }
                    &&& u@ == username@
                },
            },
    {
        match password {
            None => Err(AuthError::NoKeyringPassword { username }),
            Some(password) => Ok(
                Auth {
                    username,
                    password,
                    session: nonempty_string(session),
                    storage: AuthStorage::Keyring,
                },
            ),
        }
    }
}


/// The comment block written above the `session` line of a
/// file-storage auth file: what the value is and how to paste a browser
/// cookie when the login is stuck behind HN's CAPTCHA.
pub open spec fn session_guidance() -> Seq<char> {
    "\n# `session` is the value of Hacker News's `user=` cookie.\n# The TUI fills this in automatically after a successful\n# login so later runs can skip the `/login` POST, which HN\n# throttles with a CAPTCHA after a few attempts.\n#\n# If you get stuck at the CAPTCHA, populate it by hand:\n#   1. Sign in to https://news.ycombinator.com/ in a browser.\n#   2. Open DevTools -> Application/Storage -> Cookies ->\n#      https://news.ycombinator.com.\n#   3. Copy the value of the cookie named `user` (looks like\n#      `yourname&abcdef0123...`).\n#   4. Paste it between the quotes below.\n"@
}

/// The comment block written above the `storage` line of a keyring
/// pointer file: where the secrets are and how to switch back.
pub open spec fn keyring_guidance() -> Seq<char> {
    "# Credentials for this user are stored in the OS keyring\n# (service \"hackernews-tim\"). The password lives at\n# account = \"<username>\" and the cached session cookie at\n# account = \"<username>:session\".\n#\n# Run `hackernews_tim --migrate-auth file` to switch back to\n# plaintext-on-disk storage.\n"@
}

/// The entries of a file-storage auth file: username, password, and an
/// always-present `session` line (empty without a cached cookie) below
/// its guidance comment.
pub open spec fn file_entries(a: AuthView) -> Seq<(Seq<char>, Option<Seq<char>>, Option<Seq<char>>)> {
    seq![
        ("username"@, Some(a.username), None),
        ("password"@, Some(a.password), None),
        (
            "session"@,
            Some(
                match a.session {
                    Some(s) => s,
                    None => Seq::empty(),
                },
            ),
            Some(session_guidance()),
        ),
    ]
}

/// The entries of a keyring pointer file: the storage marker below its
/// guidance comment, and the username. No secret is written.
pub open spec fn pointer_entries(a: AuthView) -> Seq<(Seq<char>, Option<Seq<char>>, Option<Seq<char>>)> {
    seq![("storage"@, Some("keyring"@), Some(keyring_guidance())), ("username"@, Some(a.username), None)]
}

/// The keys the auth files use are distinct.
pub proof fn lemma_auth_keys_distinct()
    ensures
        "username"@ != "password"@,
        "username"@ != "session"@,
        "username"@ != "storage"@,
        "password"@ != "session"@,
        "password"@ != "storage"@,
        "session"@ != "storage"@,
{
    reveal_strlit("username");
    reveal_strlit("password");
    reveal_strlit("session");
    reveal_strlit("storage");
    assert("username"@[0] != "password"@[0]);
    assert("username"@.len() != "session"@.len());
    assert("username"@.len() != "storage"@.len());
    assert("password"@.len() != "session"@.len());
    assert("password"@.len() != "storage"@.len());
    assert("session"@[1] != "storage"@[1]);
}

/// One pending change to the OS keyring.
#[derive(Debug)]
pub enum KeyringOp {
    Store { account: String, secret: String },
    /// Remove an entry; a missing entry is not an error.
    Delete { account: String },
}

pub enum KeyringOpView {
    Store(Seq<char>, Seq<char>),
    Delete(Seq<char>),
}

impl View for KeyringOp {
    type V = KeyringOpView;

    open spec fn view(&self) -> KeyringOpView {
        match self {
            KeyringOp::Store { account, secret } => KeyringOpView::Store(account@, secret@),
            KeyringOp::Delete { account } => KeyringOpView::Delete(account@),
        }
    }
}

pub open spec fn op_views(ops: Seq<KeyringOp>) -> Seq<KeyringOpView> {
    ops.map_values(|o: KeyringOp| o@)
}

/// The keyring changes that persisting `a` makes: none for file storage;
/// for keyring storage the password, then the session cookie, or the
/// removal of a stale one when there is no cookie.
pub open spec fn keyring_ops_for(a: AuthView) -> Seq<KeyringOpView> {
    match a.storage {
        AuthStorage::File => Seq::empty(),
        AuthStorage::Keyring => seq![
            KeyringOpView::Store(password_account(a.username), a.password),
            match nonempty(a.session) {
                Some(s) => KeyringOpView::Store(session_account(a.username), s),
                None => KeyringOpView::Delete(session_account(a.username)),
            },
        ],
    }
}

/// The entries of the file that persisting `a` writes.
pub open spec fn written_entries(a: AuthView) -> Seq<(Seq<char>, Option<Seq<char>>, Option<Seq<char>>)> {
    match a.storage {
        AuthStorage::File => file_entries(a),
        AuthStorage::Keyring => pointer_entries(a),
    }
}

impl Clone for KeyringOp {
    fn clone(&self) -> (r: Self)
        ensures
            r == *self,
    {
        match self {
            KeyringOp::Store { account, secret } => KeyringOp::Store {
                account: account.clone(),
                secret: secret.clone(),
            },
            KeyringOp::Delete { account } => KeyringOp::Delete { account: account.clone() },
        }
    }
}

/// What persisting credentials does: first the keyring changes, in
/// order, then the auth file is written with `file_body`. Doing the
/// keyring first means a crash part-way leaves the previous file valid.
#[derive(Debug)]
pub struct AuthWritePlan {
    pub keyring_ops: Vec<KeyringOp>,
    pub file_body: String,
}

/// One step of persisting credentials, to be carried out in order.
#[derive(Debug)]
pub enum WriteStep {
    Keyring(KeyringOp),
    /// Write the auth file with this body.
    File(String),
}

pub enum WriteStepView {
    Keyring(KeyringOpView),
    File(Seq<char>),
}

impl View for WriteStep {
    type V = WriteStepView;

    open spec fn view(&self) -> WriteStepView {
        match self {
            WriteStep::Keyring(op) => WriteStepView::Keyring(op@),
            WriteStep::File(body) => WriteStepView::File(body@),
        }
    }
}

pub open spec fn step_views(steps: Seq<WriteStep>) -> Seq<WriteStepView> {
    steps.map_values(|s: WriteStep| s@)
}

/// The steps of a plan: every keyring change, in order, then the file.
pub open spec fn plan_steps(ops: Seq<KeyringOpView>, body: Seq<char>) -> Seq<WriteStepView> {
    ops.map_values(|o: KeyringOpView| WriteStepView::Keyring(o)).push(WriteStepView::File(body))
}

impl AuthWritePlan {
    /// The plan as the ordered steps the caller carries out.
    pub fn steps(&self) -> (s: Vec<WriteStep>)
        ensures
            step_views(s@) == plan_steps(op_views(self.keyring_ops@), self.file_body@),
    {
        let mut s: Vec<WriteStep> = Vec::new();
        let ghost target = plan_steps(op_views(self.keyring_ops@), self.file_body@);
        let mut i: usize = 0;
        while i < self.keyring_ops.len()
            invariant
                i <= self.keyring_ops@.len(),
                target == plan_steps(op_views(self.keyring_ops@), self.file_body@),
                step_views(s@) == target.take(i as int),
            decreases self.keyring_ops@.len() - i,
        {
            let op = self.keyring_ops[i].clone();
            assert(target[i as int] == WriteStepView::Keyring(self.keyring_ops@[i as int]@));
            let ghost before = step_views(s@);
            let step = WriteStep::Keyring(op);
            assert(step@ == target[i as int]);
            s.push(step);
            assert(step_views(s@) =~= before.push(target[i as int]));
            assert(target.take(i + 1) =~= target.take(i as int).push(target[i as int]));
            i = i + 1;
        }
        let ghost before = step_views(s@);
        let last = WriteStep::File(self.file_body.clone());
        assert(last@ == WriteStepView::File(self.file_body@));
        s.push(last);
        assert(step_views(s@) =~= before.push(WriteStepView::File(self.file_body@)));
        assert(target =~= target.take(self.keyring_ops@.len() as int).push(
            WriteStepView::File(self.file_body@),
        ));
        s
    }
}

/// The auth file is written last: every step before the last is a keyring
/// change, so if persisting stops after any proper prefix of the steps,
/// the file has not been touched yet and the previous file is still the
/// one on disk.
pub proof fn law_file_written_last(ops: Seq<KeyringOpView>, body: Seq<char>)
    ensures
        plan_steps(ops, body).len() == ops.len() + 1,
        plan_steps(ops, body).last() == WriteStepView::File(body),
        forall|j: int|
            0 <= j < ops.len() ==> (#[trigger] plan_steps(ops, body)[j]) == WriteStepView::Keyring(
                ops[j],
            ),
{
}

impl Auth {
    /// The annotated TOML of a file-storage auth file.
    pub fn to_annotated_file_toml(&self) -> (s: String)
        ensures
            rendered_from(s@, file_entries(self@)),
    {
        proof { lemma_auth_keys_distinct(); }
        let mut doc = new_document();
        set_string(&mut doc, "username", self.username.as_str());
        set_string(&mut doc, "password", self.password.as_str());
        let session: &str = match &self.session {
            Some(s) => s.as_str(),
            None => "",
        };
        proof { reveal_strlit(""); }
        assert(session@ == (match self@.session { Some(s) => s, None => Seq::<char>::empty() }));
        set_string(&mut doc, "session", session);
        let ghost e3 = toml_entries(doc);
        assert(e3[2].0 == "session"@);
        assert(entry_index(e3, "session"@) == Some(2int));
        set_key_prefix(
            &mut doc,
            "session",
            "\n# `session` is the value of Hacker News's `user=` cookie.\n# The TUI fills this in automatically after a successful\n# login so later runs can skip the `/login` POST, which HN\n# throttles with a CAPTCHA after a few attempts.\n#\n# If you get stuck at the CAPTCHA, populate it by hand:\n#   1. Sign in to https://news.ycombinator.com/ in a browser.\n#   2. Open DevTools -> Application/Storage -> Cookies ->\n#      https://news.ycombinator.com.\n#   3. Copy the value of the cookie named `user` (looks like\n#      `yourname&abcdef0123...`).\n#   4. Paste it between the quotes below.\n",
        );
        assert(toml_entries(doc) =~= file_entries(self@));
        let s = render(&doc);
        assert(toml_entries(doc) == file_entries(self@) && toml_text(doc) == s@);
        s
    }

    /// The annotated TOML of a keyring pointer file.
    pub fn to_annotated_keyring_toml(&self) -> (s: String)
        ensures
            rendered_from(s@, pointer_entries(self@)),
    {
        proof { lemma_auth_keys_distinct(); }
        let mut doc = new_document();
        set_string(&mut doc, "storage", "keyring");
        set_string(&mut doc, "username", self.username.as_str());
        let ghost e2 = toml_entries(doc);
        assert(e2[0].0 == "storage"@);
        assert(entry_index(e2, "storage"@) == Some(0int));
        set_key_prefix(
            &mut doc,
            "storage",
            "# Credentials for this user are stored in the OS keyring\n# (service \"hackernews-tim\"). The password lives at\n# account = \"<username>\" and the cached session cookie at\n# account = \"<username>:session\".\n#\n# Run `hackernews_tim --migrate-auth file` to switch back to\n# plaintext-on-disk storage.\n",
        );
        assert(toml_entries(doc) =~= pointer_entries(self@));
        let s = render(&doc);
        assert(toml_entries(doc) == pointer_entries(self@) && toml_text(doc) == s@);
        s
    }
}


impl Auth {
    /// How to persist these credentials through the backend named by
    /// `storage`: keyring changes first, then the file body.
    pub fn write_plan(&self) -> (p: AuthWritePlan)
        ensures
            op_views(p.keyring_ops@) == keyring_ops_for(self@),
            rendered_from(p.file_body@, written_entries(self@)),
    {
        let mut ops: Vec<KeyringOp> = Vec::new();
        match self.storage {
            AuthStorage::File => {
                let body = self.to_annotated_file_toml();
                assert(op_views(ops@) =~= keyring_ops_for(self@));
                AuthWritePlan { keyring_ops: ops, file_body: body }
            },
            AuthStorage::Keyring => {
                ops.push(
                    KeyringOp::Store {
                        account: keyring_password_account(self.username.as_str()),
                        secret: self.password.clone(),
                    },
                );
                let session = nonempty_string(clone_opt_string(&self.session));
                match session {
                    Some(s) => ops.push(
                        KeyringOp::Store {
                            account: keyring_session_account(self.username.as_str()),
                            secret: s,
                        },
                    ),
                    None => ops.push(
                        KeyringOp::Delete {
                            account: keyring_session_account(self.username.as_str()),
                        },
                    ),
                }
                assert(op_views(ops@) =~= keyring_ops_for(self@));
                let body = self.to_annotated_keyring_toml();
                AuthWritePlan { keyring_ops: ops, file_body: body }
            },
        }
    }
}

/// The result of a migration, for the message the command line prints.
#[derive(Debug, Clone, Copy, PartialEq, Eq, Structural)]
pub enum MigrationOutcome {
    NoOp { storage: AuthStorage },
    Migrated { from: AuthStorage, to: AuthStorage },
}

/// Moving credentials to another backend: write them through the new
/// backend (`write`), then apply `cleanup` to the keyring.
#[derive(Debug)]
pub struct MigrationPlan {
    pub outcome: MigrationOutcome,
    pub write: Option<AuthWritePlan>,
    pub cleanup: Vec<KeyringOp>,
}

/// The credentials after their backend is switched to `target`.
pub open spec fn with_storage(a: AuthView, target: AuthStorage) -> AuthView {
    AuthView { storage: target, ..a }
}

/// Keyring entries left behind when credentials leave the keyring.
pub open spec fn cleanup_for(a: AuthView, target: AuthStorage) -> Seq<KeyringOpView> {
    if a.storage == AuthStorage::Keyring && target != AuthStorage::Keyring {
        seq![
            KeyringOpView::Delete(password_account(a.username)),
            KeyringOpView::Delete(session_account(a.username)),
        ]
    } else {
        Seq::empty()
    }
}

/// Plan the move of `auth` to `target`. Nothing is done when the
/// credentials already use `target`; otherwise they are persisted through
/// `target` and, when they leave the keyring, both of the user's keyring
/// entries are removed so a later migration cannot pick up stale data.
pub fn plan_migration(auth: &Auth, target: AuthStorage) -> (p: MigrationPlan)
    ensures
        auth.storage == target ==> {
            &&& p.outcome == (MigrationOutcome::NoOp { storage: target })
            &&& p.write is None
            &&& p.cleanup@.len() == 0
        },
        auth.storage != target ==> {
            &&& p.outcome == (MigrationOutcome::Migrated { from: auth.storage, to: target })
            &&& p.write matches Some(w) && op_views(w.keyring_ops@) == keyring_ops_for(
                with_storage(auth@, target),
            ) && rendered_from(w.file_body@, written_entries(with_storage(auth@, target)))
            &&& op_views(p.cleanup@) == cleanup_for(auth@, target)
        },
{
    let from = auth.storage;
    if from == target {
        return MigrationPlan {
            outcome: MigrationOutcome::NoOp { storage: target },
            write: None,
            cleanup: Vec::new(),
        };
    }
    let moved = Auth {
        username: auth.username.clone(),
        password: auth.password.clone(),
        session: clone_opt_string(&auth.session),
        storage: target,
    };
    assert(moved@ == with_storage(auth@, target));
    let write = moved.write_plan();
    let mut cleanup: Vec<KeyringOp> = Vec::new();
    if from == AuthStorage::Keyring {
        cleanup.push(
            KeyringOp::Delete { account: keyring_password_account(auth.username.as_str()) },
        );
        cleanup.push(KeyringOp::Delete { account: keyring_session_account(auth.username.as_str()) });
    }
    assert(op_views(cleanup@) =~= cleanup_for(auth@, target));
    MigrationPlan {
        outcome: MigrationOutcome::Migrated { from, to: target },
        write: Some(write),
        cleanup,
    }
}

/// The pattern of a `session = ...` line anywhere in a file.
pub open spec fn session_line_pattern() -> Seq<char> {
    "(?m)^\\s*session\\s*="@
}

/// Whether `text` holds a `session =` line (any value, even empty).
pub open spec fn has_session_line_spec(text: Seq<char>) -> bool {
    regex_valid(session_line_pattern()) && regex_match(session_line_pattern(), text)
}

/// The session-line check is the multi-line regex `^\s*session\s*=`: a
/// line that starts, after optional white space, with `session` and then
/// `=`, wherever the line stands in the file and whatever the line before
/// it holds. Nothing else in the file is looked at.
pub proof fn law_session_line_is_anchored_pattern(text: Seq<char>)
    ensures
        has_session_line_spec(text) == (regex_valid("(?m)^\\s*session\\s*="@) && regex_match(
            "(?m)^\\s*session\\s*="@,
            text,
        )),
{
}

pub fn has_session_line(text: &str) -> (b: bool)
    ensures
        b == has_session_line_spec(text@),
{
    match compile("(?m)^\\s*session\\s*=") {
        Some(p) => is_match(&p, text),
        None => false,
    }
}

/// Whether an auth file with body `existing` should be rewritten in the
/// current annotated format. Only a file-storage file that has never had
/// a `session` line is upgraded: any `session =` line, even a blank or
/// hand-edited one, is left alone, and keyring pointer files never carry
/// the field.
pub fn should_backport(auth: &Auth, existing: &str) -> (b: bool)
    ensures
        b == (auth.storage == AuthStorage::File && !has_session_line_spec(existing@)),
{
    match auth.storage {
        AuthStorage::Keyring => false,
        AuthStorage::File => backport_decision(auth.storage, has_session_line(existing)),
    }
}

/// The backport decision given whether the file already has a `session`
/// line: only a file-storage file without one is rewritten.
pub fn backport_decision(storage: AuthStorage, has_session_line: bool) -> (b: bool)
    ensures
        b == (storage == AuthStorage::File && !has_session_line),
{
    match storage {
        AuthStorage::Keyring => false,
        AuthStorage::File => !has_session_line,
    }
}


/// The keyring after one change.
pub open spec fn apply_op(store: Map<Seq<char>, Seq<char>>, op: KeyringOpView) -> Map<Seq<char>, Seq<char>> {
    match op {
        KeyringOpView::Store(account, secret) => store.insert(account, secret),
        KeyringOpView::Delete(account) => store.remove(account),
    }
}

/// The keyring after a sequence of changes, applied in order.
pub open spec fn apply_ops(store: Map<Seq<char>, Seq<char>>, ops: Seq<KeyringOpView>) -> Map<Seq<char>, Seq<char>>
    decreases ops.len(),
{
    if ops.len() == 0 {
        store
    } else {
        apply_ops(apply_op(store, ops[0]), ops.drop_first())
    }
}

/// What the keyring holds for `account`.
pub open spec fn keyring_get(store: Map<Seq<char>, Seq<char>>, account: Seq<char>) -> Option<Seq<char>> {
    if store.contains_key(account) {
        Some(store[account])
    } else {
        None
    }
}

/// Credentials as they read back: an empty cached cookie is no cookie.
pub open spec fn normalized(a: AuthView) -> AuthView {
    AuthView { session: nonempty(a.session), ..a }
}

proof fn lemma_two_ops(store: Map<Seq<char>, Seq<char>>, x: KeyringOpView, y: KeyringOpView)
    ensures
        apply_ops(store, seq![x, y]) == apply_op(apply_op(store, x), y),
{
    let ops = seq![x, y];
    let s1 = apply_op(store, x);
    let s2 = apply_op(s1, y);
    assert(ops.drop_first() =~= seq![y]);
    assert(seq![y].drop_first() =~= Seq::<KeyringOpView>::empty());
    assert(apply_ops(s2, Seq::<KeyringOpView>::empty()) == s2);
    assert(apply_ops(s1, seq![y]) == apply_ops(s2, seq![y].drop_first()));
    assert(apply_ops(store, ops) == apply_ops(s1, ops.drop_first()));
}

/// Reading a file-storage auth file gives back the credentials it was
/// written from: the file declares no `storage` (so it reads as file
/// storage) and carries the username, password and cookie.
pub proof fn law_file_auth_round_trip(a: AuthView)
    requires
        a.storage == AuthStorage::File,
    ensures
        entry_string(file_entries(a), "storage"@) is None,
        entry_string(file_entries(a), "username"@) == Some(a.username),
        resolve(
            entry_string(file_entries(a), "storage"@),
            a.username,
            entry_string(file_entries(a), "password"@),
            entry_string(file_entries(a), "session"@),
        ) == Resolution::Ready(normalized(a)),
{
    lemma_auth_keys_distinct();
    law_storage_name_round_trip(AuthStorage::File, Seq::empty());
    let e = file_entries(a);
    assert(e[0].0 == "username"@ && e[1].0 == "password"@ && e[2].0 == "session"@);
    assert(entry_index(e, "username"@) == Some(0int));
    assert(entry_index(e, "password"@) == Some(1int));
    assert(entry_index(e, "session"@) == Some(2int));
    assert(entry_index(e, "storage"@) is None);
}

/// A keyring pointer file holds no secret; reading it asks for the
/// keyring, and what persisting put into the keyring completes the same
/// credentials.
pub proof fn law_keyring_auth_round_trip(a: AuthView, store: Map<Seq<char>, Seq<char>>)
    requires
        a.storage == AuthStorage::Keyring,
    ensures
        entry_string(pointer_entries(a), "password"@) is None,
        entry_string(pointer_entries(a), "session"@) is None,
        entry_string(pointer_entries(a), "username"@) == Some(a.username),
        resolve(
            entry_string(pointer_entries(a), "storage"@),
            a.username,
            entry_string(pointer_entries(a), "password"@),
            entry_string(pointer_entries(a), "session"@),
        ) == Resolution::NeedKeyring(a.username),
        resolve_keyring(
            a.username,
            keyring_get(apply_ops(store, keyring_ops_for(a)), password_account(a.username)),
            keyring_get(apply_ops(store, keyring_ops_for(a)), session_account(a.username)),
        ) == Some(normalized(a)),
{
    lemma_auth_keys_distinct();
    lemma_accounts_distinct(a.username);
    law_storage_name_round_trip(AuthStorage::Keyring, Seq::empty());
    let e = pointer_entries(a);
    assert(e[0].0 == "storage"@ && e[1].0 == "username"@);
    assert(entry_index(e, "storage"@) == Some(0int));
    assert(entry_index(e, "username"@) == Some(1int));
    assert(entry_index(e, "password"@) is None);
    assert(entry_index(e, "session"@) is None);
    let ops = keyring_ops_for(a);
    lemma_two_ops(store, ops[0], ops[1]);
    assert(ops =~= seq![ops[0], ops[1]]);
}

/// Moving credentials out of the keyring leaves neither of the user's
/// keyring entries behind.
pub proof fn law_leaving_keyring_clears_it(a: AuthView, target: AuthStorage, store: Map<Seq<char>, Seq<char>>)
    requires
        a.storage == AuthStorage::Keyring,
        target == AuthStorage::File,
    ensures
        !apply_ops(
            apply_ops(store, keyring_ops_for(with_storage(a, target))),
            cleanup_for(a, target),
        ).contains_key(password_account(a.username)),
        !apply_ops(
            apply_ops(store, keyring_ops_for(with_storage(a, target))),
            cleanup_for(a, target),
        ).contains_key(session_account(a.username)),
{
    let s1 = apply_ops(store, keyring_ops_for(with_storage(a, target)));
    assert(s1 == store);
    let c = cleanup_for(a, target);
    lemma_two_ops(s1, c[0], c[1]);
    assert(c =~= seq![c[0], c[1]]);
}

/// Migrating file storage to the keyring and back gives the same
/// credentials, and leaves nothing of them in the keyring.
pub proof fn law_migration_round_trip(a: AuthView, store: Map<Seq<char>, Seq<char>>)
    requires
        a.storage == AuthStorage::File,
    ensures
        ({
            let k = with_storage(a, AuthStorage::Keyring);
            let store1 = apply_ops(store, keyring_ops_for(k));
            let back = resolve_keyring(
                a.username,
                keyring_get(store1, password_account(a.username)),
                keyring_get(store1, session_account(a.username)),
            );
            &&& back == Some(with_storage(normalized(a), AuthStorage::Keyring))
            &&& resolve(
                entry_string(file_entries(with_storage(back->0, AuthStorage::File)), "storage"@),
                a.username,
                entry_string(file_entries(with_storage(back->0, AuthStorage::File)), "password"@),
                entry_string(file_entries(with_storage(back->0, AuthStorage::File)), "session"@),
            ) == Resolution::Ready(normalized(a))
            &&& !apply_ops(
                apply_ops(store1, keyring_ops_for(with_storage(back->0, AuthStorage::File))),
                cleanup_for(back->0, AuthStorage::File),
            ).contains_key(password_account(a.username))
            &&& !apply_ops(
                apply_ops(store1, keyring_ops_for(with_storage(back->0, AuthStorage::File))),
                cleanup_for(back->0, AuthStorage::File),
            ).contains_key(session_account(a.username))
        }),
{
    let k = with_storage(a, AuthStorage::Keyring);
    law_keyring_auth_round_trip(k, store);
    let store1 = apply_ops(store, keyring_ops_for(k));
    let back = with_storage(normalized(a), AuthStorage::Keyring);
    law_file_auth_round_trip(with_storage(back, AuthStorage::File));
    assert(nonempty(nonempty(a.session)) == nonempty(a.session));
    assert(normalized(with_storage(back, AuthStorage::File)) == normalized(a));
    law_leaving_keyring_clears_it(back, AuthStorage::File, store1);
}

} // verus!
