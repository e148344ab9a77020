use vstd::prelude::*;
use crate::auth::AzCredentials;
use crate::client::is_missing_token;
use crate::error::{auth, AuthErrorKind, Error};
use crate::text::same_text;

verus! {

/// The name of the superuser, whose home directory is `/root`.
pub const SUPERUSER: &'static str = "root";

/// The file name of the token store inside the configuration directory.
pub const TOKEN_FILE: &'static str = "/tokens.json";

/// The home directory of `user`: `/root` for the superuser, `/home/<user>` otherwise.
pub open spec fn home_of(user: Seq<char>) -> Seq<char> {
    if user == SUPERUSER@ {
        seq!['/'] + user
    } else {
        "/home/"@ + user
    }
}

/// The configuration directory of application `app` for `user`.
pub open spec fn config_dir_of(app: Seq<char>, user: Seq<char>) -> Seq<char> {
    home_of(user) + "/.config/"@ + app
}

/// Where the credential record of a local installation is kept: a file in the
/// user's configuration directory for the application.
#[derive(Debug, Clone)]
pub struct FileTokenStore {
    /// The directory that holds the file.
    pub config_dir: String,
    /// The file.
    pub file_path: String,
}

impl FileTokenStore {
    /// The store of application `app_name` for the user named `username`.
    pub fn new(app_name: &str, username: &str) -> (r: FileTokenStore)
        ensures
            r.config_dir@ == config_dir_of(app_name@, username@),
            r.file_path@ == config_dir_of(app_name@, username@) + TOKEN_FILE@,
    {
        let mut dir = if same_text(username, SUPERUSER) {
            "/".to_owned()
        } else {
            "/home/".to_owned()
        };
        dir.append(username);
        dir.append("/.config/");
        dir.append(app_name);
        proof {
            reveal_strlit("/");
            assert("/"@ =~= seq!['/']);
        }
        let mut file_path = dir.clone();
        file_path.append(TOKEN_FILE);
        FileTokenStore { config_dir: dir, file_path }
    }
}

impl FileTokenStore {
    /// Where the store keeps its file, for people.
    pub fn describe(&self) -> (r: String)
        ensures
            r@ == "Token Secret File Located at: "@ + self.file_path@,
    {
        let mut r = "Token Secret File Located at: ".to_owned();
        r.append(self.file_path.as_str());
        r
    }
}

/// A credential store held in memory: at most one record.
#[derive(Debug, Clone)]
pub struct MemoryTokenStore {
    /// The stored record, if any.
    pub record: Option<AzCredentials>,
}

impl MemoryTokenStore {
    /// The store after `data` is written to it.
    pub open spec fn after_write(self, data: AzCredentials) -> MemoryTokenStore {
        MemoryTokenStore { record: Some(data) }
    }

    /// An empty store.
    pub fn new() -> (r: MemoryTokenStore)
        ensures
            r.record is None,
    {
        MemoryTokenStore { record: None }
    }

    /// Stores `data`, replacing any earlier record.
    pub fn write(&mut self, data: &AzCredentials) -> (r: Result<(), Error>)
        ensures
            r is Ok,
            *final(self) == old(self).after_write(*data),
    {
        self.record = Some(data.duplicate());
        Ok(())
    }

    /// The stored record, or a missing-token error when there is none.
    pub fn read(&self) -> (r: Result<AzCredentials, Error>)
        ensures
            self.record is Some ==> r == Ok::<AzCredentials, Error>(self.record->Some_0),
            self.record is None ==> r is Err && is_missing_token(r->Err_0),
    {
        match &self.record {
            Some(rec) => Ok(rec.duplicate()),
            None => Err(auth(AuthErrorKind::MissingToken, "no credentials are stored")),
        }
    }

    /// Removes the stored record.
    pub fn clear(&mut self) -> (r: Result<(), Error>)
        ensures
            r is Ok,
            final(self).record is None,
    {
        self.record = None;
        Ok(())
    }
}

/// A credential record written to the store and then read back is the same
/// record, field for field.
pub proof fn lemma_store_round_trip(store: MemoryTokenStore, data: AzCredentials)
    ensures
        store.after_write(data).record is Some,
        store.after_write(data).record->Some_0 == data,
        store.after_write(data).record->Some_0.tenant_id == data.tenant_id,
        store.after_write(data).record->Some_0.client_id == data.client_id,
        store.after_write(data).record->Some_0.client_secret == data.client_secret,
        store.after_write(data).record->Some_0.tokens == data.tokens,
{
}

} // verus!
