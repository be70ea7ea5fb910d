//! Where saved sessions live: `<data dir>/<app name>/users/<user name>/session.json`.

use vstd::prelude::*;
use std::path::PathBuf;
use crate::types::LastFmError;

verus! {

broadcast use vstd::string::group_string_axioms;

#[verifier::external_type_specification]
#[verifier::external_body]
pub struct ExPathBuf(std::path::PathBuf);

/// Calls `dirs::data_dir`, the user's data directory, which the environment decides; nothing is
/// promised of it.
#[verifier::external_body]
fn data_dir() -> (res: Option<PathBuf>) {
    dirs::data_dir()
}

/// What `Path::join` gives for a base path and a component: a function of the two alone.
pub uninterp spec fn joined(base: PathBuf, part: Seq<char>) -> PathBuf;

/// Calls `Path::join`, which appends `part` to `base` with the platform's separator (or, for an
/// absolute `part`, gives `part`); the contract names the result, which depends on the two
/// arguments alone.
#[verifier::external_body]
fn path_join(base: &PathBuf, part: &str) -> (res: PathBuf)
    ensures
        res == joined(*base, part@),
{
    base.join(part)
}

/// `base` with each of `parts` joined onto it, in order.
pub open spec fn joined_all(base: PathBuf, parts: Seq<Seq<char>>) -> PathBuf
    decreases parts.len(),
{
    if parts.len() == 0 {
        base
    } else {
        joined(joined_all(base, parts.drop_last()), parts.last())
    }
}

/// The components of a user's session file below the data directory.
pub open spec fn session_file_parts(app_name: Seq<char>, username: Seq<char>) -> Seq<Seq<char>> {
    seq![app_name, "users"@, username, "session.json"@]
}

/// The components of the users' directory below the data directory.
pub open spec fn users_dir_parts(app_name: Seq<char>) -> Seq<Seq<char>> {
    seq![app_name, "users"@]
}

/// Saves, finds and removes the sessions of one application.
#[derive(Debug, Clone)]
pub struct SessionManager {
    pub app_name: String,
}

/// The message when the data directory is unknown.
pub open spec fn no_data_dir_text() -> Seq<char> {
    "Cannot determine XDG data directory"@
}

impl SessionManager {
    /// The sessions of the application named `app_name`.
    pub fn new(app_name: &str) -> (res: Self)
        ensures
            res.app_name@ == app_name@,
    {
        SessionManager { app_name: String::from_str(app_name) }
    }

    /// The application's name.
    pub fn app_name(&self) -> (res: &str)
        ensures
            res@ == self.app_name@,
    {
        self.app_name.as_str()
    }

    /// The path of a user's session below the data directory, component by component.
    pub fn session_path_components(&self, username: &str) -> (res: Vec<String>)
        ensures
            res.deep_view() == session_file_parts(self.app_name@, username@),
    {
        let mut v: Vec<String> = Vec::new();
        v.push(self.app_name.clone());
        v.push(String::from_str("users"));
        v.push(String::from_str(username));
        v.push(String::from_str("session.json"));
        assert(v.deep_view() =~= seq![self.app_name@, "users"@, username@, "session.json"@]);
        v
    }

    /// The directory that holds the users' sessions below the data directory `data_dir`:
    /// `<data_dir>/<app name>/users` when a data directory is known, the error naming its
    /// absence otherwise.
    pub fn users_dir_under(&self, data_dir: Option<PathBuf>) -> (res: Result<PathBuf, LastFmError>)
        ensures
            res is Ok <==> data_dir is Some,
            data_dir matches Some(d) ==> (res matches Ok(p) && p == joined_all(d, users_dir_parts(self.app_name@))),
            res matches Err(e) ==> (e matches LastFmError::Http(m) && m@ == no_data_dir_text()),
    {
        match data_dir {
            Some(d) => {
                let app = path_join(&d, self.app_name.as_str());
                let users = path_join(&app, "users");
                proof {
                    let parts = users_dir_parts(self.app_name@);
                    assert(parts.drop_last() =~= seq![self.app_name@]);
                    assert(parts.drop_last().drop_last() =~= Seq::<Seq<char>>::empty());
                    assert(joined_all(d, parts.drop_last().drop_last()) == d);
                    assert(parts.drop_last().last() == self.app_name@);
                    assert(joined_all(d, parts.drop_last()) == app);
                }
                Ok(users)
            },
            None => Err(LastFmError::Http(String::from_str("Cannot determine XDG data directory"))),
        }
    }

    /// The directory that holds the users' sessions, `<data dir>/<app name>/users`, below the
    /// user's data directory, which the environment decides: whether it is known is not stated
    /// here (see `users_dir_under`).
    pub fn users_dir(&self) -> (res: Result<PathBuf, LastFmError>)
        ensures
            res matches Ok(p) ==> exists|d: PathBuf| p == #[trigger] joined_all(d, users_dir_parts(self.app_name@)),
            res matches Err(e) ==> (e matches LastFmError::Http(m) && m@ == no_data_dir_text()),
    {
        let dir = data_dir();
        let ghost known = dir;
        let res = self.users_dir_under(dir);
        proof {
            if let Some(d) = known {
                assert(res matches Ok(p) && p == joined_all(d, users_dir_parts(self.app_name@)));
            }
        }
        res
    }

    /// The path of a user's session file below the data directory `data_dir`:
    /// `<data_dir>/<app name>/users/<username>/session.json`, the components of
    /// `session_path_components` joined onto it; `Ok` exactly when a data directory is known.
    pub fn session_path_under(&self, data_dir: Option<PathBuf>, username: &str) -> (res: Result<PathBuf, LastFmError>)
        ensures
            res is Ok <==> data_dir is Some,
            data_dir matches Some(d) ==> (res matches Ok(p) && p == joined_all(d, session_file_parts(self.app_name@, username@))),
            res matches Err(e) ==> (e matches LastFmError::Http(m) && m@ == no_data_dir_text()),
    {
        match data_dir {
            Some(d) => {
                let parts = self.session_path_components(username);
                let ghost pv = parts.deep_view();
                let ghost d0 = d;
                let mut p = d;
                let mut i: usize = 0;
                assert(pv.take(0) =~= Seq::<Seq<char>>::empty());
                while i < parts.len()
                    invariant
                        i <= parts@.len(),
                        pv == parts.deep_view(),
                        p == joined_all(d0, pv.take(i as int)),
                    decreases parts.len() - i,
                {
                    p = path_join(&p, parts[i].as_str());
                    assert(pv.take(i + 1).drop_last() =~= pv.take(i as int));
                    assert(pv.take(i + 1).last() == pv[i as int]);
                    i = i + 1;
                }
                assert(pv.take(i as int) =~= pv);
                Ok(p)
            },
            None => Err(LastFmError::Http(String::from_str("Cannot determine XDG data directory"))),
        }
    }

    /// The path of a user's session file, `<data dir>/<app name>/users/<username>/session.json`,
    /// below the user's data directory, which the environment decides: whether it is known is
    /// not stated here (see `session_path_under`).
    pub fn get_session_path(&self, username: &str) -> (res: Result<PathBuf, LastFmError>)
        ensures
            res matches Ok(p) ==> exists|d: PathBuf| p == #[trigger] joined_all(d, session_file_parts(self.app_name@, username@)),
            res matches Err(e) ==> (e matches LastFmError::Http(m) && m@ == no_data_dir_text()),
    {
        let dir = data_dir();
        let ghost known = dir;
        let res = self.session_path_under(dir, username);
        proof {
            if let Some(d) = known {
                assert(res matches Ok(p) && p == joined_all(d, session_file_parts(self.app_name@, username@)));
            }
        }
        res
    }
}

/// The sessions of this tool, kept under the name `lastfm-edit`.
#[derive(Debug, Clone, Copy)]
pub struct SessionPersistence;

impl SessionPersistence {
    /// The manager of this tool's sessions.
    pub fn default_manager() -> (res: SessionManager)
        ensures
            res.app_name@ == "lastfm-edit"@,
    {
        SessionManager::new("lastfm-edit")
    }

    /// The path of a user's session file for this tool,
    /// `<data dir>/lastfm-edit/users/<username>/session.json`.
    pub fn get_session_path(username: &str) -> (res: Result<PathBuf, LastFmError>)
        ensures
            res matches Ok(p) ==> exists|d: PathBuf| p == #[trigger] joined_all(d, session_file_parts("lastfm-edit"@, username@)),
            res matches Err(e) ==> (e matches LastFmError::Http(m) && m@ == no_data_dir_text()),
    {
        Self::default_manager().get_session_path(username)
    }
}

} // verus!
