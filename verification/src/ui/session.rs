use vstd::prelude::*;

use crate::ui::user::ExportUser;
use crate::utils::paths::{join, spec_join};

verus! {

/// Keyring entry prefix for a database key
pub const DB_PASSPHRASE_KEY: &'static str = "db_passphrase";

/// Keyring entry prefix for an access token
pub const ACCESS_TOKEN_KEY: &'static str = "access_token";

/// Whether `c` is an ASCII letter or digit.
pub open spec fn is_alphanumeric(c: char) -> bool {
    ('a' <= c && c <= 'z') || ('A' <= c && c <= 'Z') || ('0' <= c && c <= '9')
}

/// Whether `s` is `len` ASCII letters and digits.
pub open spec fn is_alphanumeric_of_len(s: Seq<char>, len: nat) -> bool {
    s.len() == len && forall|i: int| 0 <= i < s.len() ==> is_alphanumeric(#[trigger] s[i])
}

/// A random string of `len` ASCII letters and digits.
///
/// Draws from `rand::rng()` with `rand::distr::Alphanumeric`, which the crate documents as
/// uniform over `a-z`, `A-Z` and `0-9`. Claimed: the length and the alphabet; the letters
/// themselves are chance.
#[verifier::external_body]
fn random_alphanumeric(len: usize) -> (s: String)
    ensures
        is_alphanumeric_of_len(s@, len as nat),
{
    rand::Rng::sample_iter(rand::rng(), rand::distr::Alphanumeric).take(len).map(char::from).collect()
}

/// The name of a user's keyring entry for a secret: `{key}:{userid}`.
pub open spec fn spec_entry_name(key: Seq<char>, userid: Seq<char>) -> Seq<char> {
    key + ":"@ + userid
}

/// The name of the keyring entry that holds the secret `key` of `userid`.
pub fn keyring_entry_name(key: &str, userid: &str) -> (name: String)
    ensures
        name@ == spec_entry_name(key@, userid@),
{
    let mut name = String::from_str(key);
    name.append(":");
    name.append(userid);
    name
}

/// A fresh passphrase for the session's database: 32 random letters and digits.
pub fn generate_db_passphrase() -> (passphrase: String)
    ensures
        is_alphanumeric_of_len(passphrase@, 32),
{
    random_alphanumeric(32)
}

/// Errors in building a session.
#[derive(Debug, Clone, Copy, PartialEq, Eq, Structural)]
pub enum SessionError {
    /// The user ID does not parse.
    InvalidUserId,
}

/// Data needed to rebuild the client
#[derive(Clone, Debug)]
pub struct ClientSession {
    pub homeserver: String,
    pub db_path: String,
}

/// The data to build a client for `user`, whose user ID names the homeserver
/// `server_name` (none when the user ID does not parse). The database goes into a new
/// directory of 7 random letters and digits under the user's data directory.
pub fn build_client_session(user: &ExportUser, server_name: Option<String>) -> (r: Result<
    ClientSession,
    SessionError,
>)
    ensures
        match server_name {
            Some(server) => r matches Ok(session) && session.homeserver@ == server@ && exists|
                subdir: Seq<char>,
            |
                #![trigger spec_join(user@.data_dir, subdir)]
                is_alphanumeric_of_len(subdir, 7) && session.db_path@ == spec_join(
                    user@.data_dir,
                    subdir,
                ),
            None => r == Err::<ClientSession, SessionError>(SessionError::InvalidUserId),
        },
{
    let db_subdir = random_alphanumeric(7);
    let db_path = join(user.data_dir().as_str(), db_subdir.as_str());
    match server_name {
        Some(homeserver) => Ok(ClientSession { homeserver, db_path }),
        None => Err(SessionError::InvalidUserId),
    }
}

} // verus!
