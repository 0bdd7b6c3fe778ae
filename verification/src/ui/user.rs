use vstd::prelude::*;

use crate::ui::APP_ID;
use crate::utils::paths::{join, spec_join};

verus! {

/// Empties a string after overwriting its bytes with zeroes.
///
/// Calls `zeroize::Zeroize::zeroize` on the `String`, which zeroes the bytes and the spare
/// capacity of the underlying vector and then clears it. Claimed: the string is empty
/// afterwards.
#[verifier::external_body]
fn zeroize_string(s: &mut String)
    ensures
        final(s)@ == Seq::<char>::empty(),
{
    zeroize::Zeroize::zeroize(s)
}

/// Trait for any type which can represent a user
pub trait ValidUser {
    fn set_username(&mut self, username: String);

    fn set_password(&mut self, password: String);
}

/// Plain view of an [`ExportUser`].
pub struct ExportUserView {
    pub userid: Seq<char>,
    pub password: Seq<char>,
    pub data_dir: Seq<char>,
    pub session_file: Seq<char>,
}

/// The logged-in (or logging-in) user: credentials, and where the session is kept.
#[derive(Clone, Debug)]
pub struct ExportUser {
    userid: String,
    password: String,
    data_dir: String,
    session_file: String,
}

impl View for ExportUser {
    type V = ExportUserView;

    closed spec fn view(&self) -> ExportUserView {
        ExportUserView {
            userid: self.userid@,
            password: self.password@,
            data_dir: self.data_dir@,
            session_file: self.session_file@,
        }
    }
}

/// The directory of saved sessions under the platform's data directory `base`.
pub open spec fn spec_sessions_dir(base: Seq<char>) -> Seq<char> {
    spec_join(spec_join(base, APP_ID@), "sessions"@)
}

impl ExportUser {
    /// A user without credentials, whose sessions are kept under the platform's data
    /// directory `base`.
    pub fn new(base: &str) -> (user: Self)
        ensures
            user@ == (ExportUserView {
                userid: Seq::empty(),
                password: Seq::empty(),
                data_dir: spec_sessions_dir(base@),
                session_file: spec_join(spec_sessions_dir(base@), "user.session"@),
            }),
    {
        let app_dir = join(base, APP_ID);
        let data_dir = join(app_dir.as_str(), "sessions");
        let session_file = join(data_dir.as_str(), "user.session");
        ExportUser { userid: String::new(), password: String::new(), data_dir, session_file }
    }

    pub fn userid(&self) -> (id: &String)
        ensures
            id@ == self@.userid,
    {
        &self.userid
    }

    pub fn password(&self) -> (password: &String)
        ensures
            password@ == self@.password,
    {
        &self.password
    }

    pub fn data_dir(&self) -> (dir: &String)
        ensures
            dir@ == self@.data_dir,
    {
        &self.data_dir
    }

    pub fn session_file(&self) -> (file: &String)
        ensures
            file@ == self@.session_file,
    {
        &self.session_file
    }

    /// Wipe the password once it is no longer needed.
    pub fn clear_password(&mut self)
        ensures
            final(self)@ == (ExportUserView { password: Seq::empty(), ..old(self)@ }),
    {
        zeroize_string(&mut self.password);
    }
}

impl ValidUser for ExportUser {
    fn set_username(&mut self, username: String)
        ensures
            final(self)@ == (ExportUserView { userid: username@, ..old(self)@ }),
    {
        self.userid = username;
    }

    fn set_password(&mut self, password: String)
        ensures
            final(self)@ == (ExportUserView { password: password@, ..old(self)@ }),
    {
        self.password = password;
    }
}

} // verus!
