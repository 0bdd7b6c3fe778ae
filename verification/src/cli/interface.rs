use vstd::prelude::*;

verus! {

/// Initial information of a user
/// The fields are filled through a prompt
#[derive(Clone, Debug, Default)]
pub struct UserInfo {
    /// Full user ID
    ///
    /// Example: @user:example.org
    pub userid: String,
    /// Password for the given user ID
    pub password: String,
    /// Path to the E2EE key file
    ///
    /// Can be relative or absolute
    pub keys_file: String,
    /// Passphrase for the given E2EE key file
    pub keys_pass: String,
}

impl UserInfo {
    /// Checks if any fields of [`UserInfo`] are empty.
    pub fn any_empty(&self) -> (empty: bool)
        ensures
            empty == (self.userid@.len() == 0 || self.password@.len() == 0
                || self.keys_file@.len() == 0 || self.keys_pass@.len() == 0),
    {
        self.userid.as_str().unicode_len() == 0 || self.password.as_str().unicode_len() == 0
            || self.keys_file.as_str().unicode_len() == 0 || self.keys_pass.as_str().unicode_len()
            == 0
    }
}

} // verus!
