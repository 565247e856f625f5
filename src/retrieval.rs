//! What the retrieval of job input files decides before it touches the
//! network: its settings, validated once at startup, and the remote path.
use vstd::prelude::*;
use vstd::string::*;

verus! {

/// The text of a startup failure for a setting `name` that is not set.
pub open spec fn missing_message(name: Seq<char>) -> Seq<char> {
    "Set env variable "@ + name + " first!"@
}

/// The message for a setting `name` that is not set.
pub fn missing_setting_message(name: &str) -> (r: String)
    ensures
        r@ == missing_message(name@),
{
    String::from_str("Set env variable ").concat(name).concat(" first!")
}

/// The connection settings of the file host.
pub struct SentinelSettings {
    pub server: String,
    pub username: String,
    pub password: String,
}

impl SentinelSettings {
    /// The name of the setting that holds the host.
    pub fn server_variable() -> (r: &'static str)
        ensures
            r@ == "SENTINEL_SFTP_SERVER"@,
    {
        "SENTINEL_SFTP_SERVER"
    }

    /// The name of the setting that holds the user name.
    pub fn username_variable() -> (r: &'static str)
        ensures
            r@ == "SENTINEL_SFTP_USERNAME"@,
    {
        "SENTINEL_SFTP_USERNAME"
    }

    /// The name of the setting that holds the password.
    pub fn password_variable() -> (r: &'static str)
        ensures
            r@ == "SENTINEL_SFTP_PASSWORD"@,
    {
        "SENTINEL_SFTP_PASSWORD"
    }

    /// Settings from the three values as found; the first one missing, in the
    /// order server, user name, password, fails with the message that names it.
    pub fn from_values(
        server: Option<String>,
        username: Option<String>,
        password: Option<String>,
    ) -> (r: Result<SentinelSettings, String>)
        ensures
            r is Ok <==> (server is Some && username is Some && password is Some),
            r matches Ok(s) ==> s.server@ == server->0@ && s.username@ == username->0@
                && s.password@ == password->0@,
            r matches Err(m) ==> m@ == missing_message(
                if server is None {
                    "SENTINEL_SFTP_SERVER"@
                } else if username is None {
                    "SENTINEL_SFTP_USERNAME"@
                } else {
                    "SENTINEL_SFTP_PASSWORD"@
                },
            ),
    {
        match (server, username, password) {
            (Some(server), Some(username), Some(password)) => Ok(
                SentinelSettings { server, username, password },
            ),
            (None, _, _) => Err(missing_setting_message(SentinelSettings::server_variable())),
            (Some(_), None, _) => Err(missing_setting_message(SentinelSettings::username_variable())),
            (Some(_), Some(_), None) => Err(
                missing_setting_message(SentinelSettings::password_variable()),
            ),
        }
    }

    /// The address to connect to: the host on the SSH port.
    pub fn address(&self) -> (r: String)
        ensures
            r@ == self.server@ + ":22"@,
    {
        self.server.clone().concat(":22")
    }
}

/// The path on the file host relative to its root: the path without the
/// separators it starts with.
pub fn remote_path(filepath: &str) -> (r: String)
    ensures
        r@.len() <= filepath@.len(),
        r@ == filepath@.skip(filepath@.len() - r@.len()),
        forall|j: int| 0 <= j < filepath@.len() - r@.len() ==> filepath@[j] == '/',
        r@.len() == 0 || r@[0] != '/',
{
    let n = filepath.unicode_len();
    let mut k: usize = 0;
    while k < n && filepath.get_char(k) == '/'
        invariant
            n == filepath@.len(),
            k <= n,
            forall|j: int| 0 <= j < k ==> filepath@[j] == '/',
        decreases n - k,
    {
        k = k + 1;
    }
    let r = String::from_str(filepath.substring_char(k, n));
    assert(r@ =~= filepath@.skip(k as int));
    r
}

} // verus!
