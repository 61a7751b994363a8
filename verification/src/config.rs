//! The tunnel's configuration and the rules a valid one obeys.

use crate::digest::{hash_password, is_digest, is_hex_digit, password_digest, DIGEST_HEX_LEN};
use crate::text::{chars_of, clone_optional, clone_strings};
use vstd::prelude::*;

verus! {

/// What the command line asks for.
pub struct Cli {
    /// Run the setup assistant even where a configuration is stored.
    pub reconfigure: bool,
    /// Serve only to users who give a name and password.
    pub secure: bool,
    /// The directory to serve; the working directory where none is named.
    pub directory: Option<String>,
}

/// A user of the served site: a name and the digest of a password.
pub struct Credential {
    pub username: String,
    pub digest: String,
}

impl DeepView for Credential {
    type V = (Seq<char>, Seq<char>);

    open spec fn deep_view(&self) -> (Seq<char>, Seq<char>) {
        (self.username@, self.digest@)
    }
}

/// Why a configuration is refused.
#[derive(Clone, Copy, Debug, PartialEq, Eq, Structural)]
pub enum ConfigError {
    /// The host is empty.
    MissingHost,
    /// The local port is 0.
    InvalidLocalPort,
    /// The remote port is 0.
    InvalidRemotePort,
    /// A user has no name.
    EmptyUsername,
    /// A stored digest is not 128 lower-case hexadecimal digits.
    MalformedDigest,
    /// Two users share a name.
    DuplicateUsername,
    /// The directory to serve does not exist.
    MissingDirectory,
}

/// Everything one tunnel is set up from.
pub struct TunnelConfig {
    /// Commands to run locally before connecting: program and argument
    /// string.
    pub before_commands: Option<Vec<(String, String)>>,
    /// Commands to run on the remote host once connected. Kept, never run.
    pub after_commands: Option<Vec<(String, String)>>,
    pub host: String,
    pub port: Option<u16>,
    pub username: Option<String>,
    pub keyfile: Option<String>,
    pub jump_hosts: Option<Vec<String>>,
    pub local_port: u16,
    pub remote_port: u16,
    pub users: Vec<Credential>,
}

/// A configuration as plain values.
pub struct ConfigModel {
    pub before_commands: Option<Seq<(Seq<char>, Seq<char>)>>,
    pub after_commands: Option<Seq<(Seq<char>, Seq<char>)>>,
    pub host: Seq<char>,
    pub port: Option<u16>,
    pub username: Option<Seq<char>>,
    pub keyfile: Option<Seq<char>>,
    pub jump_hosts: Option<Seq<Seq<char>>>,
    pub local_port: u16,
    pub remote_port: u16,
    pub users: Seq<(Seq<char>, Seq<char>)>,
}

impl View for TunnelConfig {
    type V = ConfigModel;

    open spec fn view(&self) -> ConfigModel {
        ConfigModel {
            before_commands: self.before_commands.deep_view(),
            after_commands: self.after_commands.deep_view(),
            host: self.host@,
            port: self.port,
            username: self.username.deep_view(),
            keyfile: self.keyfile.deep_view(),
            jump_hosts: self.jump_hosts.deep_view(),
            local_port: self.local_port,
            remote_port: self.remote_port,
            users: self.users.deep_view(),
        }
    }
}

/// How to reach the remote host.
pub struct SessionOptions {
    pub host: String,
    pub port: Option<u16>,
    pub user: Option<String>,
    pub keyfile: Option<String>,
    pub jump_hosts: Vec<String>,
}

/// Whether some user of `users` has no name.
pub open spec fn has_empty_name(users: Seq<(Seq<char>, Seq<char>)>) -> bool {
    exists|i: int| 0 <= i < users.len() && (#[trigger] users[i]).0.len() == 0
}

/// Whether some digest of `users` is malformed.
pub open spec fn has_bad_digest(users: Seq<(Seq<char>, Seq<char>)>) -> bool {
    exists|i: int| 0 <= i < users.len() && !is_digest((#[trigger] users[i]).1)
}

/// Whether two entries of `users` share a name.
pub open spec fn has_duplicate(users: Seq<(Seq<char>, Seq<char>)>) -> bool {
    exists|i: int, j: int|
        0 <= i < j < users.len() && (#[trigger] users[i]).0 == (#[trigger] users[j]).0
}

/// What is wrong with a list of users, if anything: first a missing name,
/// then a malformed digest, then a repeated name.
pub open spec fn credential_error(users: Seq<(Seq<char>, Seq<char>)>) -> Option<ConfigError> {
    if has_empty_name(users) {
        Some(ConfigError::EmptyUsername)
    } else if has_bad_digest(users) {
        Some(ConfigError::MalformedDigest)
    } else if has_duplicate(users) {
        Some(ConfigError::DuplicateUsername)
    } else {
        None
    }
}

/// Whether `text` has the shape of a stored digest: 128 characters, each
/// of `0`-`9`, `a`-`f`.
pub fn is_digest_text(text: &str) -> (ok: bool)
    ensures
        ok == is_digest(text@),
{
    let chars = chars_of(text);
    if chars.len() != DIGEST_HEX_LEN {
        return false;
    }
    let mut i: usize = 0;
    while i < chars.len()
        invariant
            i <= chars.len(),
            chars@ == text@,
            forall|k: int| 0 <= k < i ==> is_hex_digit(#[trigger] text@[k]),
        decreases chars.len() - i,
    {
        let c = chars[i];
        if !(('0' <= c && c <= '9') || ('a' <= c && c <= 'f')) {
            return false;
        }
        i += 1;
    }
    true
}

/// Checks a list of users and names the first rule it breaks.
pub fn check_credentials(users: &Vec<Credential>) -> (result: Result<(), ConfigError>)
    ensures
        result == match credential_error(users.deep_view()) {
            Some(e) => Err::<(), ConfigError>(e),
            None => Ok(()),
        },
{
    let ghost view = users.deep_view();
    let mut i: usize = 0;
    while i < users.len()
        invariant
            i <= users.len(),
            view == users.deep_view(),
            forall|k: int| 0 <= k < i ==> (#[trigger] view[k]).0.len() > 0,
        decreases users.len() - i,
    {
        assert(view[i as int] == users[i as int].deep_view());
        if users[i].username.as_str().is_empty() {
            assert(view[i as int].0.len() == 0);
            return Err(ConfigError::EmptyUsername);
        }
        i += 1;
    }
    assert(!has_empty_name(view));
    let mut i: usize = 0;
    while i < users.len()
        invariant
            i <= users.len(),
            view == users.deep_view(),
            !has_empty_name(view),
            forall|k: int| 0 <= k < i ==> is_digest((#[trigger] view[k]).1),
        decreases users.len() - i,
    {
        assert(view[i as int] == users[i as int].deep_view());
        if !is_digest_text(users[i].digest.as_str()) {
            assert(!is_digest(view[i as int].1));
            return Err(ConfigError::MalformedDigest);
        }
        i += 1;
    }
    assert(!has_bad_digest(view));
    let mut j: usize = 0;
    while j < users.len()
        invariant
            j <= users.len(),
            view == users.deep_view(),
            !has_empty_name(view),
            !has_bad_digest(view),
            forall|a: int, b: int|
                0 <= a < b < j ==> (#[trigger] view[a]).0 != (#[trigger] view[b]).0,
        decreases users.len() - j,
    {
        let mut i: usize = 0;
        while i < j
            invariant
                i <= j < users.len(),
                view == users.deep_view(),
                !has_empty_name(view),
                !has_bad_digest(view),
                forall|a: int| 0 <= a < i ==> (#[trigger] view[a]).0 != view[j as int].0,
            decreases j - i,
        {
            assert(view[i as int] == users[i as int].deep_view());
            assert(view[j as int] == users[j as int].deep_view());
            if users[i].username == users[j].username {
                assert(view[i as int].0 == view[j as int].0);
                return Err(ConfigError::DuplicateUsername);
            }
            i += 1;
        }
        j += 1;
    }
    assert(!has_duplicate(view));
    Ok(())
}

/// `entries`, names with passwords, as they are stored: each name with the
/// digest of its password.
pub open spec fn hashed(entries: Seq<(Seq<char>, Seq<char>)>) -> Seq<(Seq<char>, Seq<char>)> {
    entries.map_values(|e: (Seq<char>, Seq<char>)| (e.0, password_digest(e.1)))
}

/// Turns names with passwords into credentials. Each password is hashed
/// here and goes no further.
pub fn hash_users(entries: &Vec<(String, String)>) -> (users: Vec<Credential>)
    ensures
        users.deep_view() == hashed(entries.deep_view()),
{
    let mut users: Vec<Credential> = Vec::new();
    let mut i: usize = 0;
    while i < entries.len()
        invariant
            i <= entries.len(),
            users.deep_view() == hashed(entries.deep_view()).take(i as int),
        decreases entries.len() - i,
    {
        let ghost so_far = users.deep_view();
        let user = Credential {
            username: entries[i].0.clone(),
            digest: hash_password(entries[i].1.as_str()),
        };
        assert(entries.deep_view()[i as int] == entries[i as int].deep_view());
        users.push(user);
        assert(users.deep_view() =~= so_far.push(user.deep_view()));
        assert(users.deep_view() =~= hashed(entries.deep_view()).take(i + 1));
        i += 1;
    }
    assert(hashed(entries.deep_view()).take(entries.len() as int) =~= hashed(
        entries.deep_view(),
    ));
    users
}

/// A copy of `users`.
pub(crate) fn clone_users(users: &Vec<Credential>) -> (out: Vec<Credential>)
    ensures
        out@ == users@,
{
    let mut out: Vec<Credential> = Vec::new();
    let mut i: usize = 0;
    while i < users.len()
        invariant
            i <= users.len(),
            out@ == users@.take(i as int),
        decreases users.len() - i,
    {
        out.push(Credential { username: users[i].username.clone(), digest: users[i].digest.clone() });
        assert(out@ =~= users@.take(i + 1));
        i += 1;
    }
    assert(users@.take(users@.len() as int) =~= users@);
    out
}

impl ConfigError {
    /// The broken rule, in words for the operator.
    pub open spec fn message_text(self) -> Seq<char> {
        match self {
            ConfigError::MissingHost => "No SSH host is set"@,
            ConfigError::InvalidLocalPort => "The local port is not a valid port number"@,
            ConfigError::InvalidRemotePort => "The remote port is not a valid port number"@,
            ConfigError::EmptyUsername => "A user has no name"@,
            ConfigError::MalformedDigest => "A stored password digest is malformed"@,
            ConfigError::DuplicateUsername => "Two users share a name"@,
            ConfigError::MissingDirectory => "The directory to serve was not found"@,
        }
    }

    /// The broken rule, in words for the operator.
    pub fn message(self) -> (text: &'static str)
        ensures
            text@ == self.message_text(),
    {
        match self {
            ConfigError::MissingHost => "No SSH host is set",
            ConfigError::InvalidLocalPort => "The local port is not a valid port number",
            ConfigError::InvalidRemotePort => "The remote port is not a valid port number",
            ConfigError::EmptyUsername => "A user has no name",
            ConfigError::MalformedDigest => "A stored password digest is malformed",
            ConfigError::DuplicateUsername => "Two users share a name",
            ConfigError::MissingDirectory => "The directory to serve was not found",
        }
    }
}

impl ConfigModel {
    /// A valid configuration: a host, two ports that are not 0, and users
    /// with a name each, well-formed digests and no name twice.
    pub open spec fn valid(self) -> bool {
        self.first_error() is None
    }

    /// The first rule that the configuration breaks, if any.
    pub open spec fn first_error(self) -> Option<ConfigError> {
        if self.host.len() == 0 {
            Some(ConfigError::MissingHost)
        } else if self.local_port == 0 {
            Some(ConfigError::InvalidLocalPort)
        } else if self.remote_port == 0 {
            Some(ConfigError::InvalidRemotePort)
        } else {
            credential_error(self.users)
        }
    }

    /// The commands to run before connecting.
    pub open spec fn commands(self) -> Seq<(Seq<char>, Seq<char>)> {
        match self.before_commands {
            Some(commands) => commands,
            None => Seq::empty(),
        }
    }
}

impl TunnelConfig {
    /// Accepts a valid configuration and names the first broken rule of
    /// any other.
    pub fn validate(&self) -> (result: Result<(), ConfigError>)
        ensures
            result is Ok <==> self@.valid(),
            result == match self@.first_error() {
                Some(e) => Err::<(), ConfigError>(e),
                None => Ok(()),
            },
    {
        if self.host.as_str().is_empty() {
            Err(ConfigError::MissingHost)
        } else if self.local_port == 0 {
            Err(ConfigError::InvalidLocalPort)
        } else if self.remote_port == 0 {
            Err(ConfigError::InvalidRemotePort)
        } else {
            check_credentials(&self.users)
        }
    }

    /// What the session is opened with: the host and, where they are set,
    /// port, user, key file and the hosts to jump through.
    pub fn session_options(&self) -> (options: SessionOptions)
        ensures
            options.host@ == self@.host,
            options.port == self@.port,
            options.user.deep_view() == self@.username,
            options.keyfile.deep_view() == self@.keyfile,
            options.jump_hosts.deep_view() == match self@.jump_hosts {
                Some(hosts) => hosts,
                None => Seq::empty(),
            },
    {
        let jump_hosts = match &self.jump_hosts {
            Some(hosts) => clone_strings(hosts),
            None => Vec::new(),
        };
        let options = SessionOptions {
            host: self.host.clone(),
            port: self.port,
            user: clone_optional(&self.username),
            keyfile: clone_optional(&self.keyfile),
            jump_hosts,
        };
        assert(options.jump_hosts.deep_view() =~= match self@.jump_hosts {
            Some(hosts) => hosts,
            None => Seq::empty(),
        });
        options
    }

    /// The number of commands to run before connecting.
    pub fn command_count(&self) -> (count: usize)
        ensures
            count == self@.commands().len(),
    {
        match &self.before_commands {
            Some(commands) => commands.len(),
            None => 0,
        }
    }
}

impl Cli {
    /// Whether the setup assistant has to run: where it is asked for, and
    /// where no stored configuration is found.
    pub fn needs_setup(&self, stored_config_found: bool) -> (needed: bool)
        ensures
            needed == (self.reconfigure || !stored_config_found),
    {
        self.reconfigure || !stored_config_found
    }

    /// The directory to serve: the one named on the command line, which
    /// has to exist, or else the working directory.
    pub fn served_directory(&self, named_exists: bool, working_directory: String) -> (result:
        Result<String, ConfigError>)
        ensures
            result == match self.directory {
                Some(named) => if named_exists {
                    Ok::<String, ConfigError>(named)
                } else {
                    Err::<String, ConfigError>(ConfigError::MissingDirectory)
                },
                None => Ok::<String, ConfigError>(working_directory),
            },
    {
        match &self.directory {
            Some(named) => {
                if named_exists {
                    Ok(named.clone())
                } else {
                    Err(ConfigError::MissingDirectory)
                }
            },
            None => Ok(working_directory),
        }
    }
}

/// A port number from a wider integer: `Some` exactly for 1 to 65535.
pub fn checked_port(value: u32) -> (port: Option<u16>)
    ensures
        port == if 1 <= value <= 65535 {
            Some(value as u16)
        } else {
            None
        },
{
    if 1 <= value && value <= 65535 {
        Some(value as u16)
    } else {
        None
    }
}

/// In a valid configuration the host is named, both ports lie between 1
/// and 65535, every user has a name and a well-formed digest, and no two
/// users share a name.
pub proof fn lemma_valid_config(config: ConfigModel)
    requires
        config.valid(),
    ensures
        config.host.len() > 0,
        1 <= config.local_port <= 65535,
        1 <= config.remote_port <= 65535,
        forall|i: int|
            0 <= i < config.users.len() ==> (#[trigger] config.users[i]).0.len() > 0 && is_digest(
                config.users[i].1,
            ),
        forall|i: int, j: int|
            0 <= i < j < config.users.len() ==> (#[trigger] config.users[i]).0 != (
            #[trigger] config.users[j]).0,
{
}

/// A configuration with a port of 0 is not valid.
pub proof fn lemma_port_zero_refused(config: ConfigModel)
    requires
        config.local_port == 0 || config.remote_port == 0,
    ensures
        !config.valid(),
{
}

} // verus!
