use livetunnel::config::{
    check_credentials, checked_port, hash_users, is_digest_text, Cli, ConfigError, Credential,
    TunnelConfig,
};
use livetunnel::digest::hash_password;

fn config() -> TunnelConfig {
    TunnelConfig {
        before_commands: None,
        after_commands: None,
        host: "example.org".to_string(),
        port: None,
        username: None,
        keyfile: None,
        jump_hosts: None,
        local_port: 3000,
        remote_port: 8080,
        users: Vec::new(),
    }
}

fn user(name: &str, password: &str) -> Credential {
    Credential { username: name.to_string(), digest: hash_password(password) }
}

#[test]
fn a_plain_config_is_valid() {
    assert_eq!(config().validate(), Ok(()));
}

#[test]
fn the_host_is_required() {
    let mut c = config();
    c.host = String::new();
    assert_eq!(c.validate(), Err(ConfigError::MissingHost));
}

#[test]
fn local_port_zero_is_refused() {
    let mut c = config();
    c.local_port = 0;
    assert_eq!(c.validate(), Err(ConfigError::InvalidLocalPort));
}

#[test]
fn remote_port_zero_is_refused() {
    let mut c = config();
    c.remote_port = 0;
    assert_eq!(c.validate(), Err(ConfigError::InvalidRemotePort));
}

#[test]
fn the_port_range_is_accepted_at_both_ends() {
    let mut c = config();
    c.local_port = 1;
    c.remote_port = 65535;
    assert_eq!(c.validate(), Ok(()));
}

#[test]
fn errors_come_in_order() {
    let mut c = config();
    c.host = String::new();
    c.local_port = 0;
    c.remote_port = 0;
    c.users = vec![Credential { username: String::new(), digest: String::new() }];
    assert_eq!(c.validate(), Err(ConfigError::MissingHost));
    c.host = "h".to_string();
    assert_eq!(c.validate(), Err(ConfigError::InvalidLocalPort));
    c.local_port = 1;
    assert_eq!(c.validate(), Err(ConfigError::InvalidRemotePort));
    c.remote_port = 1;
    assert_eq!(c.validate(), Err(ConfigError::EmptyUsername));
}

#[test]
fn checked_port_accepts_one_to_65535() {
    assert_eq!(checked_port(0), None);
    assert_eq!(checked_port(1), Some(1));
    assert_eq!(checked_port(3000), Some(3000));
    assert_eq!(checked_port(65535), Some(65535));
    assert_eq!(checked_port(65536), None);
    assert_eq!(checked_port(u32::MAX), None);
}

#[test]
fn users_with_distinct_names_are_accepted() {
    let users = vec![user("ann", "a"), user("bob", "a")];
    assert_eq!(check_credentials(&users), Ok(()));
    let mut c = config();
    c.users = users;
    assert_eq!(c.validate(), Ok(()));
}

#[test]
fn no_users_are_accepted() {
    assert_eq!(check_credentials(&Vec::new()), Ok(()));
}

#[test]
fn a_user_needs_a_name() {
    let users = vec![user("ann", "a"), user("", "b")];
    assert_eq!(check_credentials(&users), Err(ConfigError::EmptyUsername));
}

#[test]
fn a_digest_has_to_be_well_formed() {
    let users = vec![Credential { username: "ann".to_string(), digest: "secret".to_string() }];
    assert_eq!(check_credentials(&users), Err(ConfigError::MalformedDigest));
}

#[test]
fn a_name_may_not_repeat() {
    let users = vec![user("ann", "a"), user("bob", "b"), user("ann", "c")];
    assert_eq!(check_credentials(&users), Err(ConfigError::DuplicateUsername));
}

#[test]
fn credential_errors_come_in_order() {
    let bad = Credential { username: "ann".to_string(), digest: "x".to_string() };
    let users = vec![user("ann", "a"), bad, user("", "c")];
    assert_eq!(check_credentials(&users), Err(ConfigError::EmptyUsername));
    let bad = Credential { username: "ann".to_string(), digest: "x".to_string() };
    let users = vec![user("ann", "a"), bad];
    assert_eq!(check_credentials(&users), Err(ConfigError::MalformedDigest));
}

#[test]
fn digest_text_is_128_lower_hex_digits() {
    assert!(is_digest_text(&hash_password("x")));
    assert!(is_digest_text(&"0".repeat(128)));
    assert!(is_digest_text(&"af09".repeat(32)));
    assert!(!is_digest_text(""));
    assert!(!is_digest_text(&"0".repeat(127)));
    assert!(!is_digest_text(&"0".repeat(129)));
    assert!(!is_digest_text(&"A".repeat(128)));
    assert!(!is_digest_text(&"g".repeat(128)));
    assert!(!is_digest_text(&format!("{}{}", "0".repeat(127), "/")));
    assert!(!is_digest_text(&format!("{}{}", "0".repeat(127), ":")));
    assert!(!is_digest_text(&format!("{}{}", "0".repeat(127), "`")));
    assert!(!is_digest_text(&"\u{e4}".repeat(128)));
}

#[test]
fn hash_users_keeps_names_and_hashes_passwords() {
    let entries = vec![
        ("ann".to_string(), "abc".to_string()),
        ("bob".to_string(), "".to_string()),
    ];
    let users = hash_users(&entries);
    assert_eq!(users.len(), 2);
    assert_eq!(users[0].username, "ann");
    assert_eq!(users[0].digest, hash_password("abc"));
    assert_eq!(users[1].username, "bob");
    assert_eq!(users[1].digest, hash_password(""));
    assert!(users.iter().all(|u| u.digest != "abc" && !u.digest.is_empty()));
}

#[test]
fn hash_users_of_nobody() {
    assert!(hash_users(&Vec::new()).is_empty());
}

#[test]
fn session_options_carry_the_settings() {
    let mut c = config();
    c.port = Some(2222);
    c.username = Some("root".to_string());
    c.keyfile = Some("/home/me/.ssh/id_rsa".to_string());
    c.jump_hosts = Some(vec!["bastion".to_string(), "inner".to_string()]);
    let options = c.session_options();
    assert_eq!(options.host, "example.org");
    assert_eq!(options.port, Some(2222));
    assert_eq!(options.user, Some("root".to_string()));
    assert_eq!(options.keyfile, Some("/home/me/.ssh/id_rsa".to_string()));
    assert_eq!(options.jump_hosts, vec!["bastion".to_string(), "inner".to_string()]);
}

#[test]
fn session_options_of_a_plain_config() {
    let options = config().session_options();
    assert_eq!(options.host, "example.org");
    assert_eq!(options.port, None);
    assert_eq!(options.user, None);
    assert_eq!(options.keyfile, None);
    assert!(options.jump_hosts.is_empty());
}

#[test]
fn command_count_counts_the_commands_before() {
    let mut c = config();
    assert_eq!(c.command_count(), 0);
    c.before_commands = Some(vec![("a".to_string(), "".to_string()), ("b".to_string(), "c".to_string())]);
    c.after_commands = Some(vec![("z".to_string(), "".to_string())]);
    assert_eq!(c.command_count(), 2);
}

#[test]
fn setup_runs_when_asked_or_when_nothing_is_stored() {
    let asked = Cli { reconfigure: true, secure: false, directory: None };
    let plain = Cli { reconfigure: false, secure: false, directory: None };
    assert!(asked.needs_setup(true));
    assert!(asked.needs_setup(false));
    assert!(plain.needs_setup(false));
    assert!(!plain.needs_setup(true));
}

#[test]
fn the_named_directory_has_to_exist() {
    let cli = Cli { reconfigure: false, secure: false, directory: Some("/srv/files".to_string()) };
    assert_eq!(cli.served_directory(true, "/home/me".to_string()), Ok("/srv/files".to_string()));
    assert_eq!(
        cli.served_directory(false, "/home/me".to_string()),
        Err(ConfigError::MissingDirectory)
    );
}

#[test]
fn the_working_directory_is_the_default() {
    let cli = Cli { reconfigure: false, secure: false, directory: None };
    assert_eq!(cli.served_directory(false, "/home/me".to_string()), Ok("/home/me".to_string()));
    assert_eq!(cli.served_directory(true, "/home/me".to_string()), Ok("/home/me".to_string()));
}

#[test]
fn every_broken_rule_has_its_message() {
    assert_eq!(ConfigError::MissingHost.message(), "No SSH host is set");
    assert_eq!(
        ConfigError::InvalidLocalPort.message(),
        "The local port is not a valid port number"
    );
    assert_eq!(
        ConfigError::InvalidRemotePort.message(),
        "The remote port is not a valid port number"
    );
    assert_eq!(ConfigError::EmptyUsername.message(), "A user has no name");
    assert_eq!(ConfigError::MalformedDigest.message(), "A stored password digest is malformed");
    assert_eq!(ConfigError::DuplicateUsername.message(), "Two users share a name");
    assert_eq!(ConfigError::MissingDirectory.message(), "The directory to serve was not found");
}
