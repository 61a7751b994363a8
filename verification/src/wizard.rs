//! What the setup assistant computes from the operator's answers.

use crate::config::{hash_users, hashed, ConfigError, ConfigModel, TunnelConfig};
use crate::orchestrator::App;
use crate::text::{cut_at_first, lines, lines_of, split_once};
use vstd::prelude::*;

verus! {

/// The features that the assistant offers on top of a plain tunnel.
#[derive(Clone, Copy, Debug, PartialEq, Eq, Structural)]
pub enum OptionalFeatures {
    CmdBefore,
    CmdAfter,
    JumpHosts,
}

/// What the operator has answered.
pub struct Answers {
    pub host: String,
    pub port: Option<u16>,
    pub username: Option<String>,
    pub keyfile: Option<String>,
    pub remote_port: u16,
    pub local_port: u16,
    /// Names with passwords as typed.
    pub users: Vec<(String, String)>,
    /// The commands to run before connecting, one per line; `None` where
    /// the feature was not chosen or no text was given.
    pub before_commands: Option<String>,
    /// The commands to run remotely once connected, one per line.
    pub after_commands: Option<String>,
    /// The hosts to jump through, one per line.
    pub jump_hosts: Option<String>,
}

/// A line as a command: the program up to the first blank, the argument
/// string after it. A line without a blank is a program without arguments.
pub open spec fn command_of(line: Seq<char>) -> (Seq<char>, Seq<char>) {
    match cut_at_first(line, ' ') {
        Some(cut) => cut,
        None => (line, Seq::empty()),
    }
}

/// The commands that `text` lists, one per line.
pub open spec fn commands_of(text: Seq<char>) -> Seq<(Seq<char>, Seq<char>)> {
    lines_of(text).map_values(|line: Seq<char>| command_of(line))
}

/// A list as it is stored: `None` in place of an empty one.
pub open spec fn listed<T>(items: Seq<T>) -> Option<Seq<T>> {
    if items.len() == 0 {
        None
    } else {
        Some(items)
    }
}

/// The commands that an answer holds.
pub open spec fn answered_commands(text: Option<String>) -> Option<Seq<(Seq<char>, Seq<char>)>> {
    match text {
        Some(text) => listed(commands_of(text@)),
        None => None,
    }
}

/// The hosts that an answer holds.
pub open spec fn answered_hosts(text: Option<String>) -> Option<Seq<Seq<char>>> {
    match text {
        Some(text) => listed(lines_of(text@)),
        None => None,
    }
}

/// The configuration that `answers` describe.
pub open spec fn assembled(answers: Answers) -> ConfigModel {
    ConfigModel {
        before_commands: answered_commands(answers.before_commands),
        after_commands: answered_commands(answers.after_commands),
        host: answers.host@,
        port: answers.port,
        username: answers.username.deep_view(),
        keyfile: answers.keyfile.deep_view(),
        jump_hosts: answered_hosts(answers.jump_hosts),
        local_port: answers.local_port,
        remote_port: answers.remote_port,
        users: hashed(answers.users.deep_view()),
    }
}

impl OptionalFeatures {
    /// The text that the assistant shows for a feature.
    pub open spec fn label_text(self) -> Seq<char> {
        match self {
            OptionalFeatures::CmdBefore =>
                "Run Command (locally) before establishing SSH connection"@,
            OptionalFeatures::CmdAfter =>
                "Run command (remotely) after establishing SSH connection"@,
            OptionalFeatures::JumpHosts => "Use SSH jump-hosts"@,
        }
    }

    /// The text that the assistant shows for a feature.
    pub fn label(&self) -> (text: &'static str)
        ensures
            text@ == self.label_text(),
    {
        match self {
            OptionalFeatures::CmdBefore => "Run Command (locally) before establishing SSH connection",
            OptionalFeatures::CmdAfter => "Run command (remotely) after establishing SSH connection",
            OptionalFeatures::JumpHosts => "Use SSH jump-hosts",
        }
    }

    /// The features in the order in which they are offered.
    pub fn all() -> (features: Vec<OptionalFeatures>)
        ensures
            features@ == seq![
                OptionalFeatures::CmdBefore,
                OptionalFeatures::CmdAfter,
                OptionalFeatures::JumpHosts,
            ],
    {
        let mut features: Vec<OptionalFeatures> = Vec::new();
        features.push(OptionalFeatures::CmdBefore);
        features.push(OptionalFeatures::CmdAfter);
        features.push(OptionalFeatures::JumpHosts);
        assert(features@ =~= seq![
            OptionalFeatures::CmdBefore,
            OptionalFeatures::CmdAfter,
            OptionalFeatures::JumpHosts,
        ]);
        features
    }
}

/// Reads one command from a line.
pub fn parse_command(line: &str) -> (command: (String, String))
    ensures
        command.deep_view() == command_of(line@),
{
    match split_once(line, ' ') {
        Some(cut) => cut,
        None => {
            let program = line.to_owned();
            let args = String::new();
            (program, args)
        },
    }
}

/// Reads the commands that `text` lists, one per line.
pub fn parse_commands(text: &str) -> (commands: Vec<(String, String)>)
    ensures
        commands.deep_view() == commands_of(text@),
{
    let all = lines(text);
    let ghost wanted = commands_of(text@);
    let mut commands: Vec<(String, String)> = Vec::new();
    let mut i: usize = 0;
    while i < all.len()
        invariant
            i <= all.len(),
            all.deep_view() == lines_of(text@),
            wanted == commands_of(text@),
            commands.deep_view() == wanted.take(i as int),
        decreases all.len() - i,
    {
        let ghost so_far = commands.deep_view();
        let command = parse_command(all[i].as_str());
        assert(all.deep_view()[i as int] == all[i as int]@);
        commands.push(command);
        assert(commands.deep_view() =~= so_far.push(command.deep_view()));
        assert(commands.deep_view() =~= wanted.take(i + 1));
        i += 1;
    }
    assert(wanted.take(all.len() as int) =~= wanted);
    commands
}

/// The commands of an answer, as they are stored.
fn stored_commands(text: Option<String>) -> (commands: Option<Vec<(String, String)>>)
    ensures
        commands.deep_view() == answered_commands(text),
{
    match text {
        Some(text) => {
            let commands = parse_commands(text.as_str());
            if commands.len() == 0 {
                None
            } else {
                Some(commands)
            }
        },
        None => None,
    }
}

/// The hosts of an answer, as they are stored.
fn stored_hosts(text: Option<String>) -> (hosts: Option<Vec<String>>)
    ensures
        hosts.deep_view() == answered_hosts(text),
{
    match text {
        Some(text) => {
            let hosts = lines(text.as_str());
            if hosts.len() == 0 {
                None
            } else {
                Some(hosts)
            }
        },
        None => None,
    }
}

impl App {
    /// Builds the configuration that `answers` describe, and refuses it
    /// where it breaks a rule.
    pub fn build_config(answers: Answers) -> (result: Result<TunnelConfig, ConfigError>)
        ensures
            match result {
                Ok(config) => config@ == assembled(answers) && config@.valid(),
                Err(e) => assembled(answers).first_error() == Some(e),
            },
    {
        let users = hash_users(&answers.users);
        let config = TunnelConfig {
            before_commands: stored_commands(answers.before_commands),
            after_commands: stored_commands(answers.after_commands),
            host: answers.host,
            port: answers.port,
            username: answers.username,
            keyfile: answers.keyfile,
            jump_hosts: stored_hosts(answers.jump_hosts),
            local_port: answers.local_port,
            remote_port: answers.remote_port,
            users,
        };
        match config.validate() {
            Ok(()) => Ok(config),
            Err(e) => Err(e),
        }
    }
}

} // verus!
