//! The orchestrator: one tunnel from its configuration to its release.

use crate::config::{
    check_credentials, clone_users, credential_error, hash_users, hashed, Cli, ConfigError,
    ConfigModel, SessionOptions, TunnelConfig,
};
use crate::machine::{Action, CommandOutcome, Env, Event, Machine, RunState};
use crate::runner::{arguments, command_line, CommandLine};
use crate::signal::cancellation_requested;
use crate::supervisor::{server_args, server_arguments};
use std::sync::atomic::AtomicBool;
use std::sync::Arc;
use vstd::prelude::*;

verus! {

/// The reverse port forward to ask for. Both ends are on the loopback
/// interface of their side.
#[derive(Clone, Copy, Debug, PartialEq, Eq, Structural)]
pub struct PortForward {
    pub remote_port: u16,
    pub local_port: u16,
}

/// The orchestrator of one tunnel.
pub struct App {
    cli: Cli,
    config: TunnelConfig,
    directory: String,
    machine: Machine,
    outcomes: Vec<CommandOutcome>,
    should_end: Arc<AtomicBool>,
}

/// What the contracts say of an orchestrator.
pub struct AppModel {
    pub cli: Cli,
    pub config: ConfigModel,
    pub directory: Seq<char>,
    pub machine: Machine,
    /// How the commands attempted so far have ended, in order.
    pub outcomes: Seq<CommandOutcome>,
    /// The cancellation flag.
    pub should_end: Arc<AtomicBool>,
}

impl View for App {
    type V = AppModel;

    closed spec fn view(&self) -> AppModel {
        AppModel {
            cli: self.cli,
            config: self.config@,
            directory: self.directory@,
            machine: self.machine,
            outcomes: self.outcomes@,
            should_end: self.should_end,
        }
    }
}

impl AppModel {
    /// What a step reads besides the event.
    pub open spec fn env(self, cancel: bool) -> Env {
        Env { cancel, has_users: self.config.users.len() > 0 }
    }

    /// The orchestrator after `event`, with the cancellation flag read as
    /// `cancel`.
    pub open spec fn after(self, event: Event, cancel: bool) -> AppModel {
        AppModel {
            machine: self.machine.step(event, self.env(cancel)).0,
            outcomes: match self.machine.recorded(event) {
                Some(outcome) => self.outcomes.push(outcome),
                None => self.outcomes,
            },
            ..self
        }
    }

    /// The action that answers `event`.
    pub open spec fn answer(self, event: Event, cancel: bool) -> Action {
        self.machine.step(event, self.env(cancel)).1
    }

    /// Whether the cancellation flag decides what follows `event`: only in
    /// a round of monitoring that finds the session alive.
    pub open spec fn flag_decides(self, event: Event) -> bool {
        &&& self.machine.state is Monitoring
        &&& event matches Event::Observed(health, _)
        &&& health is Alive
    }

    /// Whether shutdown has begun.
    pub open spec fn closing(self) -> bool {
        self.machine.state is ShuttingDown || self.machine.state is Closed
    }

    /// The orchestrator with `users` in place of its own.
    pub open spec fn with_users(self, users: Seq<(Seq<char>, Seq<char>)>) -> AppModel {
        AppModel { config: ConfigModel { users, ..self.config }, ..self }
    }

    /// What holds of every orchestrator.
    pub open spec fn wf(self) -> bool {
        &&& self.config.valid()
        &&& self.machine.wf()
        &&& self.machine.commands == self.config.commands().len()
        &&& self.machine.secure == self.cli.secure
    }
}

impl App {
    #[verifier::type_invariant]
    spec fn inv(&self) -> bool {
        self@.wf()
    }

    /// Sets up the orchestrator of a tunnel, in `Idle`. The configuration
    /// has to be valid; of another one the first broken rule comes back.
    pub fn new(cli: Cli, config: TunnelConfig, directory: String, end: Arc<AtomicBool>) -> (result:
        Result<App, ConfigError>)
        ensures
            match result {
                Ok(app) => {
                    &&& app@.wf()
                    &&& app@.cli == cli
                    &&& app@.should_end == end
                    &&& app@.config == config@
                    &&& app@.directory == directory@
                    &&& app@.machine == Machine::initial(
                        config@.commands().len() as usize,
                        cli.secure,
                    )
                    &&& app@.outcomes == Seq::<CommandOutcome>::empty()
                },
                Err(e) => config@.first_error() == Some(e),
            },
    {
        match config.validate() {
            Err(e) => Err(e),
            Ok(()) => {
                let machine = Machine::new(config.command_count(), cli.secure);
                Ok(App { cli, config, directory, machine, outcomes: Vec::new(), should_end: end })
            },
        }
    }

    /// The phase the run is in.
    pub fn state(&self) -> (state: RunState)
        ensures
            state == self@.machine.state,
    {
        self.machine.state
    }

    /// The control state of the run.
    pub fn machine(&self) -> (machine: Machine)
        ensures
            machine == self@.machine,
            self@.wf(),
    {
        proof {
            use_type_invariant(self);
        }
        self.machine
    }

    /// How the commands attempted so far have ended, in order.
    pub fn outcomes(&self) -> (outcomes: &Vec<CommandOutcome>)
        ensures
            outcomes@ == self@.outcomes,
    {
        &self.outcomes
    }

    /// The configuration, which is valid.
    pub fn config(&self) -> (config: &TunnelConfig)
        ensures
            config@ == self@.config,
            config@.valid(),
    {
        proof {
            use_type_invariant(self);
        }
        &self.config
    }

    /// What the command line asked for.
    pub fn cli(&self) -> (cli: &Cli)
        ensures
            *cli == self@.cli,
    {
        &self.cli
    }

    /// The directory that is served.
    pub fn directory(&self) -> (directory: &str)
        ensures
            directory@ == self@.directory,
    {
        self.directory.as_str()
    }

    /// The cancellation flag.
    pub fn should_end(&self) -> (flag: &Arc<AtomicBool>)
        ensures
            *flag == self@.should_end,
    {
        &self.should_end
    }

    /// The command with this index among those that precede the
    /// connection, as it is to be run; `None` past the last.
    pub fn pre_command(&self, index: usize) -> (line: Option<CommandLine>)
        ensures
            match line {
                Some(line) => {
                    &&& index < self@.config.commands().len()
                    &&& line.program@ == self@.config.commands()[index as int].0
                    &&& line.args.deep_view() == arguments(
                        self@.config.commands()[index as int].1,
                    )
                },
                None => index >= self@.config.commands().len(),
            },
    {
        match &self.config.before_commands {
            Some(commands) => {
                if index < commands.len() {
                    assert(commands.deep_view()[index as int] == commands[index as int].deep_view());
                    Some(command_line(commands[index].0.as_str(), commands[index].1.as_str()))
                } else {
                    None
                }
            },
            None => None,
        }
    }

    /// What the session is opened with.
    pub fn session_options(&self) -> (options: SessionOptions)
        ensures
            options.host@ == self@.config.host,
            options.port == self@.config.port,
            options.user.deep_view() == self@.config.username,
            options.keyfile.deep_view() == self@.config.keyfile,
            options.jump_hosts.deep_view() == match self@.config.jump_hosts {
                Some(hosts) => hosts,
                None => Seq::empty(),
            },
    {
        self.config.session_options()
    }

    /// The port forward to ask for: from the remote port to the local one.
    pub fn port_forward(&self) -> (forward: PortForward)
        ensures
            forward.remote_port == self@.config.remote_port,
            forward.local_port == self@.config.local_port,
            forward.remote_port >= 1,
            forward.local_port >= 1,
    {
        proof {
            use_type_invariant(self);
        }
        PortForward { remote_port: self.config.remote_port, local_port: self.config.local_port }
    }

    /// The arguments to start the file server with.
    pub fn server_args(&self) -> (args: Vec<String>)
        ensures
            args.deep_view() == server_arguments(
                self@.config.local_port,
                self@.cli.secure,
                self@.config.users,
                self@.directory,
            ),
    {
        server_args(
            self.config.local_port,
            self.cli.secure,
            &self.config.users,
            self.directory.as_str(),
        )
    }

    /// Adds users, given as names with passwords. The passwords are hashed
    /// at once. Where the longer list would break a rule, nothing is added
    /// and the rule comes back.
    pub fn add_users(&mut self, entries: &Vec<(String, String)>) -> (result: Result<
        (),
        ConfigError,
    >)
        ensures
            final(self)@.wf(),
            match result {
                Ok(()) => final(self)@ == old(self)@.with_users(
                    old(self)@.config.users + hashed(entries.deep_view()),
                ),
                Err(e) => final(self)@ == old(self)@ && credential_error(
                    old(self)@.config.users + hashed(entries.deep_view()),
                ) == Some(e),
            },
    {
        proof {
            use_type_invariant(&*self);
        }
        let mut candidate = clone_users(&self.config.users);
        let mut fresh = hash_users(entries);
        let ghost added = fresh.deep_view();
        assert(candidate.deep_view() =~= self.config.users.deep_view());
        candidate.append(&mut fresh);
        assert(candidate.deep_view() =~= self.config.users.deep_view() + added);
        match check_credentials(&candidate) {
            Ok(()) => {
                self.config.users = candidate;
                Ok(())
            },
            Err(e) => Err(e),
        }
    }

    /// Takes the step for `event`, with the cancellation flag read as
    /// `cancel`.
    pub fn advance(&mut self, event: Event, cancel: bool) -> (action: Action)
        ensures
            final(self)@ == old(self)@.after(event, cancel),
            action == old(self)@.answer(event, cancel),
            final(self)@.wf(),
    {
        proof {
            use_type_invariant(&*self);
        }
        let env = Env { cancel, has_users: self.config.users.len() > 0 };
        let (next, action) = self.machine.advance(event, env);
        match event {
            Event::CommandFinished(outcome) => {
                if self.machine.state == RunState::RunningPreCommands && self.machine.finished
                    < self.machine.commands {
                    let mut log: Vec<CommandOutcome> = Vec::new();
                    std::mem::swap(&mut self.outcomes, &mut log);
                    log.push(outcome);
                    self.outcomes = log;
                }
            },
            _ => {},
        }
        self.machine = next;
        action
    }

    /// Advances the run by one event and names the next step. A round of
    /// monitoring reads the cancellation flag, once, after the session and
    /// the served process have been looked at; what it finds there decides
    /// between going on and shutting down, and nothing else does. Once
    /// shutdown has begun the run is over: events are then for `close`.
    pub fn run(&mut self, event: Event) -> (action: Action)
        ensures
            final(self)@.wf(),
            old(self)@.closing() ==> final(self)@ == old(self)@ && action == Action::Ignored,
            !old(self)@.closing() ==> exists|cancel: bool|
                final(self)@ == old(self)@.after(event, cancel) && action == old(self)@.answer(
                    event,
                    cancel,
                ),
            !old(self)@.closing() && !old(self)@.flag_decides(event) ==> final(self)@ == old(
                self,
            )@.after(event, false) && action == old(self)@.answer(event, false),
    {
        proof {
            use_type_invariant(&*self);
        }
        match self.machine.state {
            RunState::ShuttingDown | RunState::Closed => Action::Ignored,
            RunState::Monitoring => {
                let cancel = match event {
                    Event::Observed(_, _) => cancellation_requested(&self.should_end),
                    _ => false,
                };
                self.advance(event, cancel)
            },
            _ => self.advance(event, false),
        }
    }

    /// Advances the shutdown by one event and names the next step. Before
    /// shutdown has begun there is nothing to close.
    pub fn close(&mut self, event: Event) -> (action: Action)
        ensures
            final(self)@.wf(),
            old(self)@.closing() ==> final(self)@ == old(self)@.after(event, false) && action
                == old(self)@.answer(event, false),
            !old(self)@.closing() ==> final(self)@ == old(self)@ && action == Action::Ignored,
    {
        proof {
            use_type_invariant(&*self);
        }
        match self.machine.state {
            RunState::ShuttingDown | RunState::Closed => self.advance(event, false),
            _ => Action::Ignored,
        }
    }
}

} // verus!
