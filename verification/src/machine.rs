//! The orchestrator's state machine: which outside step a run takes next,
//! given what the last one reported.
//!
//! The machine performs nothing. Each call takes an event (the result of
//! the step that the driver has just performed) and answers with the next
//! state and the step to perform now.

use vstd::prelude::*;

verus! {

/// Seconds between two looks at the session and the served process.
pub const POLL_INTERVAL_SECS: u64 = 1;

/// The phase a run is in.
#[derive(Clone, Copy, Debug, PartialEq, Eq, Structural)]
pub enum RunState {
    /// Nothing has been started.
    Idle,
    /// The commands that precede the connection are being run.
    RunningPreCommands,
    /// The remote session is being opened.
    Connecting,
    /// The session is open; credentials are collected where they are
    /// called for, then the port forward is requested.
    Forwarding,
    /// The forward stands; the file server is being started.
    Serving,
    /// Everything is up and is looked at once per interval.
    Monitoring,
    /// The served process is being stopped, then the session closed.
    ShuttingDown,
    /// Everything has been released.
    Closed,
    /// The session could not be opened. Final.
    ConnectFailed,
    /// The port forward was refused. Final.
    ForwardFailed,
    /// The file server could not be started. Final.
    SpawnFailed,
}

/// Why a run is shutting down.
#[derive(Clone, Copy, Debug, PartialEq, Eq, Structural)]
pub enum ShutdownReason {
    /// Shutdown has not begun.
    NotRequested,
    /// The remote session was found dead.
    SessionDied,
    /// The cancellation flag was found set.
    UserRequested,
}

/// What a liveness check of the remote session found.
#[derive(Clone, Copy, Debug, PartialEq, Eq, Structural)]
pub enum SessionHealth {
    Alive,
    Dead,
}

/// What a look at the served process found.
#[derive(Clone, Copy, Debug, PartialEq, Eq, Structural)]
pub enum ProcessStatus {
    Running,
    ExitedOk,
    ExitedError(i32),
    PollError,
}

/// How one command that precedes the connection ended.
#[derive(Clone, Copy, Debug, PartialEq, Eq, Structural)]
pub enum CommandOutcome {
    /// It ran and exited with status 0.
    Succeeded,
    /// It ran and exited with this other status.
    Failed(i32),
    /// It ran and was ended by a signal.
    Killed,
    /// It could not be started.
    LaunchFailed,
}

/// The kinds of failure a run knows.
#[derive(Clone, Copy, Debug, PartialEq, Eq, Structural)]
pub enum TunnelError {
    /// The configuration is invalid or incomplete.
    Config,
    /// The session could not be opened.
    Connection,
    /// The port forward was refused.
    Forward,
    /// The file server could not be started.
    Spawn,
    /// The session or the served process was found dead while monitored.
    Liveness,
    /// Reaping the process or closing the session failed.
    Shutdown,
}

/// What the driver reports.
#[derive(Clone, Copy, Debug, PartialEq, Eq, Structural)]
pub enum Event {
    /// The run is to begin.
    Start,
    /// The command that was asked for has been attempted.
    CommandFinished(CommandOutcome),
    /// The session is open.
    Connected,
    /// The session could not be opened.
    ConnectionFailed,
    /// The operator has been asked for credentials.
    CredentialsCollected,
    /// The remote side has granted the port forward.
    ForwardGranted,
    /// The remote side has refused the port forward.
    ForwardRejected,
    /// The file server is running.
    Spawned,
    /// The file server could not be started.
    SpawnFailed,
    /// The session and the served process have been looked at, in this
    /// order.
    Observed(SessionHealth, ProcessStatus),
    /// The served process has been told to end and waited for; `true`
    /// where its exit status was collected.
    Reaped(bool),
    /// The session has been closed; `true` where that went without error.
    SessionClosed(bool),
}

/// What the driver is to do next.
#[derive(Clone, Copy, Debug, PartialEq, Eq, Structural)]
pub enum Action {
    /// Run the command with this index and report how it ended.
    RunCommand(usize),
    /// Open the remote session.
    Connect,
    /// Ask the operator for credentials; at least one where `required`.
    CollectCredentials { required: bool },
    /// Request the reverse port forward.
    RequestPortForward,
    /// Start the file server.
    SpawnServer,
    /// Wait this many seconds, then check the session and poll the
    /// served process.
    Poll { delay_secs: u64 },
    /// End the served process and wait until it has exited.
    TerminateAndReap,
    /// Close the remote session.
    CloseSession,
    /// Nothing is left to do.
    Done,
    /// Report this failure and end the run.
    Fail(TunnelError),
    /// The event did not fit the state and changed nothing.
    Ignored,
}

/// What a step reads from its surroundings.
#[derive(Clone, Copy, Debug, PartialEq, Eq, Structural)]
pub struct Env {
    /// The cancellation flag is set.
    pub cancel: bool,
    /// At least one credential is configured.
    pub has_users: bool,
}

/// The control state of one run.
#[derive(Clone, Copy, Debug, PartialEq, Eq, Structural)]
pub struct Machine {
    pub state: RunState,
    /// How many commands precede the connection.
    pub commands: usize,
    /// How many of them have been attempted.
    pub finished: usize,
    /// Whether serving asks for a name and password.
    pub secure: bool,
    /// Whether the credential gate lies behind.
    pub gate_passed: bool,
    /// Whether the served process has been terminated and reaped.
    pub reaped: bool,
    pub reason: ShutdownReason,
    /// The last status of the served process that was recorded:
    /// `Running` until it was seen otherwise.
    pub served: ProcessStatus,
    /// Whether reaping the served process failed.
    pub reap_failed: bool,
    /// Whether closing the session failed.
    pub close_failed: bool,
}

impl TunnelError {
    /// Whether a failure of this kind ends the run at once. Failures while
    /// monitoring lead to an orderly shutdown, and failures during shutdown
    /// are noted and passed over.
    pub open spec fn fatal(self) -> bool {
        !(self is Liveness || self is Shutdown)
    }

    /// The cause, in words for the operator.
    pub open spec fn message_text(self) -> Seq<char> {
        match self {
            TunnelError::Config => "The configuration is invalid"@,
            TunnelError::Connection => "Couldn't establish SSH connection"@,
            TunnelError::Forward => "Couldn't start the port-forward"@,
            TunnelError::Spawn => "Couldn't spawn miniserve"@,
            TunnelError::Liveness => "SSH Forward died! Closing livetunnel."@,
            TunnelError::Shutdown => "Could not close livetunnel cleanly"@,
        }
    }

    /// The cause, in words for the operator.
    pub fn message(self) -> (text: &'static str)
        ensures
            text@ == self.message_text(),
    {
        match self {
            TunnelError::Config => "The configuration is invalid",
            TunnelError::Connection => "Couldn't establish SSH connection",
            TunnelError::Forward => "Couldn't start the port-forward",
            TunnelError::Spawn => "Couldn't spawn miniserve",
            TunnelError::Liveness => "SSH Forward died! Closing livetunnel.",
            TunnelError::Shutdown => "Could not close livetunnel cleanly",
        }
    }

    pub fn is_fatal(self) -> (fatal: bool)
        ensures
            fatal == self.fatal(),
    {
        match self {
            TunnelError::Liveness | TunnelError::Shutdown => false,
            _ => true,
        }
    }
}

impl RunState {
    /// The place of a phase in the order in which a run passes through
    /// them. The three failures come last: nothing follows them.
    pub open spec fn rank(self) -> nat {
        match self {
            RunState::Idle => 0,
            RunState::RunningPreCommands => 1,
            RunState::Connecting => 2,
            RunState::Forwarding => 3,
            RunState::Serving => 4,
            RunState::Monitoring => 5,
            RunState::ShuttingDown => 6,
            RunState::Closed => 7,
            RunState::ConnectFailed => 8,
            RunState::ForwardFailed => 9,
            RunState::SpawnFailed => 10,
        }
    }

    /// A state that no event leaves.
    pub open spec fn terminal(self) -> bool {
        self is Closed || self is ConnectFailed || self is ForwardFailed || self is SpawnFailed
    }

    pub fn is_terminal(self) -> (terminal: bool)
        ensures
            terminal == self.terminal(),
    {
        match self {
            RunState::Closed
            | RunState::ConnectFailed
            | RunState::ForwardFailed
            | RunState::SpawnFailed => true,
            _ => false,
        }
    }
}

impl Machine {
    /// The machine before anything has happened.
    pub open spec fn initial(commands: usize, secure: bool) -> Machine {
        Machine {
            state: RunState::Idle,
            commands,
            finished: 0,
            secure,
            gate_passed: false,
            reaped: false,
            reason: ShutdownReason::NotRequested,
            served: ProcessStatus::Running,
            reap_failed: false,
            close_failed: false,
        }
    }

    /// What holds of the machine in every state that a run can reach: the
    /// commands are counted up to their number and are done once the
    /// connection is tried; the credential gate lies behind once the
    /// forward stands; and nothing of a shutdown is recorded before it
    /// begins, while a closed run has reaped its process.
    pub open spec fn wf(self) -> bool {
        &&& self.finished <= self.commands
        &&& self.state is Idle ==> self.finished == 0
        &&& self.state is RunningPreCommands ==> self.finished < self.commands
        &&& self.state.rank() >= RunState::Connecting.rank() ==> self.finished == self.commands
        &&& self.state.rank() < RunState::Forwarding.rank() || self.state is ConnectFailed
            ==> !self.gate_passed
        &&& self.state.rank() >= RunState::Serving.rank() && !(self.state is ConnectFailed)
            ==> self.gate_passed
        &&& !self.secure && self.state is Forwarding ==> self.gate_passed
        &&& !(self.state is Monitoring || self.state is ShuttingDown || self.state is Closed)
            ==> self.served is Running
        &&& self.before_shutdown() ==> {
            &&& !self.reaped
            &&& self.reason is NotRequested
            &&& !self.reap_failed
            &&& !self.close_failed
        }
        &&& !self.before_shutdown() ==> !(self.reason is NotRequested)
        &&& self.state is Closed ==> self.reaped
        &&& !self.reaped ==> !self.reap_failed
        &&& !(self.state is Closed) ==> !self.close_failed
    }

    /// Whether shutdown has not begun: every state but `ShuttingDown` and
    /// `Closed`.
    pub open spec fn before_shutdown(self) -> bool {
        !(self.state is ShuttingDown || self.state is Closed)
    }

    /// Where the commands stand: the next one, or the connection once all
    /// have been attempted.
    pub open spec fn proceed(self) -> (Machine, Action) {
        if self.finished < self.commands {
            (Machine { state: RunState::RunningPreCommands, ..self }, Action::RunCommand(self.finished))
        } else {
            (Machine { state: RunState::Connecting, ..self }, Action::Connect)
        }
    }

    /// The machine with one more command attempted.
    pub open spec fn count_command(self) -> Machine {
        if self.finished < self.commands {
            Machine { finished: (self.finished + 1) as usize, ..self }
        } else {
            self
        }
    }

    /// What follows an open session: the credential gate where serving
    /// is secure, the forward request elsewhere.
    pub open spec fn enter_forwarding(self, env: Env) -> (Machine, Action) {
        if self.secure {
            (
                Machine { state: RunState::Forwarding, gate_passed: false, ..self },
                Action::CollectCredentials { required: !env.has_users },
            )
        } else {
            (
                Machine { state: RunState::Forwarding, gate_passed: true, ..self },
                Action::RequestPortForward,
            )
        }
    }

    /// Credentials are asked for until one exists; then the forward is
    /// requested.
    pub open spec fn pass_gate(self, env: Env) -> (Machine, Action) {
        if env.has_users {
            (Machine { gate_passed: true, ..self }, Action::RequestPortForward)
        } else {
            (self, Action::CollectCredentials { required: true })
        }
    }

    /// The machine as shutdown begins.
    pub open spec fn begin_shutdown(self, reason: ShutdownReason) -> (Machine, Action) {
        (Machine { state: RunState::ShuttingDown, reason, ..self }, Action::TerminateAndReap)
    }

    /// One round of monitoring. A dead session comes first and begins
    /// shutdown. Otherwise an exit of the served process is recorded and
    /// the run goes on, unless cancellation was asked for.
    pub open spec fn monitor(self, health: SessionHealth, process: ProcessStatus, env: Env) -> (
        Machine,
        Action,
    ) {
        if health is Dead {
            self.begin_shutdown(ShutdownReason::SessionDied)
        } else {
            let seen = if process is Running {
                self
            } else {
                Machine { served: process, ..self }
            };
            if env.cancel {
                seen.begin_shutdown(ShutdownReason::UserRequested)
            } else {
                (seen, Action::Poll { delay_secs: POLL_INTERVAL_SECS })
            }
        }
    }

    /// The transition function: the state and the action that follow
    /// `event` in this state. An event that does not fit changes nothing.
    pub open spec fn step(self, event: Event, env: Env) -> (Machine, Action) {
        match self.state {
            RunState::Idle => match event {
                Event::Start => self.proceed(),
                _ => (self, Action::Ignored),
            },
            RunState::RunningPreCommands => match event {
                Event::CommandFinished(_) => self.count_command().proceed(),
                _ => (self, Action::Ignored),
            },
            RunState::Connecting => match event {
                Event::Connected => self.enter_forwarding(env),
                Event::ConnectionFailed => (
                    Machine { state: RunState::ConnectFailed, ..self },
                    Action::Fail(TunnelError::Connection),
                ),
                _ => (self, Action::Ignored),
            },
            RunState::Forwarding => match event {
                Event::CredentialsCollected => if self.gate_passed {
                    (self, Action::Ignored)
                } else {
                    self.pass_gate(env)
                },
                Event::ForwardGranted => if self.gate_passed {
                    (Machine { state: RunState::Serving, ..self }, Action::SpawnServer)
                } else {
                    (self, Action::Ignored)
                },
                Event::ForwardRejected => if self.gate_passed {
                    (
                        Machine { state: RunState::ForwardFailed, ..self },
                        Action::Fail(TunnelError::Forward),
                    )
                } else {
                    (self, Action::Ignored)
                },
                _ => (self, Action::Ignored),
            },
            RunState::Serving => match event {
                Event::Spawned => (
                    Machine { state: RunState::Monitoring, ..self },
                    Action::Poll { delay_secs: 0 },
                ),
                Event::SpawnFailed => (
                    Machine { state: RunState::SpawnFailed, ..self },
                    Action::Fail(TunnelError::Spawn),
                ),
                _ => (self, Action::Ignored),
            },
            RunState::Monitoring => match event {
                Event::Observed(health, process) => self.monitor(health, process, env),
                _ => (self, Action::Ignored),
            },
            RunState::ShuttingDown => match event {
                Event::Reaped(ok) => if self.reaped {
                    (self, Action::Ignored)
                } else {
                    (Machine { reaped: true, reap_failed: !ok, ..self }, Action::CloseSession)
                },
                Event::SessionClosed(ok) => if self.reaped {
                    (Machine { state: RunState::Closed, close_failed: !ok, ..self }, Action::Done)
                } else {
                    (self, Action::Ignored)
                },
                _ => (self, Action::Ignored),
            },
            RunState::Closed => (self, Action::Done),
            RunState::ConnectFailed | RunState::ForwardFailed | RunState::SpawnFailed => (
                self,
                Action::Ignored,
            ),
        }
    }

    /// The outcome that `event` adds to the record of attempted commands.
    pub open spec fn recorded(self, event: Event) -> Option<CommandOutcome> {
        match event {
            Event::CommandFinished(outcome) => if self.state is RunningPreCommands && self.finished
                < self.commands {
                Some(outcome)
            } else {
                None
            },
            _ => None,
        }
    }

    /// The failure that the machine has met, if any: the one that ended the
    /// run; or else that reaping or closing failed; or else that the
    /// session or the served process was found dead.
    pub open spec fn failure(self) -> Option<TunnelError> {
        if self.state is ConnectFailed {
            Some(TunnelError::Connection)
        } else if self.state is ForwardFailed {
            Some(TunnelError::Forward)
        } else if self.state is SpawnFailed {
            Some(TunnelError::Spawn)
        } else if self.reap_failed || self.close_failed {
            Some(TunnelError::Shutdown)
        } else if self.reason is SessionDied || !(self.served is Running) {
            Some(TunnelError::Liveness)
        } else {
            None
        }
    }

    /// The measure of how far a run has come. No step lowers it.
    pub open spec fn progress(self) -> nat {
        4 * self.state.rank() + if self.state is Forwarding && self.gate_passed {
            2nat
        } else {
            0nat
        } + if self.state is ShuttingDown && self.reaped {
            1nat
        } else {
            0nat
        }
    }

    /// The failure that the machine has met, if any.
    pub fn error(self) -> (error: Option<TunnelError>)
        ensures
            error == self.failure(),
    {
        match self.state {
            RunState::ConnectFailed => Some(TunnelError::Connection),
            RunState::ForwardFailed => Some(TunnelError::Forward),
            RunState::SpawnFailed => Some(TunnelError::Spawn),
            _ => {
                if self.reap_failed || self.close_failed {
                    Some(TunnelError::Shutdown)
                } else {
                    match (self.reason, self.served) {
                        (ShutdownReason::SessionDied, _) => Some(TunnelError::Liveness),
                        (_, ProcessStatus::Running) => None,
                        _ => Some(TunnelError::Liveness),
                    }
                }
            },
        }
    }

    /// A machine for a run with this many commands before the connection.
    pub fn new(commands: usize, secure: bool) -> (machine: Machine)
        ensures
            machine == Machine::initial(commands, secure),
            machine.wf(),
    {
        Machine {
            state: RunState::Idle,
            commands,
            finished: 0,
            secure,
            gate_passed: false,
            reaped: false,
            reason: ShutdownReason::NotRequested,
            served: ProcessStatus::Running,
            reap_failed: false,
            close_failed: false,
        }
    }

    fn go_on(self) -> (next: (Machine, Action))
        ensures
            next == self.proceed(),
    {
        if self.finished < self.commands {
            (Machine { state: RunState::RunningPreCommands, ..self }, Action::RunCommand(self.finished))
        } else {
            (Machine { state: RunState::Connecting, ..self }, Action::Connect)
        }
    }

    fn shut_down(self, reason: ShutdownReason) -> (next: (Machine, Action))
        ensures
            next == self.begin_shutdown(reason),
    {
        (Machine { state: RunState::ShuttingDown, reason, ..self }, Action::TerminateAndReap)
    }

    fn look(self, health: SessionHealth, process: ProcessStatus, env: Env) -> (next: (
        Machine,
        Action,
    ))
        ensures
            next == self.monitor(health, process, env),
    {
        match health {
            SessionHealth::Dead => self.shut_down(ShutdownReason::SessionDied),
            SessionHealth::Alive => {
                let seen = match process {
                    ProcessStatus::Running => self,
                    _ => Machine { served: process, ..self },
                };
                if env.cancel {
                    seen.shut_down(ShutdownReason::UserRequested)
                } else {
                    (seen, Action::Poll { delay_secs: POLL_INTERVAL_SECS })
                }
            },
        }
    }

    /// Takes one step: the state and the action that follow `event`.
    pub fn advance(self, event: Event, env: Env) -> (next: (Machine, Action))
        ensures
            next == self.step(event, env),
            next.0.commands == self.commands,
            next.0.secure == self.secure,
            self.wf() ==> next.0.wf(),
            next.0.state.rank() >= self.state.rank(),
    {
        match self.state {
            RunState::Idle => match event {
                Event::Start => self.go_on(),
                _ => (self, Action::Ignored),
            },
            RunState::RunningPreCommands => match event {
                Event::CommandFinished(_) => {
                    let counted = if self.finished < self.commands {
                        Machine { finished: self.finished + 1, ..self }
                    } else {
                        self
                    };
                    counted.go_on()
                },
                _ => (self, Action::Ignored),
            },
            RunState::Connecting => match event {
                Event::Connected => {
                    if self.secure {
                        (
                            Machine { state: RunState::Forwarding, gate_passed: false, ..self },
                            Action::CollectCredentials { required: !env.has_users },
                        )
                    } else {
                        (
                            Machine { state: RunState::Forwarding, gate_passed: true, ..self },
                            Action::RequestPortForward,
                        )
                    }
                },
                Event::ConnectionFailed => (
                    Machine { state: RunState::ConnectFailed, ..self },
                    Action::Fail(TunnelError::Connection),
                ),
                _ => (self, Action::Ignored),
            },
            RunState::Forwarding => match event {
                Event::CredentialsCollected => {
                    if self.gate_passed {
                        (self, Action::Ignored)
                    } else if env.has_users {
                        (Machine { gate_passed: true, ..self }, Action::RequestPortForward)
                    } else {
                        (self, Action::CollectCredentials { required: true })
                    }
                },
                Event::ForwardGranted => {
                    if self.gate_passed {
                        (Machine { state: RunState::Serving, ..self }, Action::SpawnServer)
                    } else {
                        (self, Action::Ignored)
                    }
                },
                Event::ForwardRejected => {
                    if self.gate_passed {
                        (
                            Machine { state: RunState::ForwardFailed, ..self },
                            Action::Fail(TunnelError::Forward),
                        )
                    } else {
                        (self, Action::Ignored)
                    }
                },
                _ => (self, Action::Ignored),
            },
            RunState::Serving => match event {
                Event::Spawned => (
                    Machine { state: RunState::Monitoring, ..self },
                    Action::Poll { delay_secs: 0 },
                ),
                Event::SpawnFailed => (
                    Machine { state: RunState::SpawnFailed, ..self },
                    Action::Fail(TunnelError::Spawn),
                ),
                _ => (self, Action::Ignored),
            },
            RunState::Monitoring => match event {
                Event::Observed(health, process) => self.look(health, process, env),
                _ => (self, Action::Ignored),
            },
            RunState::ShuttingDown => match event {
                Event::Reaped(ok) => {
                    if self.reaped {
                        (self, Action::Ignored)
                    } else {
                        (Machine { reaped: true, reap_failed: !ok, ..self }, Action::CloseSession)
                    }
                },
                Event::SessionClosed(ok) => {
                    if self.reaped {
                        (
                            Machine { state: RunState::Closed, close_failed: !ok, ..self },
                            Action::Done,
                        )
                    } else {
                        (self, Action::Ignored)
                    }
                },
                _ => (self, Action::Ignored),
            },
            RunState::Closed => (self, Action::Done),
            RunState::ConnectFailed | RunState::ForwardFailed | RunState::SpawnFailed => (
                self,
                Action::Ignored,
            ),
        }
    }
}

} // verus!
