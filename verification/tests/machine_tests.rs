use livetunnel::machine::{
    Action, CommandOutcome, Env, Event, Machine, ProcessStatus, RunState, SessionHealth,
    ShutdownReason, TunnelError, POLL_INTERVAL_SECS,
};

const QUIET: Env = Env { cancel: false, has_users: false };
const CANCEL: Env = Env { cancel: true, has_users: false };
const USERS: Env = Env { cancel: false, has_users: true };

fn all_events() -> Vec<Event> {
    vec![
        Event::Start,
        Event::CommandFinished(CommandOutcome::Succeeded),
        Event::CommandFinished(CommandOutcome::Failed(1)),
        Event::Connected,
        Event::ConnectionFailed,
        Event::CredentialsCollected,
        Event::ForwardGranted,
        Event::ForwardRejected,
        Event::Spawned,
        Event::SpawnFailed,
        Event::Observed(SessionHealth::Alive, ProcessStatus::Running),
        Event::Observed(SessionHealth::Dead, ProcessStatus::Running),
        Event::Reaped(true),
        Event::Reaped(false),
        Event::SessionClosed(true),
        Event::SessionClosed(false),
    ]
}

fn drive(mut m: Machine, events: &[Event], env: Env) -> (Machine, Vec<Action>) {
    let mut actions = Vec::new();
    for e in events {
        let (next, action) = m.advance(*e, env);
        m = next;
        actions.push(action);
    }
    (m, actions)
}

fn monitoring() -> Machine {
    let (m, _) = drive(
        Machine::new(0, false),
        &[Event::Start, Event::Connected, Event::ForwardGranted, Event::Spawned],
        QUIET,
    );
    assert_eq!(m.state, RunState::Monitoring);
    m
}

fn rank(state: RunState) -> u8 {
    match state {
        RunState::Idle => 0,
        RunState::RunningPreCommands => 1,
        RunState::Connecting => 2,
        RunState::Forwarding => 3,
        RunState::Serving => 4,
        RunState::Monitoring => 5,
        RunState::ShuttingDown => 6,
        RunState::Closed => 7,
        RunState::ConnectFailed => 8,
        RunState::ForwardFailed => 9,
        RunState::SpawnFailed => 10,
    }
}

#[test]
fn a_new_machine_is_idle() {
    let m = Machine::new(3, true);
    assert_eq!(m.state, RunState::Idle);
    assert_eq!(m.commands, 3);
    assert_eq!(m.finished, 0);
    assert!(m.secure);
    assert!(!m.gate_passed);
    assert!(!m.reaped);
    assert_eq!(m.reason, ShutdownReason::NotRequested);
    assert_eq!(m.served, ProcessStatus::Running);
    assert!(!m.reap_failed);
    assert!(!m.close_failed);
}

#[test]
fn the_polling_interval_is_one_second() {
    assert_eq!(POLL_INTERVAL_SECS, 1);
}

#[test]
fn a_run_without_commands_connects_first() {
    let (m, action) = Machine::new(0, false).advance(Event::Start, QUIET);
    assert_eq!(m.state, RunState::Connecting);
    assert_eq!(action, Action::Connect);
}

#[test]
fn a_plain_run_from_start_to_closed() {
    let events = [
        Event::Start,
        Event::CommandFinished(CommandOutcome::Succeeded),
        Event::Connected,
        Event::ForwardGranted,
        Event::Spawned,
        Event::Observed(SessionHealth::Alive, ProcessStatus::Running),
    ];
    let (m, actions) = drive(Machine::new(1, false), &events, QUIET);
    assert_eq!(
        actions,
        vec![
            Action::RunCommand(0),
            Action::Connect,
            Action::RequestPortForward,
            Action::SpawnServer,
            Action::Poll { delay_secs: 0 },
            Action::Poll { delay_secs: 1 },
        ]
    );
    assert_eq!(m.state, RunState::Monitoring);
    let (m, actions) = drive(
        m,
        &[
            Event::Observed(SessionHealth::Alive, ProcessStatus::Running),
            Event::Reaped(true),
            Event::SessionClosed(true),
        ],
        CANCEL,
    );
    assert_eq!(actions, vec![Action::TerminateAndReap, Action::CloseSession, Action::Done]);
    assert_eq!(m.state, RunState::Closed);
    assert_eq!(m.reason, ShutdownReason::UserRequested);
    assert!(m.reaped);
    assert!(!m.reap_failed);
    assert!(!m.close_failed);
}

#[test]
fn a_failed_second_command_does_not_stop_the_third() {
    let events = [
        Event::Start,
        Event::CommandFinished(CommandOutcome::Succeeded),
        Event::CommandFinished(CommandOutcome::Failed(2)),
        Event::CommandFinished(CommandOutcome::Succeeded),
    ];
    let (m, actions) = drive(Machine::new(3, false), &events, QUIET);
    assert_eq!(
        actions,
        vec![Action::RunCommand(0), Action::RunCommand(1), Action::RunCommand(2), Action::Connect]
    );
    assert_eq!(m.state, RunState::Connecting);
    assert_eq!(m.finished, 3);
}

#[test]
fn no_outcome_stops_the_commands() {
    for outcome in [
        CommandOutcome::Succeeded,
        CommandOutcome::Failed(1),
        CommandOutcome::Killed,
        CommandOutcome::LaunchFailed,
    ] {
        let events = [Event::Start, Event::CommandFinished(outcome), Event::CommandFinished(outcome)];
        let (m, actions) = drive(Machine::new(2, false), &events, QUIET);
        assert_eq!(actions, vec![Action::RunCommand(0), Action::RunCommand(1), Action::Connect]);
        assert_eq!(m.state, RunState::Connecting);
    }
}

#[test]
fn a_refused_connection_is_final() {
    let (m, actions) = drive(Machine::new(0, false), &[Event::Start, Event::ConnectionFailed], QUIET);
    assert_eq!(actions[1], Action::Fail(TunnelError::Connection));
    assert_eq!(m.state, RunState::ConnectFailed);
    for e in all_events() {
        assert_eq!(m.advance(e, CANCEL), (m, Action::Ignored));
    }
}

#[test]
fn a_refused_forward_is_final() {
    let (m, actions) = drive(
        Machine::new(0, false),
        &[Event::Start, Event::Connected, Event::ForwardRejected],
        QUIET,
    );
    assert_eq!(actions[2], Action::Fail(TunnelError::Forward));
    assert_eq!(m.state, RunState::ForwardFailed);
    for e in all_events() {
        assert_eq!(m.advance(e, CANCEL), (m, Action::Ignored));
    }
}

#[test]
fn a_failed_spawn_is_final() {
    let (m, actions) = drive(
        Machine::new(0, false),
        &[Event::Start, Event::Connected, Event::ForwardGranted, Event::SpawnFailed],
        QUIET,
    );
    assert_eq!(actions[3], Action::Fail(TunnelError::Spawn));
    assert_eq!(m.state, RunState::SpawnFailed);
    for e in all_events() {
        assert_eq!(m.advance(e, CANCEL), (m, Action::Ignored));
    }
}

#[test]
fn secure_serving_without_users_asks_until_one_exists() {
    let (m, actions) = drive(Machine::new(0, true), &[Event::Start, Event::Connected], QUIET);
    assert_eq!(actions[1], Action::CollectCredentials { required: true });
    assert_eq!(m.state, RunState::Forwarding);
    assert!(!m.gate_passed);
    let (m, action) = m.advance(Event::CredentialsCollected, QUIET);
    assert_eq!(action, Action::CollectCredentials { required: true });
    assert!(!m.gate_passed);
    assert_eq!(m.advance(Event::ForwardGranted, QUIET), (m, Action::Ignored));
    let (m, action) = m.advance(Event::CredentialsCollected, USERS);
    assert_eq!(action, Action::RequestPortForward);
    assert!(m.gate_passed);
    assert_eq!(m.state, RunState::Forwarding);
    let (m, action) = m.advance(Event::ForwardGranted, USERS);
    assert_eq!(action, Action::SpawnServer);
    assert_eq!(m.state, RunState::Serving);
}

#[test]
fn secure_serving_with_users_offers_to_add_more() {
    let (m, actions) = drive(Machine::new(0, true), &[Event::Start, Event::Connected], USERS);
    assert_eq!(actions[1], Action::CollectCredentials { required: false });
    let (m, action) = m.advance(Event::CredentialsCollected, USERS);
    assert_eq!(action, Action::RequestPortForward);
    assert_eq!(m.advance(Event::CredentialsCollected, USERS), (m, Action::Ignored));
}

#[test]
fn open_serving_skips_the_credentials() {
    let (m, actions) = drive(Machine::new(0, false), &[Event::Start, Event::Connected], QUIET);
    assert_eq!(actions[1], Action::RequestPortForward);
    assert!(m.gate_passed);
    assert_eq!(m.advance(Event::CredentialsCollected, USERS), (m, Action::Ignored));
}

#[test]
fn a_dead_session_shuts_down_at_once() {
    let m = monitoring();
    let (m, action) =
        m.advance(Event::Observed(SessionHealth::Dead, ProcessStatus::Running), QUIET);
    assert_eq!(action, Action::TerminateAndReap);
    assert_eq!(m.state, RunState::ShuttingDown);
    assert_eq!(m.reason, ShutdownReason::SessionDied);
    let (m, action) = m.advance(Event::Reaped(true), QUIET);
    assert_eq!(action, Action::CloseSession);
    let (m, action) = m.advance(Event::SessionClosed(true), QUIET);
    assert_eq!(action, Action::Done);
    assert_eq!(m.state, RunState::Closed);
}

#[test]
fn a_dead_session_comes_before_cancellation() {
    let (m, _) = monitoring()
        .advance(Event::Observed(SessionHealth::Dead, ProcessStatus::ExitedError(1)), CANCEL);
    assert_eq!(m.reason, ShutdownReason::SessionDied);
    assert_eq!(m.served, ProcessStatus::Running);
}

#[test]
fn an_exit_of_the_served_process_is_recorded_and_the_run_goes_on() {
    let m = monitoring();
    let (m, action) =
        m.advance(Event::Observed(SessionHealth::Alive, ProcessStatus::ExitedError(3)), QUIET);
    assert_eq!(action, Action::Poll { delay_secs: POLL_INTERVAL_SECS });
    assert_eq!(m.state, RunState::Monitoring);
    assert_eq!(m.served, ProcessStatus::ExitedError(3));
    let (m, _) = m.advance(Event::Observed(SessionHealth::Alive, ProcessStatus::Running), QUIET);
    assert_eq!(m.served, ProcessStatus::ExitedError(3));
    let (m, action) =
        m.advance(Event::Observed(SessionHealth::Alive, ProcessStatus::PollError), QUIET);
    assert_eq!(action, Action::Poll { delay_secs: POLL_INTERVAL_SECS });
    assert_eq!(m.served, ProcessStatus::PollError);
    let (m, _) = m.advance(Event::Observed(SessionHealth::Alive, ProcessStatus::ExitedOk), QUIET);
    assert_eq!(m.served, ProcessStatus::ExitedOk);
    assert_eq!(m.state, RunState::Monitoring);
}

#[test]
fn cancellation_with_a_dead_process_still_reaps() {
    let (m, action) = monitoring()
        .advance(Event::Observed(SessionHealth::Alive, ProcessStatus::ExitedError(9)), CANCEL);
    assert_eq!(action, Action::TerminateAndReap);
    assert_eq!(m.state, RunState::ShuttingDown);
    assert_eq!(m.reason, ShutdownReason::UserRequested);
    assert_eq!(m.served, ProcessStatus::ExitedError(9));
}

#[test]
fn cancellation_is_seen_only_while_monitoring() {
    let events = [Event::Start, Event::Connected, Event::ForwardGranted, Event::Spawned];
    let (m, actions) = drive(Machine::new(0, false), &events, CANCEL);
    assert_eq!(
        actions,
        vec![
            Action::Connect,
            Action::RequestPortForward,
            Action::SpawnServer,
            Action::Poll { delay_secs: 0 }
        ]
    );
    assert_eq!(m.state, RunState::Monitoring);
}

#[test]
fn shutdown_goes_on_after_errors() {
    let (m, _) =
        monitoring().advance(Event::Observed(SessionHealth::Alive, ProcessStatus::Running), CANCEL);
    let (m, action) = m.advance(Event::Reaped(false), QUIET);
    assert_eq!(action, Action::CloseSession);
    assert!(m.reaped);
    assert!(m.reap_failed);
    let (m, action) = m.advance(Event::SessionClosed(false), QUIET);
    assert_eq!(action, Action::Done);
    assert_eq!(m.state, RunState::Closed);
    assert!(m.close_failed);
}

#[test]
fn the_session_is_not_closed_before_the_process_is_reaped() {
    let (m, _) =
        monitoring().advance(Event::Observed(SessionHealth::Alive, ProcessStatus::Running), CANCEL);
    assert_eq!(m.advance(Event::SessionClosed(true), QUIET), (m, Action::Ignored));
    let (m, _) = m.advance(Event::Reaped(true), QUIET);
    assert_eq!(m.advance(Event::Reaped(true), QUIET), (m, Action::Ignored));
}

#[test]
fn shutting_down_twice_is_shutting_down_once() {
    let (m, _) =
        monitoring().advance(Event::Observed(SessionHealth::Alive, ProcessStatus::Running), CANCEL);
    let (closed, _) = drive(m, &[Event::Reaped(true), Event::SessionClosed(true)], QUIET);
    assert_eq!(closed.state, RunState::Closed);
    let (again, actions) = drive(closed, &[Event::Reaped(false), Event::SessionClosed(false)], CANCEL);
    assert_eq!(again, closed);
    assert_eq!(actions, vec![Action::Done, Action::Done]);
}

#[test]
fn a_closed_run_answers_done_to_everything() {
    let (m, _) =
        monitoring().advance(Event::Observed(SessionHealth::Dead, ProcessStatus::Running), QUIET);
    let (closed, _) = drive(m, &[Event::Reaped(true), Event::SessionClosed(true)], QUIET);
    for e in all_events() {
        assert_eq!(closed.advance(e, CANCEL), (closed, Action::Done));
    }
}

#[test]
fn events_that_do_not_fit_change_nothing() {
    let idle = Machine::new(2, true);
    for e in all_events() {
        if e != Event::Start {
            assert_eq!(idle.advance(e, CANCEL), (idle, Action::Ignored));
        }
    }
    let m = monitoring();
    for e in all_events() {
        if !matches!(e, Event::Observed(_, _)) {
            assert_eq!(m.advance(e, CANCEL), (m, Action::Ignored));
        }
    }
}

#[test]
fn the_phases_never_go_back() {
    let mut frontier = vec![Machine::new(2, true), Machine::new(0, false)];
    let mut seen = frontier.clone();
    while let Some(m) = frontier.pop() {
        for e in all_events() {
            for env in [QUIET, CANCEL, USERS] {
                let (next, _) = m.advance(e, env);
                assert!(rank(next.state) >= rank(m.state));
                assert_eq!(next.commands, m.commands);
                assert_eq!(next.secure, m.secure);
                if m.state.is_terminal() {
                    assert_eq!(next, m);
                }
                if !seen.contains(&next) {
                    seen.push(next);
                    frontier.push(next);
                }
            }
        }
    }
    assert!(seen.iter().any(|m| m.state == RunState::Closed));
}

#[test]
fn in_every_run_the_steps_keep_their_order() {
    let events = all_events();
    let mut stack: Vec<(Machine, Vec<Action>, Vec<Event>)> =
        vec![(Machine::new(1, true), Vec::new(), Vec::new())];
    let mut runs = 0;
    while let Some((m, actions, past)) = stack.pop() {
        if past.len() == 9 || m.state.is_terminal() {
            runs += 1;
            let at = |a: Action| actions.iter().position(|x| *x == a);
            if let Some(f) = at(Action::RequestPortForward) {
                let c = at(Action::Connect).unwrap();
                let k = past.iter().position(|e| *e == Event::Connected).unwrap();
                assert!(c < k && k <= f);
            }
            if let Some(s) = at(Action::SpawnServer) {
                assert!(at(Action::RequestPortForward).unwrap() < s);
                assert_eq!(past[s], Event::ForwardGranted);
            }
            if let Some(c) = at(Action::CloseSession) {
                assert!(at(Action::TerminateAndReap).unwrap() < c);
                assert!(matches!(past[c], Event::Reaped(_)));
            }
            let terminations = actions.iter().filter(|a| **a == Action::TerminateAndReap).count();
            assert!(terminations <= 1);
            continue;
        }
        for e in &events {
            let (next, action) = m.advance(*e, Env { cancel: past.len() % 2 == 0, has_users: true });
            if action == Action::Ignored {
                continue;
            }
            let mut actions = actions.clone();
            actions.push(action);
            let mut past = past.clone();
            past.push(*e);
            stack.push((next, actions, past));
        }
    }
    assert!(runs > 10);
}

#[test]
fn which_errors_are_fatal() {
    assert!(TunnelError::Config.is_fatal());
    assert!(TunnelError::Connection.is_fatal());
    assert!(TunnelError::Forward.is_fatal());
    assert!(TunnelError::Spawn.is_fatal());
    assert!(!TunnelError::Liveness.is_fatal());
    assert!(!TunnelError::Shutdown.is_fatal());
}

#[test]
fn every_error_has_its_message() {
    assert_eq!(TunnelError::Connection.message(), "Couldn't establish SSH connection");
    assert_eq!(TunnelError::Spawn.message(), "Couldn't spawn miniserve");
    assert_eq!(TunnelError::Forward.message(), "Couldn't start the port-forward");
    assert_eq!(TunnelError::Liveness.message(), "SSH Forward died! Closing livetunnel.");
    assert_eq!(TunnelError::Shutdown.message(), "Could not close livetunnel cleanly");
    assert_eq!(TunnelError::Config.message(), "The configuration is invalid");
}

#[test]
fn which_states_are_terminal() {
    assert!(RunState::Closed.is_terminal());
    assert!(RunState::ConnectFailed.is_terminal());
    assert!(RunState::ForwardFailed.is_terminal());
    assert!(RunState::SpawnFailed.is_terminal());
    for s in [
        RunState::Idle,
        RunState::RunningPreCommands,
        RunState::Connecting,
        RunState::Forwarding,
        RunState::Serving,
        RunState::Monitoring,
        RunState::ShuttingDown,
    ] {
        assert!(!s.is_terminal());
    }
}

#[test]
fn the_failure_a_machine_has_met() {
    assert_eq!(Machine::new(0, false).error(), None);
    assert_eq!(monitoring().error(), None);
    let (m, _) = drive(Machine::new(0, false), &[Event::Start, Event::ConnectionFailed], QUIET);
    assert_eq!(m.error(), Some(TunnelError::Connection));
    let (m, _) = drive(
        Machine::new(0, false),
        &[Event::Start, Event::Connected, Event::ForwardRejected],
        QUIET,
    );
    assert_eq!(m.error(), Some(TunnelError::Forward));
    let (m, _) = drive(
        Machine::new(0, false),
        &[Event::Start, Event::Connected, Event::ForwardGranted, Event::SpawnFailed],
        QUIET,
    );
    assert_eq!(m.error(), Some(TunnelError::Spawn));
    let (m, _) =
        monitoring().advance(Event::Observed(SessionHealth::Alive, ProcessStatus::ExitedOk), QUIET);
    assert_eq!(m.error(), Some(TunnelError::Liveness));
    let (m, _) =
        monitoring().advance(Event::Observed(SessionHealth::Dead, ProcessStatus::Running), QUIET);
    assert_eq!(m.error(), Some(TunnelError::Liveness));
    let (m, _) = m.advance(Event::Reaped(false), QUIET);
    assert_eq!(m.error(), Some(TunnelError::Shutdown));
    let (m, _) =
        monitoring().advance(Event::Observed(SessionHealth::Alive, ProcessStatus::Running), CANCEL);
    let (m, _) = drive(m, &[Event::Reaped(true), Event::SessionClosed(true)], QUIET);
    assert_eq!(m.error(), None);
    let (m, _) =
        monitoring().advance(Event::Observed(SessionHealth::Alive, ProcessStatus::Running), CANCEL);
    let (m, _) = drive(m, &[Event::Reaped(true), Event::SessionClosed(false)], QUIET);
    assert_eq!(m.error(), Some(TunnelError::Shutdown));
}
