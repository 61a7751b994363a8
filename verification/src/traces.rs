//! Whole runs: what holds of every sequence of events that a driver may
//! report, whatever the outside world does.

use crate::machine::{
    Action, Env, Event, Machine, ProcessStatus, SessionHealth, POLL_INTERVAL_SECS,
};
use vstd::prelude::*;

verus! {

/// One step's input: the event and what the step reads besides.
pub struct Input {
    pub event: Event,
    pub env: Env,
}

/// The machine after the first `n` of `inputs`.
pub open spec fn state_at(start: Machine, inputs: Seq<Input>, n: nat) -> Machine
    decreases n,
{
    if n == 0 {
        start
    } else {
        let before = state_at(start, inputs, (n - 1) as nat);
        before.step(inputs[n - 1].event, inputs[n - 1].env).0
    }
}

/// The action that answers `inputs[i]`.
pub open spec fn action_at(start: Machine, inputs: Seq<Input>, i: int) -> Action {
    state_at(start, inputs, i as nat).step(inputs[i].event, inputs[i].env).1
}

/// The machine after shutdown has run its course from `m`: the process
/// reaped, then the session closed, each with the result given.
pub open spec fn shut(m: Machine, reaped_ok: bool, closed_ok: bool, env: Env) -> Machine {
    m.step(Event::Reaped(reaped_ok), env).0.step(Event::SessionClosed(closed_ok), env).0
}

/// A step keeps what the run was set up with and what holds of every
/// machine, and never leads back: the phases follow their order, and a
/// final state is left by no event.
pub proof fn lemma_step(m: Machine, event: Event, env: Env)
    ensures
        m.step(event, env).0.commands == m.commands,
        m.step(event, env).0.secure == m.secure,
        m.wf() ==> m.step(event, env).0.wf(),
        m.step(event, env).0.state.rank() >= m.state.rank(),
        m.state.terminal() ==> m.step(event, env).0 == m,
{
}

/// Every machine of a run from a well-formed start is well-formed.
pub proof fn lemma_run_wf(start: Machine, inputs: Seq<Input>, n: nat)
    requires
        start.wf(),
        n <= inputs.len(),
    ensures
        state_at(start, inputs, n).wf(),
        state_at(start, inputs, n).commands == start.commands,
        state_at(start, inputs, n).secure == start.secure,
    decreases n,
{
    if n > 0 {
        lemma_run_wf(start, inputs, (n - 1) as nat);
        lemma_step(state_at(start, inputs, (n - 1) as nat), inputs[n - 1].event, inputs[n - 1].env);
    }
}

/// Along a run the phases only move forward.
pub proof fn lemma_run_monotonic(start: Machine, inputs: Seq<Input>, i: nat, j: nat)
    requires
        i <= j <= inputs.len(),
    ensures
        state_at(start, inputs, i).state.rank() <= state_at(start, inputs, j).state.rank(),
    decreases j,
{
    if i < j {
        lemma_run_monotonic(start, inputs, i, (j - 1) as nat);
        lemma_step(state_at(start, inputs, (j - 1) as nat), inputs[j - 1].event, inputs[j - 1].env);
    }
}

/// No phase is entered again once it has been left: where a run is in one
/// phase at two moments, it is in that phase at every moment between.
pub proof fn lemma_no_phase_reentered(start: Machine, inputs: Seq<Input>, i: nat, j: nat, k: nat)
    requires
        i <= j <= k <= inputs.len(),
        state_at(start, inputs, i).state == state_at(start, inputs, k).state,
    ensures
        state_at(start, inputs, j).state == state_at(start, inputs, i).state,
{
    lemma_run_monotonic(start, inputs, i, j);
    lemma_run_monotonic(start, inputs, j, k);
}

/// A closed run stays closed: every event finds it unchanged and is
/// answered with `Done`.
pub proof fn lemma_closed_is_final(m: Machine, event: Event, env: Env)
    requires
        m.state is Closed,
    ensures
        m.step(event, env) == (m, Action::Done),
{
}

/// Shutdown always arrives. From `ShuttingDown`, whatever reaping and
/// closing report, the process is reaped first, the session closed second,
/// and the run is `Closed`. Failures are recorded and stop nothing.
pub proof fn lemma_shutdown_completes(m: Machine, reaped_ok: bool, closed_ok: bool, env: Env)
    requires
        m.wf(),
        m.state is ShuttingDown,
        !m.reaped,
    ensures
        m.step(Event::Reaped(reaped_ok), env).1 == Action::CloseSession,
        m.step(Event::Reaped(reaped_ok), env).0.step(Event::SessionClosed(closed_ok), env).1
            == Action::Done,
        shut(m, reaped_ok, closed_ok, env).state is Closed,
        shut(m, reaped_ok, closed_ok, env).reaped,
        shut(m, reaped_ok, closed_ok, env).reap_failed == !reaped_ok,
        shut(m, reaped_ok, closed_ok, env).close_failed == !closed_ok,
        shut(m, reaped_ok, closed_ok, env).reason == m.reason,
{
}

/// Shutting down twice is shutting down once. The second round finds the
/// run closed, leaves it as it is, and asks for nothing: the process that
/// has been reaped is not terminated again.
pub proof fn lemma_shutdown_idempotent(
    m: Machine,
    reaped_ok: bool,
    closed_ok: bool,
    again_reaped_ok: bool,
    again_closed_ok: bool,
    env: Env,
)
    requires
        m.wf(),
        m.state is ShuttingDown || m.state is Closed,
    ensures
        shut(m, reaped_ok, closed_ok, env).state is Closed,
        shut(shut(m, reaped_ok, closed_ok, env), again_reaped_ok, again_closed_ok, env) == shut(
            m,
            reaped_ok,
            closed_ok,
            env,
        ),
        shut(m, reaped_ok, closed_ok, env).step(Event::Reaped(again_reaped_ok), env).1
            == Action::Done,
        shut(m, reaped_ok, closed_ok, env).step(Event::SessionClosed(again_closed_ok), env).1
            == Action::Done,
{
}

/// A dead session ends the run without a stop signal. The round of
/// monitoring that finds it begins shutdown at once, with no wait between,
/// and from there the run reaches `Closed` whatever reaping and closing
/// report and whether or not cancellation is ever asked for.
pub proof fn lemma_dead_session_closes(
    m: Machine,
    process: ProcessStatus,
    reaped_ok: bool,
    closed_ok: bool,
    env: Env,
)
    requires
        m.wf(),
        m.state is Monitoring,
    ensures
        ({
            let (down, first) = m.step(Event::Observed(SessionHealth::Dead, process), env);
            &&& first == Action::TerminateAndReap
            &&& down.state is ShuttingDown
            &&& down.reason is SessionDied
            &&& shut(down, reaped_ok, closed_ok, env).state is Closed
        }),
{
}

/// Cancellation ends the run. With the flag set, the next round of
/// monitoring begins shutdown, and three steps later the process has been
/// reaped, the session closed, and the run is `Closed`.
pub proof fn lemma_cancellation_closes(
    m: Machine,
    health: SessionHealth,
    process: ProcessStatus,
    reaped_ok: bool,
    closed_ok: bool,
    env: Env,
)
    requires
        m.wf(),
        m.state is Monitoring,
        env.cancel,
    ensures
        ({
            let (down, first) = m.step(Event::Observed(health, process), env);
            &&& first == Action::TerminateAndReap
            &&& down.state is ShuttingDown
            &&& health is Alive ==> down.reason is UserRequested
            &&& down.step(Event::Reaped(reaped_ok), env).1 == Action::CloseSession
            &&& shut(down, reaped_ok, closed_ok, env).state is Closed
            &&& shut(down, reaped_ok, closed_ok, env).reaped
        }),
{
}

/// While nothing is wrong and nobody cancels, monitoring goes on: the
/// session alive and the flag clear, the run stays in `Monitoring` and
/// looks again after one interval. An exit of the served process is
/// recorded and changes nothing else.
pub proof fn lemma_monitoring_goes_on(m: Machine, process: ProcessStatus, env: Env)
    requires
        m.state is Monitoring,
        !env.cancel,
    ensures
        ({
            let (next, action) = m.step(Event::Observed(SessionHealth::Alive, process), env);
            &&& next.state is Monitoring
            &&& action == Action::Poll { delay_secs: POLL_INTERVAL_SECS }
            &&& next.served == if process is Running {
                m.served
            } else {
                process
            }
        }),
{
}

/// The commands that precede the connection are all attempted, one after
/// the other, however each of them ends, and the run goes on to connect.
/// After `n` of them have been reported, `n` more are counted; the next one
/// is asked for while one is left, and the connection after the last.
pub proof fn lemma_commands_all_attempted(start: Machine, inputs: Seq<Input>, n: nat)
    requires
        start.wf(),
        start.state is RunningPreCommands,
        n <= start.commands - start.finished,
        n <= inputs.len(),
        forall|i: int| 0 <= i < n ==> (#[trigger] inputs[i]).event is CommandFinished,
    ensures
        state_at(start, inputs, n).finished == start.finished + n,
        state_at(start, inputs, n).wf(),
        state_at(start, inputs, n).commands == start.commands,
        n < start.commands - start.finished ==> state_at(start, inputs, n).state
            is RunningPreCommands,
        0 < n < start.commands - start.finished ==> action_at(start, inputs, n - 1)
            == Action::RunCommand((start.finished + n) as usize),
        n == start.commands - start.finished ==> state_at(start, inputs, n).state is Connecting
            && action_at(start, inputs, n - 1) == Action::Connect,
    decreases n,
{
    if n > 0 {
        lemma_commands_all_attempted(start, inputs, (n - 1) as nat);
        assert(inputs[n - 1].event is CommandFinished);
    }
}

/// A run from `Idle` whose driver does as it is asked attempts every
/// command and then connects: `Start` is answered with the first command,
/// each report with the next, and the last report with `Connect`. No
/// outcome of a command changes that.
pub proof fn lemma_run_reaches_connect(start: Machine, inputs: Seq<Input>)
    requires
        start.wf(),
        start.state is Idle,
        inputs.len() == start.commands + 1,
        inputs[0].event is Start,
        forall|i: int| 1 <= i < inputs.len() ==> (#[trigger] inputs[i]).event is CommandFinished,
    ensures
        state_at(start, inputs, inputs.len()).state is Connecting,
        action_at(start, inputs, inputs.len() - 1) == Action::Connect,
        forall|i: int|
            0 <= i < start.commands ==> #[trigger] action_at(start, inputs, i)
                == Action::RunCommand(i as usize),
{
    let first = state_at(start, inputs, 1);
    assert(state_at(start, inputs, 0) == start);
    assert(first == start.step(inputs[0].event, inputs[0].env).0);
    if start.commands == 0 {
    } else {
        let rest = inputs.subrange(1, inputs.len() as int);
        assert forall|i: int| 0 <= i < rest.len() implies (#[trigger] rest[i]).event
            is CommandFinished by {
            assert(rest[i] == inputs[i + 1]);
        }
        assert forall|n: nat| n <= rest.len() implies #[trigger] state_at(first, rest, n)
            == state_at(start, inputs, n + 1) by {
            lemma_shifted_run(start, inputs, n);
        }
        lemma_commands_all_attempted(first, rest, rest.len());
        assert(state_at(first, rest, rest.len()) == state_at(start, inputs, inputs.len()));
        assert(state_at(first, rest, (rest.len() - 1) as nat) == state_at(
            start,
            inputs,
            (inputs.len() - 1) as nat,
        ));
        assert(rest[rest.len() - 1] == inputs[inputs.len() - 1]);
        assert forall|i: int| 0 <= i < start.commands implies #[trigger] action_at(
            start,
            inputs,
            i,
        ) == Action::RunCommand(i as usize) by {
            if i > 0 {
                lemma_commands_all_attempted(first, rest, i as nat);
                assert(state_at(first, rest, (i - 1) as nat) == state_at(start, inputs, i as nat));
                assert(rest[i - 1] == inputs[i]);
            }
        }
    }
}

/// A run goes on from its first step as a run of its own.
proof fn lemma_shifted_run(start: Machine, inputs: Seq<Input>, n: nat)
    requires
        n + 1 <= inputs.len(),
    ensures
        state_at(
            start.step(inputs[0].event, inputs[0].env).0,
            inputs.subrange(1, inputs.len() as int),
            n,
        ) == state_at(start, inputs, n + 1),
    decreases n,
{
    let first = start.step(inputs[0].event, inputs[0].env).0;
    let rest = inputs.subrange(1, inputs.len() as int);
    if n == 0 {
        assert(state_at(start, inputs, 0) == start);
        assert(state_at(start, inputs, 1) == first);
    } else {
        lemma_shifted_run(start, inputs, (n - 1) as nat);
        assert(rest[n - 1] == inputs[n as int]);
    }
}

/// The session was asked for and has been reported open, in this order,
/// within the first `n` inputs.
pub open spec fn connected_within(start: Machine, inputs: Seq<Input>, n: int) -> bool {
    exists|c: int, k: int|
        0 <= c < k < n && #[trigger] action_at(start, inputs, c) == Action::Connect
            && (#[trigger] inputs[k]).event == Event::Connected
}

/// The port forward was asked for within the first `n` inputs, and the
/// session was open by then.
pub open spec fn forward_requested_within(start: Machine, inputs: Seq<Input>, n: int) -> bool {
    exists|f: int|
        0 <= f < n && #[trigger] action_at(start, inputs, f) == Action::RequestPortForward
            && connected_within(start, inputs, f + 1)
}

/// The file server was asked for within the first `n` inputs, in answer to
/// the report that the forward stands, which had been asked for before.
pub open spec fn spawn_requested_within(start: Machine, inputs: Seq<Input>, n: int) -> bool {
    exists|g: int|
        0 <= g < n && #[trigger] action_at(start, inputs, g) == Action::SpawnServer
            && inputs[g].event == Event::ForwardGranted && forward_requested_within(
            start,
            inputs,
            g,
        )
}

/// The file server was asked for and has been reported running, in this
/// order, within the first `n` inputs.
pub open spec fn spawned_within(start: Machine, inputs: Seq<Input>, n: int) -> bool {
    exists|p: int|
        0 <= p < n && (#[trigger] inputs[p]).event == Event::Spawned && spawn_requested_within(
            start,
            inputs,
            p,
        )
}

/// The end of the served process was asked for within the first `n`
/// inputs, after it had been started.
pub open spec fn termination_requested_within(start: Machine, inputs: Seq<Input>, n: int) -> bool {
    exists|t: int|
        0 <= t < n && #[trigger] action_at(start, inputs, t) == Action::TerminateAndReap
            && spawned_within(start, inputs, t)
}

/// The served process was reported reaped within the first `n` inputs,
/// after its end had been asked for.
pub open spec fn reaped_within(start: Machine, inputs: Seq<Input>, n: int) -> bool {
    exists|r: int|
        0 <= r < n && (#[trigger] inputs[r]).event is Reaped && termination_requested_within(
            start,
            inputs,
            r,
        )
}

/// What a state tells of the past of its run.
pub open spec fn history(start: Machine, inputs: Seq<Input>, n: nat) -> bool {
    let m = state_at(start, inputs, n);
    &&& m.state is Connecting ==> exists|c: int|
        0 <= c < n && #[trigger] action_at(start, inputs, c) == Action::Connect
    &&& m.state is Forwarding ==> connected_within(start, inputs, n as int)
    &&& m.state is Forwarding && m.gate_passed ==> forward_requested_within(
        start,
        inputs,
        n as int,
    )
    &&& m.state is Serving ==> spawn_requested_within(start, inputs, n as int)
    &&& m.state is Monitoring ==> spawned_within(start, inputs, n as int)
    &&& m.state is ShuttingDown ==> termination_requested_within(start, inputs, n as int)
    &&& m.state is ShuttingDown && m.reaped ==> reaped_within(start, inputs, n as int)
}

/// Every state of a run from `Idle` has the past that it stands for.
pub proof fn lemma_history(start: Machine, inputs: Seq<Input>, n: nat)
    requires
        start.wf(),
        start.state is Idle,
        n <= inputs.len(),
    ensures
        history(start, inputs, n),
        state_at(start, inputs, n).wf(),
    decreases n,
{
    lemma_run_wf(start, inputs, n);
    if n > 0 {
        let last = (n - 1) as nat;
        lemma_history(start, inputs, last);
        assert(history(start, inputs, last));
        let before = state_at(start, inputs, last);
        let m = state_at(start, inputs, n);
        let action = action_at(start, inputs, n - 1);
        assert(m == before.step(inputs[n - 1].event, inputs[n - 1].env).0);
        assert(action == before.step(inputs[n - 1].event, inputs[n - 1].env).1);
    }
}

/// Setup and shutdown keep their order. In every run from `Idle`:
/// the port forward is asked for only once the session has been asked for
/// and reported open; the file server is started only in answer to the
/// report that the forward stands; the served process is ended only after
/// it was reported running; and the session is closed only in answer to
/// the report that the process has been reaped.
pub proof fn lemma_order(start: Machine, inputs: Seq<Input>, j: int)
    requires
        start.wf(),
        start.state is Idle,
        0 <= j < inputs.len(),
    ensures
        action_at(start, inputs, j) == Action::RequestPortForward ==> connected_within(
            start,
            inputs,
            j + 1,
        ),
        action_at(start, inputs, j) == Action::SpawnServer ==> inputs[j].event
            == Event::ForwardGranted && forward_requested_within(start, inputs, j),
        action_at(start, inputs, j) == Action::TerminateAndReap ==> spawned_within(
            start,
            inputs,
            j,
        ),
        action_at(start, inputs, j) == Action::CloseSession ==> inputs[j].event is Reaped
            && termination_requested_within(start, inputs, j),
        action_at(start, inputs, j) == Action::Done && !(state_at(start, inputs, j as nat).state
            is Closed) ==> inputs[j].event is SessionClosed && reaped_within(start, inputs, j),
{
    lemma_history(start, inputs, j as nat);
}

/// Along a run the measure of progress never falls, and neither does the
/// count of attempted commands.
pub proof fn lemma_run_progress(start: Machine, inputs: Seq<Input>, i: nat, j: nat)
    requires
        i <= j <= inputs.len(),
    ensures
        state_at(start, inputs, i).progress() <= state_at(start, inputs, j).progress(),
        state_at(start, inputs, i).finished <= state_at(start, inputs, j).finished,
    decreases j,
{
    if i < j {
        lemma_run_progress(start, inputs, i, (j - 1) as nat);
    }
}

/// Whether `action` begins one of the steps that use or release a
/// resource: the session, the forward, the served process.
pub open spec fn takes_or_releases(action: Action) -> bool {
    action == Action::Connect || action == Action::RequestPortForward || action
        == Action::SpawnServer || action == Action::TerminateAndReap || action
        == Action::CloseSession
}

/// Nothing is done twice. In every run the session is opened at most once,
/// the forward requested at most once, the file server started at most
/// once, the served process ended at most once and the session closed at
/// most once; and no command is asked for a second time.
pub proof fn lemma_steps_taken_once(start: Machine, inputs: Seq<Input>, i: int, j: int)
    requires
        0 <= i < j < inputs.len(),
    ensures
        takes_or_releases(action_at(start, inputs, i)) ==> action_at(start, inputs, j)
            != action_at(start, inputs, i),
        action_at(start, inputs, i) is RunCommand ==> action_at(start, inputs, j) != action_at(
            start,
            inputs,
            i,
        ),
{
    let before = state_at(start, inputs, i as nat);
    let after = state_at(start, inputs, (i + 1) as nat);
    assert(after == before.step(inputs[i].event, inputs[i].env).0);
    lemma_run_progress(start, inputs, (i + 1) as nat, j as nat);
}

} // verus!
