//! The settle pass: a two-state machine that watches an external physics
//! integrator step after step and declares equilibrium once every dynamic
//! body sleeps.
//!
//! The integrator itself is an outside collaborator working in floating
//! point; the caller advances it one fixed timestep at a time and reports
//! how many dynamic bodies are still awake through [`SettleRunner::observe_step`].
//! The runner owns the two decisions that matter: when "nothing is moving"
//! may first be trusted (a debounce window over elapsed simulated time), and
//! when to give up rather than loop forever (an iteration ceiling).

use vstd::prelude::*;

verus! {

/// Parameters of a settle pass.
#[derive(Clone, Copy, Debug, PartialEq, Eq, Structural)]
pub struct SettleConfig {
    /// Simulated duration of one integration step, in microseconds.
    pub dt_micros: u64,
    /// Minimum elapsed simulated time, in microseconds, before the
    /// equilibrium test is first evaluated. Guards against a false
    /// "settled" reading at the start, before gravity has had time to
    /// separate initially stacked bodies.
    pub debounce_micros: u64,
    /// Iteration ceiling: after this many steps without equilibrium the
    /// pass reports that it did not settle instead of hanging.
    pub max_steps: u64,
}

impl SettleConfig {
    /// A usable configuration: a positive timestep, a positive ceiling, and
    /// a total simulated duration that fits in a `u64`.
    pub open spec fn wf(self) -> bool {
        &&& self.dt_micros > 0
        &&& self.max_steps > 0
        &&& self.max_steps * self.dt_micros <= u64::MAX
    }
}

/// The phase a settle pass is in. It starts `Running`, moves to `Settled`
/// when the active-body set first reads empty past the debounce window, and
/// to `DidNotSettle` when the iteration ceiling is reached first. Both
/// non-running phases are terminal.
#[derive(Clone, Copy, Debug, PartialEq, Eq, Structural)]
pub enum SettleState {
    Running,
    Settled,
    DidNotSettle,
}

/// Drives the equilibrium decision of a settle pass.
#[derive(Clone, Copy, Debug, PartialEq, Eq, Structural)]
pub struct SettleRunner {
    pub config: SettleConfig,
    /// Number of integration steps observed so far.
    pub steps: u64,
    pub state: SettleState,
}

/// True when the step just observed (the `steps + 1`-th) settles the pass:
/// no dynamic body is awake and the debounce window has elapsed.
pub open spec fn settles_now(r: SettleRunner, n_active: u64) -> bool {
    n_active == 0 && (r.steps + 1) * r.config.dt_micros >= r.config.debounce_micros
}

/// The runner after one more integration step has been observed with
/// `n_active` dynamic bodies still awake.
pub open spec fn spec_observe(r: SettleRunner, n_active: u64) -> SettleRunner {
    SettleRunner {
        config: r.config,
        steps: (r.steps + 1) as u64,
        state: if settles_now(r, n_active) {
            SettleState::Settled
        } else if r.steps + 1 >= r.config.max_steps {
            SettleState::DidNotSettle
        } else {
            SettleState::Running
        },
    }
}

/// The runner after a whole sequence of step observations, stopping early
/// at the first terminal state.
pub open spec fn run_trace(r: SettleRunner, obs: Seq<u64>) -> SettleRunner
    decreases obs.len(),
{
    if obs.len() == 0 || !(r.state is Running) {
        r
    } else {
        run_trace(spec_observe(r, obs[0]), obs.subrange(1, obs.len() as int))
    }
}

impl SettleRunner {
    /// A runner that never counted past its ceiling and is only `Running`
    /// while strictly below it.
    pub open spec fn wf(self) -> bool {
        &&& self.config.wf()
        &&& self.steps <= self.config.max_steps
        &&& self.state is Running ==> self.steps < self.config.max_steps
    }

    /// Starts a settle pass in the `Running` state.
    pub fn new(config: SettleConfig) -> (r: SettleRunner)
        requires
            config.wf(),
        ensures
            r == (SettleRunner { config, steps: 0, state: SettleState::Running }),
            r.wf(),
    {
        SettleRunner { config, steps: 0, state: SettleState::Running }
    }

    /// Records that the integrator completed one more fixed timestep with
    /// `n_active` dynamic bodies still awake, and decides the next phase:
    /// `Settled` exactly when the active set is empty and the debounce
    /// window has elapsed; otherwise `DidNotSettle` exactly when this step
    /// reached the iteration ceiling.
    pub fn observe_step(&mut self, n_active: u64) -> (s: SettleState)
        requires
            old(self).wf(),
            old(self).state is Running,
        ensures
            *final(self) == spec_observe(*old(self), n_active),
            final(self).wf(),
            s == final(self).state,
            s is Settled <==> settles_now(*old(self), n_active),
            s is DidNotSettle
                <==> (!settles_now(*old(self), n_active)
                    && old(self).steps + 1 == old(self).config.max_steps),
    {
        proof {
            assert(self.steps + 1 <= self.config.max_steps);
            assert((self.steps + 1) * self.config.dt_micros
                <= self.config.max_steps * self.config.dt_micros) by (nonlinear_arith)
                requires
                    self.steps + 1 <= self.config.max_steps,
                    self.config.dt_micros >= 0,
            ;
        }
        self.steps = self.steps + 1;
        let elapsed_micros = self.steps * self.config.dt_micros;
        if n_active == 0 && elapsed_micros >= self.config.debounce_micros {
            self.state = SettleState::Settled;
        } else if self.steps >= self.config.max_steps {
            self.state = SettleState::DidNotSettle;
        } else {
            self.state = SettleState::Running;
        }
        self.state
    }
}

/// The settle pass always ends: fed at least as many observations as steps
/// remain under the iteration ceiling, the runner is no longer `Running`,
/// whatever the observations were.
pub proof fn lemma_settle_terminates_within_budget(r: SettleRunner, obs: Seq<u64>)
    requires
        r.wf(),
        obs.len() >= r.config.max_steps - r.steps,
    ensures
        !(run_trace(r, obs).state is Running),
    decreases obs.len(),
{
    if r.state is Running {
        let r2 = spec_observe(r, obs[0]);
        assert(r2.wf());
        lemma_settle_terminates_within_budget(r2, obs.subrange(1, obs.len() as int));
    }
}

/// Both non-running phases are terminal: once the pass has settled or
/// given up, further observations change nothing.
pub proof fn lemma_terminal_state_is_absorbing(r: SettleRunner, obs: Seq<u64>)
    requires
        !(r.state is Running),
    ensures
        run_trace(r, obs) == r,
{
}

/// Determinism of the settle decision: two passes given identical initial
/// runner states and identical per-step observations end in identical
/// states, with identical step counts.
pub proof fn lemma_settle_deterministic(
    r1: SettleRunner,
    r2: SettleRunner,
    obs1: Seq<u64>,
    obs2: Seq<u64>,
)
    requires
        r1 == r2,
        obs1 == obs2,
    ensures
        run_trace(r1, obs1) == run_trace(r2, obs2),
{
}

} // verus!
