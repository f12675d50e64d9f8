//! The restart/kill policy engine: a state machine consuming termination
//! events from the shared channel and deciding whether to signal
//! cancellation to the remaining workers.
//!
//! The engine observes every message and forwards it onward unchanged; its
//! only outputs here are the control actions. It tracks which workers have
//! delivered their terminal message, keyed by registration index, so a
//! duplicate terminal-kind message for a worker already accounted for is a
//! no-op and can never deadlock the accounting.

use vstd::prelude::*;
use vstd::pervasive::VecAdditionalExecFns;
use crate::message::OutputMessagePayload;
use crate::message::is_terminal_payload;

verus! {

/// Cross-worker behavior on a termination event.
#[derive(Clone, Copy, Debug, PartialEq, Eq, Structural)]
pub enum RestartOptions {
    /// Leave the other workers running.
    Continue,
    /// Relaunch the terminated worker with the same descriptor, as long as
    /// no cancellation is in progress.
    Restart,
    /// The first termination triggers cancellation of all remaining workers.
    Kill,
}

/// The engine's run state.
#[derive(Clone, Copy, Debug, PartialEq, Eq, Structural)]
pub enum EngineState {
    /// At least one worker is still running and no cancellation was issued.
    Active,
    /// Cancellation was signaled; waiting for every worker's terminal
    /// message.
    Cancelling,
    /// Every worker has delivered its terminal message.
    Complete,
}

/// What the engine asks its surroundings to do after one message.
#[derive(Clone, Copy, Debug, PartialEq, Eq, Structural)]
pub enum EngineAction {
    /// Nothing: forward the message and read on.
    Nothing,
    /// Signal cancellation to all workers.
    Cancel,
    /// Relaunch the worker the message came from, with its descriptor.
    Restart,
}

/// How many workers a pending vector still counts as unterminated.
pub open spec fn count_true(s: Seq<bool>) -> nat
    decreases s.len(),
{
    if s.len() == 0 {
        0
    } else {
        count_true(s.drop_last()) + if s.last() {
            1nat
        } else {
            0nat
        }
    }
}

pub proof fn lemma_count_true_update_false(s: Seq<bool>, i: int)
    requires
        0 <= i < s.len(),
    ensures
        count_true(s.update(i, false)) + if s[i] {
            1nat
        } else {
            0nat
        } == count_true(s),
    decreases s.len(),
{
    let t = s.update(i, false);
    if i == s.len() - 1 {
        assert(t.drop_last() =~= s.drop_last());
    } else {
        assert(t.drop_last() =~= s.drop_last().update(i, false));
        lemma_count_true_update_false(s.drop_last(), i);
    }
}

pub proof fn lemma_count_true_zero(s: Seq<bool>)
    ensures
        count_true(s) == 0 <==> (forall|i: int| 0 <= i < s.len() ==> !s[i]),
    decreases s.len(),
{
    if s.len() > 0 {
        lemma_count_true_zero(s.drop_last());
        if count_true(s) == 0 {
            assert forall|i: int| 0 <= i < s.len() implies !s[i] by {
                if i < s.len() - 1 {
                    assert(s.drop_last()[i] == s[i]);
                }
            }
        }
    }
}

pub proof fn lemma_count_true_all(n: nat)
    ensures
        count_true(Seq::new(n, |i: int| true)) == n,
    decreases n,
{
    if n > 0 {
        assert(Seq::new(n, |i: int| true).drop_last() =~= Seq::new((n - 1) as nat, |i: int| true));
        lemma_count_true_all((n - 1) as nat);
    }
}

/// One step of the engine: what one observed message does to the pending
/// vector and the run state, and which action it provokes. `terminal` says
/// whether the message was a worker's terminal message; `index` is the
/// worker it came from.
pub open spec fn engine_step_model(
    policy: RestartOptions,
    pending: Seq<bool>,
    state: EngineState,
    index: int,
    terminal: bool,
) -> (Seq<bool>, EngineState, EngineAction) {
    if !terminal || index < 0 || index >= pending.len() || !pending[index] {
        (pending, state, EngineAction::Nothing)
    } else if policy is Restart && state is Active {
        (pending, state, EngineAction::Restart)
    } else {
        let p = pending.update(index, false);
        if count_true(p) == 0 {
            (p, EngineState::Complete, EngineAction::Nothing)
        } else if policy is Kill && state is Active {
            (p, EngineState::Cancelling, EngineAction::Cancel)
        } else {
            (p, state, EngineAction::Nothing)
        }
    }
}

/// What an external cancellation request does to the run state: a completed
/// run is left alone, anything else starts cancelling. Idempotent.
pub open spec fn cancel_model(state: EngineState) -> EngineState {
    if state is Complete {
        state
    } else {
        EngineState::Cancelling
    }
}

/// The policy engine for one run.
pub struct PolicyEngine {
    policy: RestartOptions,
    pending: Vec<bool>,
    remaining: usize,
    state: EngineState,
}

impl PolicyEngine {
    /// The configured policy.
    pub closed spec fn policy_model(&self) -> RestartOptions {
        self.policy
    }

    /// Which workers have not yet delivered their terminal message, by
    /// registration index.
    pub closed spec fn pending_model(&self) -> Seq<bool> {
        self.pending@
    }

    /// The run state.
    pub closed spec fn state_model(&self) -> EngineState {
        self.state
    }

    /// The engine's internal accounting is consistent: the state is
    /// `Complete` exactly when no worker is still pending.
    pub closed spec fn wf(&self) -> bool {
        &&& self.remaining == count_true(self.pending@)
        &&& (self.state is Complete <==> count_true(self.pending@) == 0)
    }

    /// An engine for a fresh run of `num_workers` workers, all pending.
    /// A run of no workers is rejected by the supervisor before an engine
    /// exists.
    pub fn new(policy: RestartOptions, num_workers: usize) -> (r: PolicyEngine)
        requires
            num_workers >= 1,
        ensures
            r.wf(),
            r.policy_model() == policy,
            r.pending_model() == Seq::new(num_workers as nat, |i: int| true),
            r.state_model() == EngineState::Active,
    {
        let mut pending: Vec<bool> = Vec::new();
        let mut i: usize = 0;
        while i < num_workers
            invariant
                i <= num_workers,
                pending@ =~= Seq::new(i as nat, |j: int| true),
            decreases num_workers - i,
        {
            pending.push(true);
            i = i + 1;
        }
        proof {
            lemma_count_true_all(num_workers as nat);
            assert(pending@ =~= Seq::new(num_workers as nat, |i: int| true));
        }
        PolicyEngine { policy, pending, remaining: num_workers, state: EngineState::Active }
    }

    /// The current run state.
    pub fn state(&self) -> (r: EngineState)
        ensures
            r == self.state_model(),
    {
        self.state
    }

    /// Observes one message from worker `index` and takes the configured
    /// policy's step. The caller forwards the message onward regardless; the
    /// returned action is the engine's decision.
    pub fn on_message(&mut self, index: usize, payload: &OutputMessagePayload) -> (action:
        EngineAction)
        requires
            old(self).wf(),
        ensures
            final(self).wf(),
            final(self).policy_model() == old(self).policy_model(),
            (final(self).pending_model(), final(self).state_model(), action) == engine_step_model(
                old(self).policy_model(),
                old(self).pending_model(),
                old(self).state_model(),
                index as int,
                is_terminal_payload(*payload),
            ),
    {
        if !payload.is_terminal() || index >= self.pending.len() {
            return EngineAction::Nothing;
        }
        if !self.pending[index] {
            return EngineAction::Nothing;
        }
        if self.policy.is_restart() && self.state.is_active() {
            return EngineAction::Restart;
        }
        proof {
            lemma_count_true_update_false(self.pending@, index as int);
        }
        self.pending.set(index, false);
        self.remaining = self.remaining - 1;
        if self.remaining == 0 {
            self.state = EngineState::Complete;
            EngineAction::Nothing
        } else if self.policy.is_kill() && self.state.is_active() {
            self.state = EngineState::Cancelling;
            EngineAction::Cancel
        } else {
            EngineAction::Nothing
        }
    }

    /// The external cancellation trigger's effect on the engine: safe to
    /// call repeatedly and after the run has completed.
    pub fn cancel(&mut self)
        requires
            old(self).wf(),
        ensures
            final(self).wf(),
            final(self).policy_model() == old(self).policy_model(),
            final(self).pending_model() == old(self).pending_model(),
            final(self).state_model() == cancel_model(old(self).state_model()),
    {
        if !self.state.is_complete() {
            self.state = EngineState::Cancelling;
        }
    }
}

impl RestartOptions {
    pub fn is_restart(&self) -> (r: bool)
        ensures
            r == (*self is Restart),
    {
        match self {
            RestartOptions::Restart => true,
            _ => false,
        }
    }

    pub fn is_kill(&self) -> (r: bool)
        ensures
            r == (*self is Kill),
    {
        match self {
            RestartOptions::Kill => true,
            _ => false,
        }
    }
}

impl EngineState {
    pub fn is_active(&self) -> (r: bool)
        ensures
            r == (*self is Active),
    {
        match self {
            EngineState::Active => true,
            _ => false,
        }
    }

    pub fn is_complete(&self) -> (r: bool)
        ensures
            r == (*self is Complete),
    {
        match self {
            EngineState::Complete => true,
            _ => false,
        }
    }
}

/// The engine run over a whole sequence of terminal events: `evs` gives, in
/// arrival order, the worker index of each terminal message observed.
pub open spec fn engine_run_model(
    policy: RestartOptions,
    pending: Seq<bool>,
    state: EngineState,
    evs: Seq<int>,
) -> (Seq<bool>, EngineState)
    decreases evs.len(),
{
    if evs.len() == 0 {
        (pending, state)
    } else {
        let st = engine_step_model(policy, pending, state, evs[0], true);
        engine_run_model(policy, st.0, st.1, evs.skip(1))
    }
}

/// Law: under the `Kill` and `Continue` policies, once a terminal message
/// has been observed for every still-pending worker — in any order, with
/// duplicates tolerated — the engine's state is `Complete`, so a join on the
/// run returns.
pub proof fn lemma_all_terminals_complete(
    policy: RestartOptions,
    pending: Seq<bool>,
    state: EngineState,
    evs: Seq<int>,
)
    requires
        policy is Kill || policy is Continue,
        state is Complete <==> count_true(pending) == 0,
        forall|i: int| 0 <= i < pending.len() && pending[i] ==> evs.contains(i),
    ensures
        engine_run_model(policy, pending, state, evs).1 is Complete,
    decreases evs.len(),
{
    lemma_count_true_zero(pending);
    if evs.len() == 0 {
        assert(forall|i: int| 0 <= i < pending.len() ==> !pending[i]);
    } else {
        let e = evs[0];
        let st = engine_step_model(policy, pending, state, e, true);
        if 0 <= e < pending.len() && pending[e] {
            lemma_count_true_update_false(pending, e);
        }
        lemma_count_true_zero(st.0);
        assert forall|i: int| 0 <= i < st.0.len() && st.0[i] implies evs.skip(1).contains(i) by {
            assert(pending[i]);
            assert(i != e);
            let k = choose|k: int| 0 <= k < evs.len() && evs[k] == i;
            assert(evs.skip(1)[k - 1] == i);
        }
        lemma_all_terminals_complete(policy, st.0, st.1, evs.skip(1));
    }
}

/// Law: the cancellation trigger is idempotent, and a no-op once the run has
/// completed. Calling it twice, or after completion, changes nothing.
pub proof fn lemma_cancel_idempotent(state: EngineState)
    ensures
        cancel_model(cancel_model(state)) == cancel_model(state),
        state is Complete ==> cancel_model(state) == state,
{
}

/// Law: a completed run is inert. Once every worker's terminal message has
/// been accounted for, no further message changes the engine or provokes an
/// action.
pub proof fn lemma_complete_is_inert(
    policy: RestartOptions,
    pending: Seq<bool>,
    state: EngineState,
    index: int,
    terminal: bool,
)
    requires
        state is Complete,
        count_true(pending) == 0,
    ensures
        engine_step_model(policy, pending, state, index, terminal) == (
            pending,
            state,
            EngineAction::Nothing,
        ),
{
    lemma_count_true_zero(pending);
}

} // verus!
