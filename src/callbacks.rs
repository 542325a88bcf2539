//! The mutation pipeline: before-hooks, then the statement, then after-hooks.
//!
//! The pipeline decides; its driver acts. Each call hands in what the last
//! action came to and gets the next action back. No statement is sent unless
//! every before-hook succeeded, and an after-hook failure is reported even
//! though the statement was already sent.

use vstd::prelude::*;
use crate::errors::{HookFault, HookPhase, QueryError, TransportFault};

verus! {

#[derive(Clone, Copy, Debug, PartialEq, Eq, Structural)]
pub enum MutationStage {
    Created,
    BeforeHooks,
    Sending,
    AfterHooks,
    Completed,
    Failed,
}

/// What the driver reports of the last action.
pub enum MutationEvent {
    HookSucceeded,
    HookFailed(HookFault),
    Sent,
    SendFailed(TransportFault),
}

/// What the driver is to do next.
pub enum MutationAction {
    /// Run the before-hook at this index of the declared order.
    RunBeforeHook(usize),
    /// Build the statement from the entity as it now stands and send it.
    Send,
    /// Run the after-hook at this index of the declared order.
    RunAfterHook(usize),
    /// The call is over, with this result.
    Done(Result<(), QueryError>),
    /// The event did not answer the last action; nothing changed.
    Ignored,
}

/// The pipeline as a mathematical value.
pub struct MutationModel {
    pub stage: MutationStage,
    pub before_hooks: nat,
    pub after_hooks: nat,
    /// Index of the hook that runs now, in the current phase.
    pub hook: nat,
    /// How many times the statement was handed to the session.
    pub sends: nat,
}

/// Whether a model is one the pipeline can be in.
pub open spec fn mutation_wf(m: MutationModel) -> bool {
    &&& (m.stage == MutationStage::Created || m.stage == MutationStage::BeforeHooks) ==> m.sends == 0
    &&& (m.stage == MutationStage::Sending || m.stage == MutationStage::AfterHooks || m.stage
        == MutationStage::Completed) ==> m.sends == 1
    &&& m.sends <= 1
    &&& m.stage == MutationStage::BeforeHooks ==> m.hook < m.before_hooks
    &&& m.stage == MutationStage::AfterHooks ==> m.hook < m.after_hooks
}

/// Begins the call: the first before-hook, or the send where there is none.
pub open spec fn start_model(m: MutationModel) -> (MutationModel, MutationAction) {
    if m.stage != MutationStage::Created {
        (m, MutationAction::Ignored)
    } else if m.before_hooks > 0 {
        (MutationModel { stage: MutationStage::BeforeHooks, hook: 0, ..m }, MutationAction::RunBeforeHook(0))
    } else {
        (MutationModel { stage: MutationStage::Sending, sends: m.sends + 1, ..m }, MutationAction::Send)
    }
}

/// The next state and action after `e`.
pub open spec fn event_model(m: MutationModel, e: MutationEvent) -> (MutationModel, MutationAction) {
    match (m.stage, e) {
        (MutationStage::BeforeHooks, MutationEvent::HookSucceeded) => if m.hook + 1 < m.before_hooks {
            (MutationModel { hook: m.hook + 1, ..m }, MutationAction::RunBeforeHook((m.hook + 1) as usize))
        } else {
            (MutationModel { stage: MutationStage::Sending, sends: m.sends + 1, ..m }, MutationAction::Send)
        },
        (MutationStage::BeforeHooks, MutationEvent::HookFailed(f)) => (
            MutationModel { stage: MutationStage::Failed, ..m },
            MutationAction::Done(Err(QueryError::Hook { phase: HookPhase::Before, index: m.hook as usize, fault: f })),
        ),
        (MutationStage::Sending, MutationEvent::Sent) => if m.after_hooks > 0 {
            (MutationModel { stage: MutationStage::AfterHooks, hook: 0, ..m }, MutationAction::RunAfterHook(0))
        } else {
            (MutationModel { stage: MutationStage::Completed, ..m }, MutationAction::Done(Ok(())))
        },
        (MutationStage::Sending, MutationEvent::SendFailed(t)) => (
            MutationModel { stage: MutationStage::Failed, ..m },
            MutationAction::Done(Err(QueryError::Transport(t))),
        ),
        (MutationStage::AfterHooks, MutationEvent::HookSucceeded) => if m.hook + 1 < m.after_hooks {
            (MutationModel { hook: m.hook + 1, ..m }, MutationAction::RunAfterHook((m.hook + 1) as usize))
        } else {
            (MutationModel { stage: MutationStage::Completed, ..m }, MutationAction::Done(Ok(())))
        },
        (MutationStage::AfterHooks, MutationEvent::HookFailed(f)) => (
            MutationModel { stage: MutationStage::Failed, ..m },
            MutationAction::Done(Err(QueryError::Hook { phase: HookPhase::After, index: m.hook as usize, fault: f })),
        ),
        _ => (m, MutationAction::Ignored),
    }
}

/// The state after the events `es`, one after another.
pub open spec fn run_events(m: MutationModel, es: Seq<MutationEvent>) -> MutationModel
    decreases es.len(),
{
    if es.len() == 0 {
        m
    } else {
        run_events(event_model(m, es[0]).0, es.drop_first())
    }
}

/// One mutation call on one entity.
pub struct Mutation {
    stage: MutationStage,
    before_hooks: usize,
    after_hooks: usize,
    hook: usize,
    sends: Ghost<nat>,
}

impl View for Mutation {
    type V = MutationModel;

    closed spec fn view(&self) -> MutationModel {
        MutationModel {
            stage: self.stage,
            before_hooks: self.before_hooks as nat,
            after_hooks: self.after_hooks as nat,
            hook: self.hook as nat,
            sends: self.sends@,
        }
    }
}

impl Mutation {
    #[verifier::type_invariant]
    closed spec fn inv(self) -> bool {
        mutation_wf(self@)
    }

    /// A call for an entity type with this many before- and after-hooks.
    pub fn new(before_hooks: usize, after_hooks: usize) -> (r: Self)
        ensures
            r@ == (MutationModel {
                stage: MutationStage::Created,
                before_hooks: before_hooks as nat,
                after_hooks: after_hooks as nat,
                hook: 0,
                sends: 0,
            }),
            mutation_wf(r@),
    {
        Mutation { stage: MutationStage::Created, before_hooks, after_hooks, hook: 0, sends: Ghost(0) }
    }

    pub fn stage(&self) -> (r: MutationStage)
        ensures
            r == self@.stage,
            mutation_wf(self@),
    {
        proof {
            use_type_invariant(self);
        }
        self.stage
    }

    /// The first action of the call.
    pub fn start(&mut self) -> (r: MutationAction)
        ensures
            (final(self)@, r) == start_model(old(self)@),
            mutation_wf(final(self)@),
    {
        proof {
            use_type_invariant(&*self);
        }
        if self.stage != MutationStage::Created {
            return MutationAction::Ignored;
        }
        if self.before_hooks > 0 {
            *self = Mutation { stage: MutationStage::BeforeHooks, hook: 0, ..*self };
            MutationAction::RunBeforeHook(0)
        } else {
            *self = Mutation { stage: MutationStage::Sending, sends: Ghost(self.sends@ + 1), ..*self };
            MutationAction::Send
        }
    }

    /// Takes in what the last action came to and gives the next one.
    pub fn on_event(&mut self, e: MutationEvent) -> (r: MutationAction)
        ensures
            (final(self)@, r) == event_model(old(self)@, e),
            mutation_wf(final(self)@),
    {
        proof {
            use_type_invariant(&*self);
        }
        match (self.stage, e) {
            (MutationStage::BeforeHooks, MutationEvent::HookSucceeded) => {
                if self.hook + 1 < self.before_hooks {
                    *self = Mutation { hook: self.hook + 1, ..*self };
                    MutationAction::RunBeforeHook(self.hook)
                } else {
                    *self = Mutation { stage: MutationStage::Sending, sends: Ghost(self.sends@ + 1), ..*self };
                    MutationAction::Send
                }
            },
            (MutationStage::BeforeHooks, MutationEvent::HookFailed(f)) => {
                *self = Mutation { stage: MutationStage::Failed, ..*self };
                MutationAction::Done(Err(QueryError::Hook { phase: HookPhase::Before, index: self.hook, fault: f }))
            },
            (MutationStage::Sending, MutationEvent::Sent) => {
                if self.after_hooks > 0 {
                    *self = Mutation { stage: MutationStage::AfterHooks, hook: 0, ..*self };
                    MutationAction::RunAfterHook(0)
                } else {
                    *self = Mutation { stage: MutationStage::Completed, ..*self };
                    MutationAction::Done(Ok(()))
                }
            },
            (MutationStage::Sending, MutationEvent::SendFailed(t)) => {
                *self = Mutation { stage: MutationStage::Failed, ..*self };
                MutationAction::Done(Err(QueryError::Transport(t)))
            },
            (MutationStage::AfterHooks, MutationEvent::HookSucceeded) => {
                if self.hook + 1 < self.after_hooks {
                    *self = Mutation { hook: self.hook + 1, ..*self };
                    MutationAction::RunAfterHook(self.hook)
                } else {
                    *self = Mutation { stage: MutationStage::Completed, ..*self };
                    MutationAction::Done(Ok(()))
                }
            },
            (MutationStage::AfterHooks, MutationEvent::HookFailed(f)) => {
                *self = Mutation { stage: MutationStage::Failed, ..*self };
                MutationAction::Done(Err(QueryError::Hook { phase: HookPhase::After, index: self.hook, fault: f }))
            },
            _ => MutationAction::Ignored,
        }
    }
}

proof fn lemma_terminal_absorbs(m: MutationModel, es: Seq<MutationEvent>)
    requires
        m.stage == MutationStage::Failed || m.stage == MutationStage::Completed,
    ensures
        run_events(m, es) == m,
    decreases es.len(),
{
    if es.len() > 0 {
        lemma_terminal_absorbs(event_model(m, es[0]).0, es.drop_first());
    }
}

/// A before-hook that fails ends the call with that hook's failure, and no
/// statement is ever sent: whatever is reported afterwards, the count of
/// sends stays zero.
pub proof fn lemma_before_hook_failure_sends_nothing(m: MutationModel, f: HookFault, later: Seq<MutationEvent>)
    requires
        mutation_wf(m),
        m.stage == MutationStage::BeforeHooks,
    ensures
        event_model(m, MutationEvent::HookFailed(f)).1 == MutationAction::Done(
            Err(QueryError::Hook { phase: HookPhase::Before, index: m.hook as usize, fault: f }),
        ),
        run_events(event_model(m, MutationEvent::HookFailed(f)).0, later).sends == 0,
        run_events(event_model(m, MutationEvent::HookFailed(f)).0, later).stage == MutationStage::Failed,
{
    lemma_terminal_absorbs(event_model(m, MutationEvent::HookFailed(f)).0, later);
}

/// An after-hook that fails, once the statement was sent, still leaves the
/// statement sent exactly once, while the call ends in that hook's failure.
pub proof fn lemma_after_hook_failure_keeps_send(m: MutationModel, f: HookFault, later: Seq<MutationEvent>)
    requires
        mutation_wf(m),
        m.stage == MutationStage::AfterHooks,
    ensures
        event_model(m, MutationEvent::HookFailed(f)).1 == MutationAction::Done(
            Err(QueryError::Hook { phase: HookPhase::After, index: m.hook as usize, fault: f }),
        ),
        run_events(event_model(m, MutationEvent::HookFailed(f)).0, later).sends == 1,
        run_events(event_model(m, MutationEvent::HookFailed(f)).0, later).stage == MutationStage::Failed,
{
    lemma_terminal_absorbs(event_model(m, MutationEvent::HookFailed(f)).0, later);
}

/// No call sends its statement more than once, whatever is reported.
pub proof fn lemma_at_most_one_send(m: MutationModel, es: Seq<MutationEvent>)
    requires
        mutation_wf(m),
    ensures
        mutation_wf(run_events(m, es)),
        run_events(m, es).sends <= 1,
    decreases es.len(),
{
    if es.len() > 0 {
        lemma_at_most_one_send(event_model(m, es[0]).0, es.drop_first());
    }
}


/// `n` reports of a hook that succeeded.
pub open spec fn successes(n: nat) -> Seq<MutationEvent> {
    Seq::new(n, |i: int| MutationEvent::HookSucceeded)
}

/// A call that has not started, for a type with `before` and `after` hooks.
pub open spec fn created(before: nat, after: nat) -> MutationModel {
    MutationModel { stage: MutationStage::Created, before_hooks: before, after_hooks: after, hook: 0, sends: 0 }
}

proof fn lemma_run_append(m: MutationModel, a: Seq<MutationEvent>, b: Seq<MutationEvent>)
    ensures
        run_events(m, a + b) == run_events(run_events(m, a), b),
    decreases a.len(),
{
    if a.len() == 0 {
        assert(a + b =~= b);
    } else {
        assert((a + b).drop_first() =~= a.drop_first() + b);
        assert((a + b)[0] == a[0]);
        lemma_run_append(event_model(m, a[0]).0, a.drop_first(), b);
    }
}

proof fn lemma_run_one(m: MutationModel, e: MutationEvent)
    ensures
        run_events(m, seq![e]) == event_model(m, e).0,
{
    let es = seq![e];
    assert(es.drop_first() =~= Seq::<MutationEvent>::empty());
    assert(es[0] == e);
    assert(run_events(event_model(m, e).0, es.drop_first()) == event_model(m, e).0);
}

proof fn lemma_hooks_succeed(m: MutationModel, j: nat)
    requires
        m.stage == MutationStage::BeforeHooks ==> m.hook + j < m.before_hooks,
        m.stage == MutationStage::AfterHooks ==> m.hook + j < m.after_hooks,
        m.stage == MutationStage::BeforeHooks || m.stage == MutationStage::AfterHooks,
    ensures
        run_events(m, successes(j)) == (MutationModel { hook: m.hook + j, ..m }),
    decreases j,
{
    if j == 0 {
        assert(m == MutationModel { hook: m.hook + 0, ..m });
    } else {
        let next = event_model(m, MutationEvent::HookSucceeded).0;
        assert(successes(j)[0] == MutationEvent::HookSucceeded);
        assert(successes(j).drop_first() =~= successes((j - 1) as nat));
        lemma_hooks_succeed(next, (j - 1) as nat);
    }
}

/// A call whose before-hooks all succeed up to the one at index `i`, which
/// fails, ends failed without ever sending its statement.
pub proof fn lemma_run_with_failed_before_hook(before: nat, after: nat, i: nat, f: HookFault)
    requires
        i < before,
    ensures
        run_events(start_model(created(before, after)).0, successes(i).push(MutationEvent::HookFailed(f))).stage
            == MutationStage::Failed,
        run_events(start_model(created(before, after)).0, successes(i).push(MutationEvent::HookFailed(f))).sends
            == 0,
{
    let m1 = start_model(created(before, after)).0;
    let fail = seq![MutationEvent::HookFailed(f)];
    assert(successes(i).push(MutationEvent::HookFailed(f)) =~= successes(i) + fail);
    lemma_run_append(m1, successes(i), fail);
    lemma_hooks_succeed(m1, i);
    lemma_run_one(run_events(m1, successes(i)), MutationEvent::HookFailed(f));
}

/// A call whose before-hooks all succeed, whose statement is sent, and whose
/// after-hook at index `k` fails (those before it succeeded) ends failed
/// with its statement sent exactly once.
pub proof fn lemma_run_with_failed_after_hook(before: nat, after: nat, k: nat, f: HookFault)
    requires
        k < after,
    ensures
        run_events(
            start_model(created(before, after)).0,
            successes(before) + seq![MutationEvent::Sent] + successes(k) + seq![MutationEvent::HookFailed(f)],
        ).stage == MutationStage::Failed,
        run_events(
            start_model(created(before, after)).0,
            successes(before) + seq![MutationEvent::Sent] + successes(k) + seq![MutationEvent::HookFailed(f)],
        ).sends == 1,
{
    let m1 = start_model(created(before, after)).0;
    let sent = seq![MutationEvent::Sent];
    let fail = seq![MutationEvent::HookFailed(f)];
    lemma_run_append(m1, successes(before) + sent + successes(k), fail);
    lemma_run_append(m1, successes(before) + sent, successes(k));
    lemma_run_append(m1, successes(before), sent);
    // after the before-hooks: the statement is being sent
    let m2 = run_events(m1, successes(before));
    if before == 0 {
        assert(successes(0) =~= Seq::<MutationEvent>::empty());
        assert(m2 == m1);
    } else {
        let last = seq![MutationEvent::HookSucceeded];
        assert(successes(before) =~= successes((before - 1) as nat) + last);
        lemma_run_append(m1, successes((before - 1) as nat), last);
        lemma_hooks_succeed(m1, (before - 1) as nat);
        lemma_run_one(run_events(m1, successes((before - 1) as nat)), MutationEvent::HookSucceeded);
    }
    assert(m2.stage == MutationStage::Sending && m2.sends == 1 && m2.after_hooks == after);
    let m3 = run_events(m2, sent);
    lemma_run_one(m2, MutationEvent::Sent);
    assert(m3.stage == MutationStage::AfterHooks && m3.hook == 0 && m3.sends == 1);
    lemma_hooks_succeed(m3, k);
    lemma_run_one(run_events(m3, successes(k)), MutationEvent::HookFailed(f));
}


/// A call in which each of the `before` before-hooks reports success once,
/// the statement is sent, and each of the `after` after-hooks reports
/// success once, is complete with its statement sent exactly once: each
/// declared hook is asked for once and none more.
pub proof fn lemma_run_all_succeed(before: nat, after: nat)
    ensures
        run_events(
            start_model(created(before, after)).0,
            successes(before) + seq![MutationEvent::Sent] + successes(after),
        ).stage == MutationStage::Completed,
        run_events(
            start_model(created(before, after)).0,
            successes(before) + seq![MutationEvent::Sent] + successes(after),
        ).sends == 1,
{
    let m1 = start_model(created(before, after)).0;
    let sent = seq![MutationEvent::Sent];
    lemma_run_append(m1, successes(before) + sent, successes(after));
    lemma_run_append(m1, successes(before), sent);
    let m2 = run_events(m1, successes(before));
    if before == 0 {
        assert(successes(0) =~= Seq::<MutationEvent>::empty());
    } else {
        let last = seq![MutationEvent::HookSucceeded];
        assert(successes(before) =~= successes((before - 1) as nat) + last);
        lemma_run_append(m1, successes((before - 1) as nat), last);
        lemma_hooks_succeed(m1, (before - 1) as nat);
        lemma_run_one(run_events(m1, successes((before - 1) as nat)), MutationEvent::HookSucceeded);
    }
    assert(m2.stage == MutationStage::Sending && m2.sends == 1 && m2.after_hooks == after);
    let m3 = run_events(m2, sent);
    lemma_run_one(m2, MutationEvent::Sent);
    if after == 0 {
        assert(successes(0) =~= Seq::<MutationEvent>::empty());
        assert(m3.stage == MutationStage::Completed);
    } else {
        let last = seq![MutationEvent::HookSucceeded];
        assert(successes(after) =~= successes((after - 1) as nat) + last);
        lemma_run_append(m3, successes((after - 1) as nat), last);
        lemma_hooks_succeed(m3, (after - 1) as nat);
        lemma_run_one(run_events(m3, successes((after - 1) as nat)), MutationEvent::HookSucceeded);
    }
}

} // verus!
