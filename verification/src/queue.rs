//! Calls that are waiting to be made, one after the other.

use vstd::prelude::*;

verus! {

/// Calls to make in order. The next one is handed out until the caller says
/// how it went; a failure drops all that were still waiting.
pub struct StepQueue<S> {
    pending: Vec<S>,
    failed: bool,
}

/// What a [`StepQueue`] holds: the calls that are still to be made, the next
/// one first, and whether one of the earlier ones failed.
#[verifier::ext_equal]
pub struct QueueState<S> {
    pub pending: Seq<S>,
    pub failed: bool,
}

impl<S> View for StepQueue<S> {
    type V = QueueState<S>;

    closed spec fn view(&self) -> QueueState<S> {
        QueueState { pending: self.pending@, failed: self.failed }
    }
}

impl<S> QueueState<S> {
    /// Nothing waits any more once a call has failed.
    pub open spec fn wf(self) -> bool {
        self.failed ==> self.pending.len() == 0
    }

    /// Every call was made and none failed.
    pub open spec fn complete(self) -> bool {
        self.pending.len() == 0 && !self.failed
    }

    /// The queue after the next call went well and asked for further calls,
    /// which come before all that were waiting.
    pub open spec fn after_success(self, follow_up: Seq<S>) -> QueueState<S> {
        QueueState { pending: follow_up + self.pending.drop_first(), failed: self.failed }
    }

    /// The queue after the next call failed.
    pub open spec fn after_failure(self) -> QueueState<S> {
        QueueState { pending: Seq::empty(), failed: true }
    }
}

impl<S> StepQueue<S> {
    /// Queues calls, the first to be made first.
    pub fn new(steps: Vec<S>) -> (r: Self)
        ensures
            r@ == (QueueState { pending: steps@, failed: false }),
            r@.wf(),
    {
        StepQueue { pending: steps, failed: false }
    }

    /// The call to make next.
    pub fn next(&self) -> (r: Option<&S>)
        ensures
            r is Some <==> self@.pending.len() > 0,
            r matches Some(step) ==> *step == self@.pending[0],
    {
        if self.pending.len() > 0 {
            Some(&self.pending[0])
        } else {
            None
        }
    }

    /// Says that the next call went well and asked for `follow_up`.
    pub fn succeed(&mut self, follow_up: Vec<S>)
        requires
            old(self)@.pending.len() > 0,
            old(self)@.wf(),
        ensures
            final(self)@ == old(self)@.after_success(follow_up@),
            final(self)@.wf(),
    {
        let mut follow_up = follow_up;
        let ghost asked = follow_up@;
        let ghost before = self.pending@;
        let _ = self.pending.remove(0);
        assert(self.pending@ =~= before.drop_first());
        follow_up.append(&mut self.pending);
        self.pending = follow_up;
        assert(self.pending@ =~= asked + before.drop_first());
    }

    /// Says that the next call failed.
    pub fn fail(&mut self)
        requires
            old(self)@.pending.len() > 0,
        ensures
            final(self)@ == old(self)@.after_failure(),
            final(self)@.wf(),
    {
        self.pending = Vec::new();
        self.failed = true;
        assert(self.pending@ =~= Seq::empty());
    }

    /// Whether every call was made and none failed.
    pub fn is_complete(&self) -> (r: bool)
        ensures
            r == self@.complete(),
    {
        self.pending.len() == 0 && !self.failed
    }
}

/// The queue after calls that went as `outcomes` says, while there were calls
/// to make, none of them asking for further ones.
pub open spec fn run<S>(start: QueueState<S>, outcomes: Seq<bool>) -> QueueState<S>
    decreases outcomes.len(),
{
    if outcomes.len() == 0 || start.pending.len() == 0 {
        start
    } else if outcomes[0] {
        run(start.after_success(Seq::empty()), outcomes.drop_first())
    } else {
        start.after_failure()
    }
}

/// The calls that are made on the way to `run(start, outcomes)`.
pub open spec fn made<S>(start: QueueState<S>, outcomes: Seq<bool>) -> Seq<S>
    decreases outcomes.len(),
{
    if outcomes.len() == 0 || start.pending.len() == 0 {
        Seq::empty()
    } else if outcomes[0] {
        seq![start.pending[0]] + made(
            start.after_success(Seq::empty()),
            outcomes.drop_first(),
        )
    } else {
        seq![start.pending[0]]
    }
}

/// Calls are made in the order in which they were queued, none is left out
/// before one that is made, and none is made after one that failed.
pub proof fn law_calls_are_made_in_order_until_one_fails<S>(steps: Seq<S>, outcomes: Seq<bool>)
    ensures
        ({
            let calls = made(QueueState { pending: steps, failed: false }, outcomes);
            &&& calls.len() <= steps.len()
            &&& calls.len() <= outcomes.len()
            &&& calls == steps.take(calls.len() as int)
            &&& forall|i: int| 0 <= i < calls.len() - 1 ==> #[trigger] outcomes[i]
        }),
    decreases outcomes.len(),
{
    let start = QueueState { pending: steps, failed: false };
    let calls = made(start, outcomes);
    if outcomes.len() > 0 && steps.len() > 0 && outcomes[0] {
        let rest = steps.drop_first();
        assert(start.after_success(Seq::empty()) =~= (QueueState { pending: rest, failed: false }));
        law_calls_are_made_in_order_until_one_fails(rest, outcomes.drop_first());
        let later = made(QueueState { pending: rest, failed: false }, outcomes.drop_first());
        assert(calls =~= seq![steps[0]] + later);
        assert(calls =~= steps.take(calls.len() as int));
        assert forall|i: int| 0 <= i < calls.len() - 1 implies #[trigger] outcomes[i] by {
            if i > 0 {
                assert(outcomes[i] == outcomes.drop_first()[i - 1]);
            }
        }
    } else {
        assert(calls =~= steps.take(calls.len() as int));
    }
}

/// The queue is complete after calls with given outcomes exactly if there was
/// an outcome for every call and all of them were good; it has failed exactly
/// if one of the calls made failed.
pub proof fn law_complete_means_every_call_went_well<S>(steps: Seq<S>, outcomes: Seq<bool>)
    ensures
        ({
            let end = run(QueueState { pending: steps, failed: false }, outcomes);
            &&& end.complete() <==> (steps.len() <= outcomes.len() && forall|i: int|
                0 <= i < steps.len() ==> #[trigger] outcomes[i])
            &&& end.failed <==> (exists|i: int|
                0 <= i < steps.len() && i < outcomes.len() && !#[trigger] outcomes[i])
            &&& end.wf()
        }),
    decreases outcomes.len(),
{
    let start = QueueState { pending: steps, failed: false };
    if outcomes.len() > 0 && steps.len() > 0 {
        if outcomes[0] {
            let rest = steps.drop_first();
            let later = outcomes.drop_first();
            assert(start.after_success(Seq::empty()) =~= (QueueState {
                pending: rest,
                failed: false,
            }));
            law_complete_means_every_call_went_well(rest, later);
            assert(forall|i: int| 0 <= i < later.len() ==> later[i] == #[trigger] outcomes[i + 1]);
            let end = run(start, outcomes);
            if end.complete() {
                assert forall|i: int| 0 <= i < steps.len() implies #[trigger] outcomes[i] by {
                    if i > 0 {
                        assert(later[i - 1]);
                    }
                }
            }
            if steps.len() <= outcomes.len() && forall|i: int|
                0 <= i < steps.len() ==> #[trigger] outcomes[i] {
                assert(forall|i: int| 0 <= i < rest.len() ==> #[trigger] later[i]);
            }
            if end.failed {
                let j = choose|j: int|
                    0 <= j < rest.len() && j < later.len() && !#[trigger] later[j];
                assert(!outcomes[j + 1]);
            }
            if exists|i: int| 0 <= i < steps.len() && i < outcomes.len() && !#[trigger] outcomes[i] {
                let i = choose|i: int|
                    0 <= i < steps.len() && i < outcomes.len() && !#[trigger] outcomes[i];
                assert(!later[i - 1]);
            }
        } else {
            assert(!outcomes[0]);
        }
    }
}

/// Calls that a call asks for come right after it, in their order, and all that were
/// waiting come after them, in theirs; a failure leaves nothing to make. A queue is
/// complete exactly if nothing is left to make and nothing failed.
pub proof fn law_further_calls_come_first<S>(state: QueueState<S>, follow_up: Seq<S>)
    requires
        state.pending.len() > 0,
    ensures
        ({
            let after = state.after_success(follow_up);
            &&& after.pending.len() == follow_up.len() + state.pending.len() - 1
            &&& forall|i: int|
                0 <= i < follow_up.len() ==> #[trigger] after.pending[i] == follow_up[i]
            &&& forall|i: int|
                0 < i < state.pending.len() ==> after.pending[follow_up.len() + i - 1]
                    == #[trigger] state.pending[i]
            &&& after.failed == state.failed
            &&& after.complete() <==> follow_up.len() == 0 && state.pending.len() == 1
                && !state.failed
        }),
        state.after_failure().pending.len() == 0,
        state.after_failure().failed,
        !state.after_failure().complete(),
        !state.complete(),
{
}

} // verus!
