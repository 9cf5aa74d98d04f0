//! Steps that are taken one after another until one of them fails.

use vstd::prelude::*;

verus! {

/// A sequence, as specifications see it.
#[verifier::ext_equal]
pub ghost struct SequenceView<S> {
    pub steps: Seq<S>,
    /// How many steps succeeded.
    pub taken: nat,
    /// Whether a step has failed.
    pub failed: bool,
}

impl<S> SequenceView<S> {
    /// Steps of which none was taken yet.
    pub open spec fn start(steps: Seq<S>) -> SequenceView<S> {
        SequenceView { steps, taken: 0, failed: false }
    }

    /// The steps that are still to be taken if all goes well.
    pub open spec fn left(self) -> Seq<S> {
        if self.failed {
            Seq::empty()
        } else {
            self.steps.skip(self.taken as int)
        }
    }

    /// Whether all steps succeeded.
    pub open spec fn done(self) -> bool {
        !self.failed && self.taken == self.steps.len()
    }

    /// The sequence after the pending step went well or not. Where nothing is
    /// pending, everything stays as it is.
    pub open spec fn after(self, success: bool) -> SequenceView<S> {
        if self.left().len() == 0 {
            self
        } else if success {
            SequenceView { taken: self.taken + 1, ..self }
        } else {
            SequenceView { failed: true, ..self }
        }
    }
}

/// Steps that are taken one after another until one of them fails.
#[derive(Debug)]
pub struct Sequence<S> {
    steps: Vec<S>,
    taken: usize,
    failed: bool,
}

impl<S> View for Sequence<S> {
    type V = SequenceView<S>;

    closed spec fn view(&self) -> SequenceView<S> {
        SequenceView { steps: self.steps@, taken: self.taken as nat, failed: self.failed }
    }
}

impl<S> Sequence<S> {
    /// No more steps succeeded than there are.
    #[verifier::type_invariant]
    spec fn taken_fits(self) -> bool {
        self.taken <= self.steps@.len()
    }

    /// Steps of which none was taken yet.
    pub fn new(steps: Vec<S>) -> (sequence: Sequence<S>)
        ensures
            sequence@ == SequenceView::start(steps@),
            sequence@.left() == steps@,
    {
        let sequence = Sequence { steps, taken: 0, failed: false };
        assert(sequence@.left() =~= steps@);
        sequence
    }

    /// The step to take now, if there is one.
    pub fn pending(&self) -> (step: Option<&S>)
        ensures
            step is None <==> self@.left().len() == 0,
            step matches Some(now) ==> *now == self@.left()[0],
    {
        proof {
            use_type_invariant(self);
        }
        if self.failed || self.taken == self.steps.len() {
            None
        } else {
            Some(&self.steps[self.taken])
        }
    }

    /// Takes note of how the step went.
    pub fn report(&mut self, success: bool)
        ensures
            final(self)@ == old(self)@.after(success),
    {
        proof {
            use_type_invariant(&*self);
        }
        if self.failed || self.taken == self.steps.len() {
            return;
        }
        if success {
            self.taken = self.taken + 1;
        } else {
            self.failed = true;
        }
    }

    /// Whether all steps were taken and succeeded.
    pub fn complete(&self) -> (complete: bool)
        ensures
            complete == self@.done(),
    {
        !self.failed && self.taken == self.steps.len()
    }
}

/// The state of a sequence after a list of outcomes.
pub open spec fn course<S>(steps: Seq<S>, outcomes: Seq<bool>) -> SequenceView<S>
    decreases outcomes.len(),
{
    if outcomes.len() == 0 {
        SequenceView::start(steps)
    } else {
        course(steps, outcomes.drop_last()).after(outcomes.last())
    }
}

/// Whether the first `count` outcomes, as far as there are so many, were good.
pub open spec fn all_succeeded(outcomes: Seq<bool>, count: nat) -> bool {
    forall|k: int| 0 <= k < outcomes.len() && k < count ==> #[trigger] outcomes[k]
}

/// Steps are complete if and only if every one of them was taken and succeeded.
/// The first one that failed ends them for good: no step is taken after it.
pub proof fn law_a_failure_ends_the_steps<S>(steps: Seq<S>, outcomes: Seq<bool>)
    ensures
        course(steps, outcomes).done() <==> steps.len() <= outcomes.len() && all_succeeded(
            outcomes,
            steps.len(),
        ),
        !all_succeeded(outcomes, steps.len()) ==> course(steps, outcomes).left().len() == 0,
{
    lemma_course(steps, outcomes);
}

/// Steps are taken in order, each once: as long as all succeed, what is left is
/// what follows those that were taken.
pub proof fn law_steps_are_taken_in_order<S>(steps: Seq<S>, outcomes: Seq<bool>)
    requires
        outcomes.len() <= steps.len(),
        all_succeeded(outcomes, steps.len()),
    ensures
        course(steps, outcomes).left() == steps.skip(outcomes.len() as int),
{
    lemma_course(steps, outcomes);
}

proof fn lemma_course<S>(steps: Seq<S>, outcomes: Seq<bool>)
    ensures
        ({
            let count = steps.len();
            let last = course(steps, outcomes);
            &&& last.steps == steps
            &&& last.failed == !all_succeeded(outcomes, count)
            &&& last.taken <= count
            &&& !last.failed ==> last.taken == if outcomes.len() < count {
                outcomes.len()
            } else {
                count
            }
        }),
    decreases outcomes.len(),
{
    let count = steps.len();
    if outcomes.len() > 0 {
        let n = outcomes.len() - 1;
        let earlier = outcomes.drop_last();
        lemma_course(steps, earlier);
        assert(forall|k: int| 0 <= k < earlier.len() ==> #[trigger] earlier[k] == outcomes[k]);
        if all_succeeded(outcomes, count) {
            assert(all_succeeded(earlier, count));
            if n < count {
                assert(outcomes[n]);
            }
        } else {
            let k = choose|k: int|
                0 <= k < outcomes.len() && k < count && !#[trigger] outcomes[k];
            if k < n {
                assert(!earlier[k]);
            }
        }
    }
}

} // verus!
