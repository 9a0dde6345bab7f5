//! A batch: the outcomes of its conversions, gathered as they complete into
//! one verdict. The first failure to be recorded is the one reported.

use vstd::prelude::*;
use crate::error::{ConversionOutcome, Failure};

verus! {

/// The failure of the first conversion in `outcomes` that failed.
pub open spec fn first_failure(outcomes: Seq<ConversionOutcome>) -> Option<Failure>
    decreases outcomes.len(),
{
    if outcomes.len() == 0 {
        None
    } else {
        match first_failure(outcomes.drop_last()) {
            Some(failure) => Some(failure),
            None => match outcomes.last() {
                Err(failure) => Some(failure),
                Ok(_) => None,
            },
        }
    }
}

/// Every conversion in `outcomes` produced its output.
pub open spec fn all_converted(outcomes: Seq<ConversionOutcome>) -> bool {
    forall|i: int| 0 <= i < outcomes.len() ==> (#[trigger] outcomes[i]) is Ok
}

/// The verdict on a batch whose conversions ended in `outcomes`, in the
/// order in which they completed.
pub open spec fn verdict(outcomes: Seq<ConversionOutcome>) -> Result<(), Failure> {
    match first_failure(outcomes) {
        Some(failure) => Err(failure),
        None => Ok(()),
    }
}

/// The conversion that ended in `outcome` wrote the file at `path`.
pub open spec fn wrote(outcome: ConversionOutcome, path: Seq<char>) -> bool {
    match outcome {
        Ok(target) => target@ == path,
        Err(_) => false,
    }
}

/// The paths that the conversions in `outcomes` wrote.
pub open spec fn produced(outcomes: Seq<ConversionOutcome>) -> Set<Seq<char>> {
    Set::new(
        |path: Seq<char>|
            exists|i: int| 0 <= i < outcomes.len() && wrote(#[trigger] outcomes[i], path),
    )
}

/// The first failure is that of the earliest outcome that is one, and there
/// is none exactly when every conversion produced its output.
pub proof fn lemma_first_failure(outcomes: Seq<ConversionOutcome>)
    ensures
        match first_failure(outcomes) {
            None => all_converted(outcomes),
            Some(failure) => exists|i: int|
                0 <= i < outcomes.len() && (#[trigger] outcomes[i]) == Err::<String, Failure>(
                    failure,
                ) && all_converted(outcomes.take(i)),
        },
    decreases outcomes.len(),
{
    if outcomes.len() > 0 {
        let earlier = outcomes.drop_last();
        lemma_first_failure(earlier);
        match first_failure(earlier) {
            Some(failure) => {
                let i = choose|i: int|
                    0 <= i < earlier.len() && (#[trigger] earlier[i]) == Err::<String, Failure>(
                        failure,
                    ) && all_converted(earlier.take(i));
                assert(outcomes.take(i) == earlier.take(i));
                assert(outcomes[i] == Err::<String, Failure>(failure));
            },
            None => {
                let last = outcomes.len() - 1;
                assert(outcomes.take(last) == earlier);
                assert forall|i: int| 0 <= i < last implies (#[trigger] outcomes[i]) is Ok by {
                    assert(earlier[i] is Ok);
                }
                if let Err(failure) = outcomes.last() {
                    assert(outcomes[last] == Err::<String, Failure>(failure));
                }
            },
        }
    }
}

/// A failure, once recorded, stays the one reported whatever completes later.
pub proof fn lemma_first_failure_stays(outcomes: Seq<ConversionOutcome>, later: ConversionOutcome)
    requires
        first_failure(outcomes) is Some,
    ensures
        first_failure(outcomes.push(later)) == first_failure(outcomes),
{
    assert(outcomes.push(later).drop_last() == outcomes);
}

/// The verdict on a batch, success or failure, and the paths it wrote do not
/// depend on the order in which its conversions completed.
pub proof fn lemma_order_independent(a: Seq<ConversionOutcome>, b: Seq<ConversionOutcome>)
    requires
        a.to_multiset() == b.to_multiset(),
    ensures
        verdict(a) is Ok <==> verdict(b) is Ok,
        produced(a) == produced(b),
{
    lemma_same_outcomes(a, b);
    lemma_same_outcomes(b, a);
    lemma_first_failure(a);
    lemma_first_failure(b);
    if verdict(a) is Ok && verdict(b) is Err {
        lemma_failure_is_shared(b, a);
    }
    if verdict(b) is Ok && verdict(a) is Err {
        lemma_failure_is_shared(a, b);
    }
    assert forall|path: Seq<char>| produced(a).contains(path) == produced(b).contains(path) by {
        if produced(a).contains(path) {
            lemma_produced_is_shared(a, b, path);
        }
        if produced(b).contains(path) {
            lemma_produced_is_shared(b, a, path);
        }
    }
    assert(produced(a) =~= produced(b));
}

/// Two sequences with the same elements, counted, hold the same outcomes.
proof fn lemma_same_outcomes(a: Seq<ConversionOutcome>, b: Seq<ConversionOutcome>)
    requires
        a.to_multiset() == b.to_multiset(),
    ensures
        forall|i: int| 0 <= i < a.len() ==> b.contains(#[trigger] a[i]),
{
    assert forall|i: int| 0 <= i < a.len() implies b.contains(#[trigger] a[i]) by {
        let outcome = a[i];
        assert(a.contains(outcome));
        vstd::seq_lib::to_multiset_contains(a, outcome);
        vstd::seq_lib::to_multiset_contains(b, outcome);
    }
}

proof fn lemma_failure_is_shared(a: Seq<ConversionOutcome>, b: Seq<ConversionOutcome>)
    requires
        forall|i: int| 0 <= i < a.len() ==> b.contains(#[trigger] a[i]),
        first_failure(a) is Some,
    ensures
        !all_converted(b),
{
    lemma_first_failure(a);
    let failure = first_failure(a)->Some_0;
    let i = choose|i: int|
        0 <= i < a.len() && (#[trigger] a[i]) == Err::<String, Failure>(failure) && all_converted(
            a.take(i),
        );
    assert(b.contains(a[i]));
    let j = choose|j: int| 0 <= j < b.len() && b[j] == a[i];
    assert(b[j] is Err);
}

proof fn lemma_produced_is_shared(
    a: Seq<ConversionOutcome>,
    b: Seq<ConversionOutcome>,
    path: Seq<char>,
)
    requires
        forall|i: int| 0 <= i < a.len() ==> b.contains(#[trigger] a[i]),
        produced(a).contains(path),
    ensures
        produced(b).contains(path),
{
    let i = choose|i: int| 0 <= i < a.len() && wrote(#[trigger] a[i], path);
    assert(b.contains(a[i]));
    let j = choose|j: int| 0 <= j < b.len() && b[j] == a[i];
    assert(wrote(b[j], path));
}

/// The verdict on a batch in the making. Each conversion's outcome is
/// recorded as it completes; the first failure recorded is kept and no later
/// one replaces it.
pub struct BatchResult {
    first_error: Option<Failure>,
    recorded: Ghost<Seq<ConversionOutcome>>,
}

impl BatchResult {
    #[verifier::type_invariant]
    spec fn keeps_first_failure(self) -> bool {
        self.first_error == first_failure(self.recorded@)
    }

    /// The outcomes recorded so far, in the order in which they came.
    pub closed spec fn outcomes(&self) -> Seq<ConversionOutcome> {
        self.recorded@
    }

    /// A batch of which no conversion has completed.
    pub fn new() -> (batch: Self)
        ensures
            batch.outcomes() == Seq::<ConversionOutcome>::empty(),
    {
        BatchResult { first_error: None, recorded: Ghost(Seq::empty()) }
    }

    /// Records the outcome of a conversion that has completed. A failure
    /// recorded earlier stays the one reported; else this outcome's failure,
    /// if it is one, becomes it.
    pub fn record(&mut self, outcome: ConversionOutcome)
        ensures
            final(self).outcomes() == old(self).outcomes().push(outcome),
            verdict(final(self).outcomes()) == match verdict(old(self).outcomes()) {
                Err(failure) => Err(failure),
                Ok(_) => match outcome {
                    Err(failure) => Err(failure),
                    Ok(_) => Ok(()),
                },
            },
    {
        let ghost earlier = self.recorded@;
        let ghost recorded = earlier.push(outcome);
        proof {
            use_type_invariant(&*self);
            assert(recorded.drop_last() =~= earlier);
        }
        if self.first_error.is_some() {
            self.recorded = Ghost(recorded);
        } else {
            let first_error = match outcome {
                Err(failure) => Some(failure),
                Ok(_) => None,
            };
            *self = BatchResult { first_error, recorded: Ghost(recorded) };
        }
    }

    /// Whether a conversion recorded so far has failed.
    pub fn has_failed(&self) -> (failed: bool)
        ensures
            failed == verdict(self.outcomes()) is Err,
            failed == !all_converted(self.outcomes()),
    {
        proof {
            use_type_invariant(self);
            lemma_first_failure(self.recorded@);
        }
        self.first_error.is_some()
    }

    /// The verdict on the conversions recorded: success where every one
    /// produced its output, else the first failure that was recorded.
    pub fn finish(self) -> (result: Result<(), Failure>)
        ensures
            result == verdict(self.outcomes()),
            result is Ok <==> all_converted(self.outcomes()),
    {
        proof {
            use_type_invariant(&self);
            lemma_first_failure(self.recorded@);
        }
        match self.first_error {
            Some(failure) => Err(failure),
            None => Ok(()),
        }
    }
}

/// The status that the process exits with: 0 where every conversion
/// succeeded, 1 where one failed.
pub fn exit_code(result: &Result<(), Failure>) -> (code: i32)
    ensures
        code == (if result is Ok { 0int } else { 1int }),
{
    match result {
        Ok(_) => 0,
        Err(_) => 1,
    }
}

} // verus!
