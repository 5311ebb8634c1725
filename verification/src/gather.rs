use vstd::prelude::*;

verus! {

/// What becomes of a run of steps, each of which was skipped (`None`), gave an
/// item, or failed: the items in order where no step failed, and the failure
/// of the first step that failed otherwise.
pub open spec fn gathered<T, E>(outcomes: Seq<Option<Result<T, E>>>) -> Result<Seq<T>, E>
    decreases outcomes.len(),
{
    if outcomes.len() == 0 {
        Ok(Seq::empty())
    } else {
        match gathered(outcomes.drop_last()) {
            Err(kind) => Err(kind),
            Ok(before) => match outcomes.last() {
                None => Ok(before),
                Some(Ok(item)) => Ok(before.push(item)),
                Some(Err(kind)) => Err(kind),
            },
        }
    }
}

/// A failure among the first `n` steps is the failure of the whole run.
pub proof fn lemma_gathered_failure_stays<T, E>(outcomes: Seq<Option<Result<T, E>>>, n: int)
    requires
        0 <= n <= outcomes.len(),
        gathered(outcomes.take(n)) is Err,
    ensures
        gathered(outcomes) == gathered(outcomes.take(n)),
    decreases outcomes.len() - n,
{
    if n == outcomes.len() {
        assert(outcomes.take(n) =~= outcomes);
    } else {
        assert(outcomes.take(n + 1).drop_last() =~= outcomes.take(n));
        lemma_gathered_failure_stays(outcomes, n + 1);
    }
}

/// One more step after the first `n`: how the run of `n + 1` steps follows
/// from the run of `n`.
pub proof fn lemma_gathered_step<T, E>(outcomes: Seq<Option<Result<T, E>>>, n: int)
    requires
        0 <= n < outcomes.len(),
    ensures
        gathered(outcomes.take(n + 1)) == (match gathered(outcomes.take(n)) {
            Err(kind) => Err(kind),
            Ok(before) => match outcomes[n] {
                None => Ok(before),
                Some(Ok(item)) => Ok(before.push(item)),
                Some(Err(kind)) => Err(kind),
            },
        }),
{
    assert(outcomes.take(n + 1).drop_last() =~= outcomes.take(n));
    assert(outcomes.take(n + 1).last() == outcomes[n]);
}

/// A run succeeds exactly when none of its steps failed.
pub proof fn lemma_gathered_all_or_nothing<T, E>(outcomes: Seq<Option<Result<T, E>>>)
    ensures
        gathered(outcomes) is Ok <==> forall|i: int|
            0 <= i < outcomes.len() ==> !(#[trigger] outcomes[i] matches Some(Err(_))),
    decreases outcomes.len(),
{
    if outcomes.len() > 0 {
        let before = outcomes.drop_last();
        lemma_gathered_all_or_nothing(before);
        assert(forall|i: int| 0 <= i < before.len() ==> before[i] == outcomes[i]);
        if gathered(outcomes) is Ok {
            assert forall|i: int| 0 <= i < outcomes.len() implies !(#[trigger] outcomes[i] matches Some(
                Err(_),
            )) by {
                if i < before.len() {
                    assert(before[i] == outcomes[i]);
                }
            }
        } else {
            if gathered(before) is Ok {
                assert(outcomes[outcomes.len() - 1] matches Some(Err(_)));
            } else {
                let i = choose|i: int| 0 <= i < before.len() && (#[trigger] before[i] matches Some(Err(_)));
                assert(outcomes[i] matches Some(Err(_)));
            }
        }
    }
}

/// The message of the first of a run of checks that failed, where `None`
/// stands for a check that passed.
pub open spec fn first_failure(failures: Seq<Option<Seq<char>>>) -> Option<Seq<char>>
    decreases failures.len(),
{
    if failures.len() == 0 {
        None
    } else {
        match first_failure(failures.drop_last()) {
            Some(message) => Some(message),
            None => failures.last(),
        }
    }
}

/// Where every check passed there is no first failure.
pub proof fn lemma_first_failure_none(failures: Seq<Option<Seq<char>>>)
    requires
        forall|j: int| 0 <= j < failures.len() ==> (#[trigger] failures[j]) is None,
    ensures
        first_failure(failures) is None,
    decreases failures.len(),
{
    if failures.len() > 0 {
        let before = failures.drop_last();
        assert(forall|j: int| 0 <= j < before.len() ==> before[j] == failures[j]);
        lemma_first_failure_none(before);
        assert(failures[failures.len() - 1] is None);
    }
}

/// There is no first failure exactly where every check passed.
pub proof fn lemma_first_failure_is_none(failures: Seq<Option<Seq<char>>>)
    ensures
        first_failure(failures) is None <==> forall|j: int|
            0 <= j < failures.len() ==> (#[trigger] failures[j]) is None,
    decreases failures.len(),
{
    if failures.len() > 0 {
        let before = failures.drop_last();
        lemma_first_failure_is_none(before);
        assert(forall|j: int| 0 <= j < before.len() ==> before[j] == failures[j]);
        if first_failure(failures) is None {
            assert forall|j: int| 0 <= j < failures.len() implies (#[trigger] failures[j]) is None by {
                if j < before.len() {
                    assert(before[j] == failures[j]);
                }
            }
        } else if first_failure(before) is None {
            assert(failures[failures.len() - 1] is Some);
        } else {
            let j = choose|j: int| 0 <= j < before.len() && !((#[trigger] before[j]) is None);
            assert(failures[j] is Some);
        }
    }
}

/// A check that failed after none but passed ones is the first failure.
pub proof fn lemma_first_failure_at(failures: Seq<Option<Seq<char>>>, i: int)
    requires
        0 <= i < failures.len(),
        forall|j: int| 0 <= j < i ==> (#[trigger] failures[j]) is None,
        failures[i] is Some,
    ensures
        first_failure(failures) == failures[i],
    decreases failures.len(),
{
    let before = failures.drop_last();
    assert(forall|j: int| 0 <= j < before.len() ==> before[j] == failures[j]);
    if i == failures.len() - 1 {
        lemma_first_failure_none(before);
    } else {
        lemma_first_failure_at(before, i);
    }
}

} // verus!
