//! Runs of steps of which the first failure ends the run.

use vstd::prelude::*;

verus! {

/// `results[i]` is the first failure among `results`.
pub open spec fn is_first_failure<T, E>(results: Seq<Result<T, E>>, i: int) -> bool {
    &&& 0 <= i < results.len()
    &&& results[i] is Err
    &&& forall|j: int| 0 <= j < i ==> #[trigger] results[j] is Ok
}

/// None of `results` is a failure.
pub open spec fn all_ok<T, E>(results: Seq<Result<T, E>>) -> bool {
    forall|i: int| 0 <= i < results.len() ==> #[trigger] results[i] is Ok
}

/// What a run of steps comes to, where the first failure ends the run: the
/// values of all steps in their order, or the place and the error of the first
/// step that failed.
pub open spec fn gathered<T, E>(results: Seq<Result<T, E>>) -> Result<Seq<T>, (int, E)> {
    if all_ok(results) {
        Ok(Seq::new(results.len(), |i: int| results[i]->Ok_0))
    } else {
        let at = choose|i: int| is_first_failure(results, i);
        Err((at, results[at]->Err_0))
    }
}

/// Steps that all succeeded come to their values.
pub proof fn lemma_gathered_values<T, E>(results: Seq<Result<T, E>>, values: Seq<T>)
    requires
        values.len() == results.len(),
        forall|i: int| 0 <= i < results.len() ==> #[trigger] results[i] == Ok::<T, E>(values[i]),
    ensures
        gathered(results) == Ok::<Seq<T>, (int, E)>(values),
{
    assert(all_ok(results));
    assert(Seq::new(results.len(), |i: int| results[i]->Ok_0) =~= values);
}

/// Steps of which one failed come to the first failure.
pub proof fn lemma_gathered_failure<T, E>(results: Seq<Result<T, E>>, i: int)
    requires
        is_first_failure(results, i),
    ensures
        gathered(results) == Err::<Seq<T>, (int, E)>((i, results[i]->Err_0)),
{
    let at = choose|k: int| is_first_failure(results, k);
    assert(is_first_failure(results, at));
    if at < i {
        assert(results[at] is Ok);
    }
    if i < at {
        assert(results[i] is Ok);
    }
}

/// What a run comes to tells of each step: after success, every step's value;
/// after a failure, that the steps before it succeeded and that this one failed.
pub proof fn lemma_gathered_steps<T, E>(results: Seq<Result<T, E>>)
    ensures
        match gathered(results) {
            Ok(values) => values.len() == results.len() && forall|i: int|
                0 <= i < results.len() ==> #[trigger] results[i] == Ok::<T, E>(values[i]),
            Err((at, error)) => is_first_failure(results, at) && results[at] == Err::<T, E>(error),
        },
{
    if !all_ok(results) {
        lemma_first_failure_exists(results, results.len() as int);
    }
}

/// Among the first `n` steps, either none failed or one was the first to fail.
proof fn lemma_first_failure_exists<T, E>(results: Seq<Result<T, E>>, n: int)
    requires
        0 <= n <= results.len(),
    ensures
        (forall|i: int| 0 <= i < n ==> #[trigger] results[i] is Ok) || exists|i: int|
            is_first_failure(results, i),
    decreases n,
{
    if n > 0 {
        lemma_first_failure_exists(results, n - 1);
        if (forall|i: int| 0 <= i < n - 1 ==> #[trigger] results[i] is Ok)
            && results[n - 1] is Err {
            assert(is_first_failure(results, n - 1));
        }
    }
}

} // verus!
