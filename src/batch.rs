use vstd::prelude::*;

use crate::aligned_read::AlignedRead;
use crate::error::{ANNError, ANNResult, IoErrorKind, IoFailure};

verus! {

/// Outcome of a batch whose units finished with `units`, taken in submission order: every
/// filled request, in that order, or the error of the first unit that failed.
pub open spec fn batch_outcome<T>(units: Seq<ANNResult<AlignedRead<T>>>) -> ANNResult<
    Seq<AlignedRead<T>>,
>
    decreases units.len(),
{
    if units.len() == 0 {
        Ok(Seq::empty())
    } else {
        match batch_outcome(units.drop_last()) {
            Err(e) => Err(e),
            Ok(done) => match units.last() {
                Ok(req) => Ok(done.push(req)),
                Err(e) => Err(e),
            },
        }
    }
}

/// Once a prefix of the units has failed, the whole batch fails with that error.
proof fn lemma_failed_prefix<T>(units: Seq<ANNResult<AlignedRead<T>>>, k: int)
    requires
        0 <= k <= units.len(),
        batch_outcome(units.take(k)) is Err,
    ensures
        batch_outcome(units) == batch_outcome(units.take(k)),
    decreases units.len() - k,
{
    if k < units.len() {
        assert(units.take(k + 1).drop_last() =~= units.take(k));
        lemma_failed_prefix(units, k + 1);
    } else {
        assert(units.take(k) =~= units);
    }
}

/// Collects the outcomes of a batch's units, awaited in submission order: the filled
/// requests in that order, or the first failure.
pub fn collect_in_order<T>(units: Vec<ANNResult<AlignedRead<T>>>) -> (r: ANNResult<
    Vec<AlignedRead<T>>,
>)
    ensures
        r matches Ok(v) ==> batch_outcome(units@) == Ok::<Seq<AlignedRead<T>>, ANNError>(v@),
        r matches Err(e) ==> batch_outcome(units@) == Err::<Seq<AlignedRead<T>>, ANNError>(e),
{
    let ghost all = units@;
    let mut results: Vec<AlignedRead<T>> = Vec::new();
    for unit in it: units.into_iter()
        invariant
            all == units@,
            batch_outcome(all.take(it.index())) == Ok::<Seq<AlignedRead<T>>, ANNError>(results@),
    {
        assert(all.take(it.index() + 1).drop_last() =~= all.take(it.index()));
        match unit {
            Ok(req) => {
                results.push(req);
            },
            Err(e) => {
                proof {
                    lemma_failed_prefix(all, it.index() + 1);
                }
                return Err(e);
            },
        }
    }
    assert(all.take(all.len() as int) =~= all);
    Ok(results)
}

/// The batch keeps the order of its requests: when the unit of each request hands that
/// request back, the batch returns the requests as submitted, so the i-th result has the
/// i-th offset; an empty batch yields an empty result rather than an error.
pub proof fn lemma_order_preserved<T>(requests: Seq<AlignedRead<T>>, units: Seq<ANNResult<AlignedRead<T>>>)
    requires
        units.len() == requests.len(),
        forall|i: int| 0 <= i < units.len() ==> units[i] == Ok::<AlignedRead<T>, ANNError>(#[trigger] requests[i]),
    ensures
        batch_outcome(units) == Ok::<Seq<AlignedRead<T>>, ANNError>(requests),
        forall|i: int| 0 <= i < requests.len() ==> (match batch_outcome(units) {
            Ok(v) => v[i].offset == #[trigger] requests[i].offset,
            Err(_) => false,
        }),
    decreases units.len(),
{
    if units.len() > 0 {
        let n = units.len() - 1;
        lemma_order_preserved(requests.drop_last(), units.drop_last());
        assert(units.last() == Ok::<AlignedRead<T>, ANNError>(requests[n]));
        assert(requests.drop_last().push(requests[n]) =~= requests);
    } else {
        assert(requests =~= Seq::<AlignedRead<T>>::empty());
    }
}

/// A batch succeeds exactly when every unit succeeded, with as many results as requests;
/// otherwise its error is the error of the first unit that failed.
pub proof fn lemma_first_failure<T>(units: Seq<ANNResult<AlignedRead<T>>>)
    ensures
        batch_outcome(units) is Ok <==> forall|i: int| 0 <= i < units.len() ==> #[trigger] units[i] is Ok,
        batch_outcome(units) matches Ok(v) ==> v.len() == units.len(),
        forall|k: int|
            0 <= k < units.len() && #[trigger] units[k] is Err && (forall|j: int| 0 <= j < k ==> units[j] is Ok)
            ==> batch_outcome(units) == Err::<Seq<AlignedRead<T>>, ANNError>(units[k]->Err_0),
    decreases units.len(),
{
    if units.len() > 0 {
        let init = units.drop_last();
        lemma_first_failure(init);
        assert forall|i: int| 0 <= i < init.len() implies init[i] == units[i] by {}
        assert forall|k: int|
            0 <= k < units.len() && #[trigger] units[k] is Err && (forall|j: int| 0 <= j < k ==> units[j] is Ok)
            implies batch_outcome(units) == Err::<Seq<AlignedRead<T>>, ANNError>(units[k]->Err_0) by {
            if k < init.len() {
                assert(init[k] == units[k]);
                assert forall|j: int| 0 <= j < k implies init[j] is Ok by {
                    assert(init[j] == units[j]);
                }
            } else {
                assert forall|i: int| 0 <= i < init.len() implies #[trigger] init[i] is Ok by {
                    assert(init[i] == units[i]);
                }
            }
        }
        if batch_outcome(units) is Ok {
            assert forall|i: int| 0 <= i < units.len() implies #[trigger] units[i] is Ok by {
                if i < init.len() {
                    assert(init[i] == units[i]);
                }
            }
        }
        if forall|i: int| 0 <= i < units.len() ==> #[trigger] units[i] is Ok {
            assert forall|i: int| 0 <= i < init.len() implies #[trigger] init[i] is Ok by {
                assert(init[i] == units[i]);
            }
            assert(units[units.len() - 1] is Ok);
        }
    }
}

} // verus!
