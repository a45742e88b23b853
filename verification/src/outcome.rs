//! Sequences of outcomes: the first failure decides.

use vstd::prelude::*;
use crate::error::WalkError;

verus! {

/// The values of a sequence of outcomes, in order, where all succeeded; else
/// the first error in it.
pub open spec fn sequence<T>(rs: Seq<Result<T, WalkError>>) -> Result<Seq<T>, WalkError>
    decreases rs.len(),
{
    if rs.len() == 0 {
        Ok(Seq::empty())
    } else {
        match sequence(rs.drop_last()) {
            Err(e) => Err(e),
            Ok(v) => match rs.last() {
                Err(e) => Err(e),
                Ok(x) => Ok(v.push(x)),
            },
        }
    }
}

/// Taking one more outcome into account extends the values by it, or fails
/// with it, unless an earlier outcome failed already.
pub proof fn lemma_sequence_step<T>(rs: Seq<Result<T, WalkError>>, i: int)
    requires
        0 <= i < rs.len(),
    ensures
        sequence(rs.take(i + 1)) == (match sequence(rs.take(i)) {
            Err(e) => Err(e),
            Ok(v) => match rs[i] {
                Err(e) => Err(e),
                Ok(x) => Ok(v.push(x)),
            },
        }),
{
    assert(rs.take(i + 1).drop_last() =~= rs.take(i));
    assert(rs.take(i + 1).last() == rs[i]);
}

/// An error among the first `k` outcomes is the error of the whole sequence.
pub proof fn lemma_sequence_error_stays<T>(rs: Seq<Result<T, WalkError>>, k: int)
    requires
        0 <= k <= rs.len(),
        sequence(rs.take(k)) is Err,
    ensures
        sequence(rs) == sequence(rs.take(k)),
    decreases rs.len() - k,
{
    if k == rs.len() {
        assert(rs.take(k) =~= rs);
    } else {
        lemma_sequence_step(rs, k);
        lemma_sequence_error_stays(rs, k + 1);
    }
}

/// What a sequence of outcomes comes to: where all succeeded, the values
/// one for one; else the error of the first outcome that failed.
pub proof fn lemma_sequence_outcome<T>(rs: Seq<Result<T, WalkError>>)
    ensures
        match sequence(rs) {
            Ok(v) => v.len() == rs.len() && forall|i: int|
                0 <= i < rs.len() ==> #[trigger] rs[i] == Ok::<T, WalkError>(v[i]),
            Err(e) => exists|k: int|
                0 <= k < rs.len() && #[trigger] rs[k] == Err::<T, WalkError>(e) && forall|i: int|
                    0 <= i < k ==> (#[trigger] rs[i]) is Ok,
        },
    decreases rs.len(),
{
    if rs.len() > 0 {
        let front = rs.drop_last();
        lemma_sequence_outcome(front);
        assert forall|i: int| 0 <= i < front.len() implies #[trigger] front[i] == rs[i] by {}
        match sequence(front) {
            Ok(v) => {
                match rs.last() {
                    Ok(x) => {
                        assert forall|i: int| 0 <= i < rs.len() implies #[trigger] rs[i] == Ok::<
                            T,
                            WalkError,
                        >(v.push(x)[i]) by {
                            if i < front.len() {
                                assert(front[i] == rs[i]);
                            }
                        }
                    },
                    Err(e) => {
                        let k = rs.len() - 1;
                        assert(rs[k] == Err::<T, WalkError>(e));
                        assert forall|i: int| 0 <= i < k implies (#[trigger] rs[i]) is Ok by {
                            assert(front[i] == rs[i]);
                        }
                    },
                }
            },
            Err(e) => {
                let k = choose|k: int|
                    0 <= k < front.len() && #[trigger] front[k] == Err::<T, WalkError>(e)
                        && forall|i: int| 0 <= i < k ==> (#[trigger] front[i]) is Ok;
                assert(rs[k] == Err::<T, WalkError>(e));
                assert forall|i: int| 0 <= i < k implies (#[trigger] rs[i]) is Ok by {
                    assert(front[i] == rs[i]);
                }
            },
        }
    }
}

} // verus!
