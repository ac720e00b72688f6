//! The result of a batch: one outcome for each input file, in the order in
//! which the files were named.
//!
//! The files of a batch are processed independently, and each is attempted
//! whatever became of the others. The batch as a whole succeeds only if every
//! file did; otherwise it fails with the failure of the first file, in the
//! order of the input, that failed.

use crate::failure::Failure;
use vstd::prelude::*;

verus! {

/// Whether every file of the batch was processed. An empty batch succeeds.
pub open spec fn all_succeeded(outcomes: Seq<Result<(), Failure>>) -> bool {
    forall|i: int| 0 <= i < outcomes.len() ==> outcomes[i] is Ok
}

/// Whether `k` is the place of the first file that failed.
pub open spec fn is_first_failure(outcomes: Seq<Result<(), Failure>>, k: int) -> bool {
    &&& 0 <= k < outcomes.len()
    &&& outcomes[k] is Err
    &&& forall|i: int| 0 <= i < k ==> outcomes[i] is Ok
}

/// The result of a batch from the outcomes of its files.
pub fn batch_result<'a>(outcomes: &'a [Result<(), Failure>]) -> (result: Result<(), &'a Failure>)
    ensures
        match result {
            Ok(_) => all_succeeded(outcomes@),
            Err(failure) => exists|k: int|
                is_first_failure(outcomes@, k) && outcomes@[k] == Err::<(), Failure>(*failure),
        },
{
    let mut i: usize = 0;
    while i < outcomes.len()
        invariant
            i <= outcomes.len(),
            forall|j: int| 0 <= j < i ==> outcomes@[j] is Ok,
        decreases outcomes.len() - i,
    {
        match &outcomes[i] {
            Ok(_) => {},
            Err(failure) => {
                assert(is_first_failure(outcomes@, i as int));
                return Err(failure);
            },
        }
        i = i + 1;
    }
    Ok(())
}

} // verus!
