use vstd::prelude::*;

use crate::error::ModelError;

verus! {

/// Construction of unigram models. Their scores are floats, so the model itself
/// is built by the caller once the arguments have been accepted here.
pub struct RbUnigram {}

/// A vocabulary and an unknown-token index go together: either both are given
/// and the index points into the vocabulary, or only the vocabulary is given,
/// or neither is (the default model).
pub open spec fn unigram_args_ok(vocab_len: Option<usize>, unk_id: Option<usize>) -> bool {
    match (vocab_len, unk_id) {
        (Some(n), Some(u)) => u < n,
        (Some(_), None) => true,
        (None, None) => true,
        (None, Some(_)) => false,
    }
}

impl RbUnigram {
    /// Checks the arguments of a unigram model: `vocab_len` is the number of
    /// scored tokens given (`None` when no vocabulary is given).
    pub fn check_args(vocab_len: Option<usize>, unk_id: Option<usize>) -> (r: Result<
        (),
        ModelError,
    >)
        ensures
            r is Ok <==> unigram_args_ok(vocab_len, unk_id),
            r matches Err(e) ==> e is Argument,
            r matches Err(ModelError::Argument(m)) ==> m@ == (if vocab_len is None {
                "`vocab` and `unk_id` must be both specified"@
            } else {
                "`unk_id` is not in the vocabulary"@
            }),
    {
        match (vocab_len, unk_id) {
            (Some(n), Some(u)) => {
                if u < n {
                    Ok(())
                } else {
                    Err(ModelError::Argument(String::from_str("`unk_id` is not in the vocabulary")))
                }
            },
            (Some(_), None) => Ok(()),
            (None, None) => Ok(()),
            (None, Some(_)) => Err(
                ModelError::Argument(String::from_str("`vocab` and `unk_id` must be both specified")),
            ),
        }
    }
}

} // verus!
