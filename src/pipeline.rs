//! The last stage of a classification: from the model's scores and the
//! label table to a label and its score.
use vstd::prelude::*;
use crate::error::ClassificationError;
use crate::labels::{get_label, has_line, label_of};
use crate::preprocess::preprocessed;
use crate::score::{best_score, has_maximum, is_first_maximum, lemma_first_maximum_unique};

verus! {

/// A classification: the winning class (counted from 1), its label, and its
/// score as the bit pattern of a single-precision value. The score is the
/// model's raw maximum, not a calibrated probability.
pub struct Classification {
    pub label: String,
    pub class: usize,
    pub score: u32,
}

/// The position of the first maximal score, when the scores have a maximum.
pub open spec fn first_maximum(scores: Seq<u32>) -> int {
    choose|k: int| is_first_maximum(scores, k)
}

/// Picks the class with the highest score (the first one on a tie) and
/// looks up its label on line `class` of `labels`. Scores without a
/// maximum give `Unclassified`; a class beyond the table's last line gives
/// `MissingLabel`, never some other label; a label line that is not UTF-8
/// gives `IoError`.
pub fn resolve(scores: &[u32], labels: &[u8]) -> (r: Result<Classification, ClassificationError>)
    ensures
        !has_maximum(scores@) ==> r matches Err(ClassificationError::Unclassified),
        has_maximum(scores@) ==> is_first_maximum(scores@, first_maximum(scores@)),
        has_maximum(scores@) ==> (r is Ok <==> label_of(labels@, (first_maximum(scores@) + 1) as nat) is Some),
        has_maximum(scores@) ==> (r matches Err(e) ==> (e == ClassificationError::MissingLabel(
            (first_maximum(scores@) + 1) as usize,
        ) <==> !has_line(labels@, first_maximum(scores@) as nat))),
        has_maximum(scores@) ==> (r matches Err(e) ==> (e is IoError <==> has_line(
            labels@,
            first_maximum(scores@) as nat,
        ))),
        r matches Ok(c) ==> {
            &&& c.class == first_maximum(scores@) + 1
            &&& c.score == scores@[first_maximum(scores@)]
            &&& label_of(labels@, c.class as nat) == Some(c.label@)
        },
{
    let n = scores.len();
    match best_score(scores) {
        None => Err(ClassificationError::Unclassified),
        Some(k) => {
            proof {
                let f = first_maximum(scores@);
                assert(is_first_maximum(scores@, k as int));
                lemma_first_maximum_unique(scores@, f, k as int);
            }
            assert(k < n);
            match get_label(labels, k + 1) {
                Ok(label) => Ok(Classification { label, class: k + 1, score: scores[k] }),
                Err(e) => Err(e),
            }
        },
    }
}

/// For fixed bytes, scores and labels every stage has one outcome: the
/// same image bytes always give the same model input, and the same scores
/// and labels always pick the same class and label.
pub proof fn lemma_classification_deterministic(
    bytes1: Seq<u8>,
    bytes2: Seq<u8>,
    scores: Seq<u32>,
    labels: Seq<u8>,
    k1: int,
    k2: int,
)
    requires
        bytes1 == bytes2,
        is_first_maximum(scores, k1),
        is_first_maximum(scores, k2),
    ensures
        preprocessed(bytes1) == preprocessed(bytes2),
        k1 == k2,
        k1 == first_maximum(scores),
        label_of(labels, (k1 + 1) as nat) == label_of(labels, (k2 + 1) as nat),
{
    lemma_first_maximum_unique(scores, k1, k2);
    lemma_first_maximum_unique(scores, k1, first_maximum(scores));
}

/// Scores longer than the label table cannot lend a label they do not
/// have: when the winning class has no line, the result is `MissingLabel`.
pub proof fn lemma_label_overflow_is_flagged(scores: Seq<u32>, labels: Seq<u8>, k: int)
    requires
        is_first_maximum(scores, k),
        !has_line(labels, k as nat),
    ensures
        label_of(labels, (k + 1) as nat) is None,
        k == first_maximum(scores),
{
    lemma_first_maximum_unique(scores, k, first_maximum(scores));
}

} // verus!
