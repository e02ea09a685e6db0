//! The failures a classification can end in.
use vstd::prelude::*;

verus! {

/// Why a classification failed. Each variant but `Unclassified` and
/// `MissingLabel` carries a diagnostic message.
#[derive(Debug)]
pub enum ClassificationError {
    /// The model could not be read, prepared or run.
    ModelError(String),
    /// The input bytes are not a decodable image.
    ImageError(String),
    /// A resource could not be read as expected.
    IoError(String),
    /// A failure of no other kind.
    Unknown(String),
    /// The scores are empty or hold a NaN, so no maximum exists.
    Unclassified,
    /// The label table has no line for the winning class (counted from 1):
    /// model and labels do not match, and no label may be guessed.
    MissingLabel(usize),
}

} // verus!
