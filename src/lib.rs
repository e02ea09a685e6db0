//! Single-image classification: decoding and tensor layout, best-score
//! selection, label lookup and the reply shown to an HTTP caller.

pub mod error;
pub mod labels;
pub mod score;
pub mod preprocess;
pub mod pipeline;
pub mod reply;
