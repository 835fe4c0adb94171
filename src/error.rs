use vstd::prelude::*;

verus! {

/// The two ways a segmentation model can be unusable.
#[derive(Debug, Clone, Copy, PartialEq, Eq, Structural)]
pub enum Error {
    /// The dictionary holds more entries than a signed 16-bit id can number.
    Limit,
    /// The model's name names no known tokenization, or a decoded class
    /// lies outside the four boundary tags.
    Syntax,
}

} // verus!
