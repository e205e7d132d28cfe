use vstd::prelude::*;

verus! {

/// What a sample does with golden images of its frames.
#[derive(Clone, Copy, Debug, PartialEq, Eq, Structural)]
pub enum GoldenImageMode {
    /// Takes none: golden images are off.
    Off,
    /// Saves the frame as the golden image.
    Capture,
    /// Compares the frame with the golden image.
    Compare,
    /// Compares the frame with the golden image, then saves it as the new one.
    CompareUpdate,
}

} // verus!
