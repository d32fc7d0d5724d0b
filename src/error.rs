use vstd::prelude::*;

verus! {

/// Failures reported by the graphics engine.
#[derive(Debug, Clone, Copy, PartialEq, Eq, Structural)]
pub enum GraphicsError {
    /// The byte stream is not a bitmap this engine reads (bad magic, or a
    /// depth or layout it cannot turn into a canvas).
    InvalidFormat,
    /// The bitmap uses a compression scheme other than none.
    UnsupportedFormat,
    /// The byte source ended before a field or block that was asked for.
    IOError,
    /// A rectangle was given a negative width or height.
    InvalidDimensions,
    /// A blit or shift reaches outside one of the canvases involved.
    OutOfBounds,
    /// A sprite was erased before it was ever drawn.
    InvalidState,
}

} // verus!
