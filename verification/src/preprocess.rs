//! Pre-processing of values before they are rendered into script text.

use vstd::prelude::*;

verus! {

/// A value that must be brought into another form before it can be written
/// into a script line for the controller.
pub trait PreProcess {
    /// The form the value takes after pre-processing.
    type Output;

    /// Bring the value into its pre-processed form.
    fn preprocess(&self) -> Self::Output;

    /// Shorthand for [`PreProcess::preprocess`].
    fn pp(&self) -> Self::Output {
        self.preprocess()
    }
}

} // verus!
