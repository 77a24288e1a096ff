use vstd::prelude::*;

verus! {

/// A message kind whose layout is not defined yet.
#[derive(Debug, Clone, Copy, PartialEq, Eq, Structural)]
pub enum CanMotorError {
    /// Writing a parameter, and decoding parameter-read results and failure
    /// reports, have no defined wire layout.
    Unsupported,
}

} // verus!
