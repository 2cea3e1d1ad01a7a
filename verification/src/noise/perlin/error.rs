use vstd::prelude::*;

verus! {

/// Why a request was turned down before any work was done.
#[derive(Clone, Copy, Debug, PartialEq, Eq, Structural)]
pub enum NoiseError {
    /// A parameter lies outside the range the engine is defined on.
    InvalidParameter,
}

} // verus!
