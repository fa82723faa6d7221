//! Build-time failures of the transformation.
//!
//! Every failure is fail-fast: it replaces the whole intended output, and it
//! is pinned to the offending position so a diagnostic can point at the
//! user's own tokens.

use vstd::prelude::*;

verus! {

/// A build-time failure, pinned to the position it arose at.
///
/// `UnexpectedInput` carries the index of the offending configuration token;
/// `SelfParam` carries the index of the receiver parameter that the erasure
/// scheme cannot support.
#[derive(Clone, Copy, Debug, PartialEq, Eq, Structural)]
pub enum BuildError {
    UnexpectedInput { pos: usize },
    SelfParam { param: usize },
}

impl BuildError {
    /// The diagnostic text of this failure.
    pub fn message(&self) -> (r: String)
        ensures
            *self is UnexpectedInput ==> r@ == "Unexpected input"@,
            *self is SelfParam ==> r@ == "Not implemented for Self"@,
    {
        match self {
            BuildError::UnexpectedInput { .. } => "Unexpected input".to_owned(),
            BuildError::SelfParam { .. } => "Not implemented for Self".to_owned(),
        }
    }

    /// The position the failure is pinned to: a configuration token index
    /// for `UnexpectedInput`, a parameter index for `SelfParam`.
    pub fn position(&self) -> (r: usize)
        ensures
            *self matches BuildError::UnexpectedInput { pos } ==> r == pos,
            *self matches BuildError::SelfParam { param } ==> r == param,
    {
        match self {
            BuildError::UnexpectedInput { pos } => *pos,
            BuildError::SelfParam { param } => *param,
        }
    }
}

} // verus!
