use vstd::prelude::*;

verus! {

/// The single failure mode of this library: a caller handed an operation a
/// value its contract forbids — a negative elapsed time, or a non-positive
/// frame duration. It is surfaced immediately and never retried or recovered
/// internally.
#[derive(Clone, Copy, Debug, PartialEq, Eq, Structural)]
pub enum AnimError {
    InvalidInput,
}

} // verus!
