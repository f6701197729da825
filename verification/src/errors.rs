//! The two ways an adapter operation can fail.
//!
//! Neither error is ever retried automatically: every failure is surfaced
//! synchronously to the immediate caller, and a failed transfer has no
//! effect on the protocol state.

use vstd::prelude::*;

verus! {

/// The script runtime could not allocate the native call frame needed to
/// perform an operation.  The caller decides whether to abort or to retry
/// with a fresh runtime instance.
#[derive(Clone, Copy, PartialEq, Eq, Structural, Debug)]
pub struct RuntimeError;

/// The caller supplied a script value that is not the wrapper or node
/// reference it was claimed to be.  Recoverable: the caller can type-check
/// the value beforehand.
#[derive(Clone, Copy, PartialEq, Eq, Structural, Debug)]
pub struct TypeMismatch;

} // verus!
