//! Ownership-transfer protocol for parse trees crossing a script-runtime
//! boundary.
//!
//! A host program parses source code into a native syntax tree and hands the
//! tree to a garbage-collected scripting environment, where it is held by a
//! wrapper object that also keeps its own copy of the source bytes.  Later the
//! script can hand the tree, or a node inside it, back to the host.  The
//! delicate part is ownership: a native tree must be freed exactly once, by
//! exactly one side.  This crate states that protocol precisely and proves it:
//! each handle is either host-owned or script-owned, the outbound transfer is
//! the single one-way move between the two, and the inbound direction never
//! moves ownership back — it makes a defensive copy instead.
//!
//! [`handle`] defines the per-handle ownership states; [`protocol`] holds the
//! protocol state of one runtime instance and its operations, each with a
//! contract that pins down the whole new state; [`laws`] states and proves
//! the protocol's guarantees once and for all; [`tree`] holds the host-side
//! values that cross the boundary; [`errors`] the two ways an operation can
//! fail.  The raw FFI glue that drives this protocol against a real runtime
//! lives outside the verified library.

pub mod errors;
pub mod handle;
pub mod laws;
pub mod protocol;
pub mod tree;
