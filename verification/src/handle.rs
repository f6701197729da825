//! Ownership states of native parse-tree handles.
//!
//! A native parse tree owns a region of memory that must be released exactly
//! once.  The protocol therefore tags every handle with the side that owns it.
//! A handle is created host-owned; the outbound transfer moves it to the
//! script side; and nothing ever moves it back — the inbound direction works
//! on a fresh copy instead.

use vstd::prelude::*;

verus! {

/// The side of the boundary that currently owns a live handle.
#[derive(Clone, Copy, PartialEq, Eq, Structural, Debug)]
pub enum Owner {
    /// The host program; its own drop discipline releases the handle.
    Host,
    /// The script runtime; the garbage collector releases the handle when
    /// the wrapper object holding it becomes unreachable.
    Script,
}

/// The lifecycle state of one native parse-tree handle.
#[derive(Clone, Copy, PartialEq, Eq, Structural, Debug)]
pub enum HandleState {
    /// Live and owned by exactly one side.
    Owned(Owner),
    /// Released; no operation may touch the handle again.
    Freed,
}

/// One native parse-tree handle as the protocol tracks it.
///
/// `structure` identifies the immutable tree structure the handle points at.
/// Copies made by the tree library share a `structure` with their original
/// and answer every query — root node kind, node text ranges — alike.
#[derive(Clone, Copy, PartialEq, Eq, Structural, Debug)]
pub struct Handle {
    pub state: HandleState,
    pub structure: usize,
}

impl Handle {
    /// The handle is live and owned by `who`.
    pub open spec fn owned_by(self, who: Owner) -> bool {
        self.state == HandleState::Owned(who)
    }
}

} // verus!
