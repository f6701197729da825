//! The host-side values that cross the boundary: a native parse tree paired
//! with the source bytes it was parsed from, and a non-owning node
//! reference.
//!
//! The native tree and node types come from the tree library and are opaque
//! here: the adapter never looks inside them, it only carries them across
//! the boundary.  What the adapter does state — which source bytes travel
//! with which tree — is proved.

use vstd::prelude::*;

verus! {

/// The tree library's parse-tree handle, declared so it can be carried in
/// signatures and fields.  Opaque: nothing is assumed about its contents.
#[verifier::external_type_specification]
#[verifier::external_body]
pub struct ExTree(tree_sitter::Tree);

/// The tree library's non-owning node reference, declared so it can be
/// carried in signatures and fields.  Opaque, and valid only while the tree
/// it points into is.
#[verifier::external_type_specification]
#[verifier::external_body]
pub struct ExNode<'a>(tree_sitter::Node<'a>);

/// A parse tree together with a borrowed view of the source bytes it was
/// parsed from.  The borrow may not outlive the buffer, and any text-range
/// query on the tree is meaningful only against exactly these bytes.  This
/// is the value the outbound transfer consumes and the inbound transfer
/// reconstructs.
pub struct TreeWithSource<'a> {
    /// The native parse tree; owned by this value.
    pub tree: tree_sitter::Tree,
    /// The source bytes the tree's node ranges index into.
    pub src: &'a [u8],
}

/// Pairs a parse tree with the source code that it was parsed from.
pub trait WithSource {
    /// Combines a parse tree with its source bytes.
    fn with_source<'a>(self, src: &'a [u8]) -> (r: TreeWithSource<'a>)
        ensures
            r.src@ == src@,
    ;
}

impl WithSource for tree_sitter::Tree {
    fn with_source<'a>(self, src: &'a [u8]) -> (r: TreeWithSource<'a>)
        ensures
            r.src@ == src@,
            r.tree == self,
    {
        TreeWithSource { tree: self, src }
    }
}

/// A non-owning reference to a node of a parse tree.  It has no independent
/// lifetime: it is valid exactly as long as the tree it points into, which
/// is what its lifetime parameter enforces.
pub struct TSNode<'n>(pub tree_sitter::Node<'n>);

impl<'n> TSNode<'n> {
    /// The wrapped node reference.
    pub fn node(&self) -> (n: &tree_sitter::Node<'n>)
        ensures
            *n == self.0,
    {
        &self.0
    }

    /// Unwraps the node reference.
    pub fn into_inner(self) -> (n: tree_sitter::Node<'n>)
        ensures
            n == self.0,
    {
        self.0
    }
}

} // verus!
