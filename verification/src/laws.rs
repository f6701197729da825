//! The guarantees of the transfer protocol, stated and proved once and for
//! all over the protocol state model.
//!
//! Each law quantifies over every well-formed boundary state, so it covers
//! every sequence of adapter operations that can reach one.

use vstd::prelude::*;

use crate::handle::{Handle, HandleState, Owner};
use crate::protocol::{BoundaryView, NodePos, ScriptValue};

verus! {

/// Round-trip identity.  Transfer a host-owned tree out, then bring it back:
/// the returned script value is recognized as a live tree wrapper, the
/// recovered source bytes are exactly the bytes that went out, and the
/// duplicate the host receives is host-owned with the same tree structure as
/// the original — hence equal root node kind and node text.  The original
/// handle itself stays with the script-side wrapper, untouched.
pub proof fn lemma_tree_round_trip(m: BoundaryView, h: int, src: Seq<u8>)
    requires
        m.wf(),
        m.host_owned(h),
        m.wrappers.len() < usize::MAX,
    ensures
        ({
            let v = m.outbound_value();
            let out = m.after_to_script(h, src);
            let back = out.after_duplicate(v->TreeWrapper_0 as int);
            &&& out.is_live_tree_wrapper(v)
            &&& out.tree_wrapper_src(v) == src
            &&& back.handles.last() == (Handle {
                state: HandleState::Owned(Owner::Host),
                structure: m.handles[h].structure,
            })
            &&& back.handles[h] == (Handle {
                state: HandleState::Owned(Owner::Script),
                structure: m.handles[h].structure,
            })
            &&& back.wrappers == out.wrappers
        }),
{
}

/// Single ownership.  Once the outbound transfer has moved a handle to the
/// script side, the host's free operation is no longer enabled for it: the
/// protocol admits `host_free` only for host-owned handles, and the handle
/// is host-owned no more.  Freeing it now falls to the wrapper's finalizer
/// alone, so no handle is ever freed by both sides.
pub proof fn lemma_transfer_revokes_host_free(m: BoundaryView, h: int, src: Seq<u8>)
    requires
        m.wf(),
        m.host_owned(h),
    ensures
        !m.after_to_script(h, src).host_owned(h),
{
}

/// Node round trip.  After the outbound transfer, any node record the script
/// forms inside the new wrapper is recognized as a live node reference, and
/// that wrapper's tree handle is exactly the transferred one — so a node
/// handed back to the host reports the kinds of the very tree the script
/// observed.
pub proof fn lemma_outbound_node_ref_live(m: BoundaryView, h: int, src: Seq<u8>, pos: NodePos)
    requires
        m.wf(),
        m.host_owned(h),
        m.wrappers.len() < usize::MAX,
        pos.wrapper == m.wrappers.len(),
    ensures
        ({
            let out = m.after_to_script(h, src);
            &&& out.is_live_node_ref(ScriptValue::NodeRef(pos))
            &&& out.tree_wrapper_handle(ScriptValue::TreeWrapper(pos.wrapper)) == h
        }),
{
}

/// Any one step of the protocol: a fresh tree from the tree library, a
/// module registration, an outbound transfer, an inbound duplication, a
/// host-side free, or a collection — each taken only when its enabling
/// condition holds.
pub open spec fn protocol_step(pre: BoundaryView, post: BoundaryView) -> bool {
    ||| post == pre.after_new_tree()
    ||| post == pre.after_open_module()
    ||| exists|h: int, src: Seq<u8>| pre.host_owned(h) && post == pre.after_to_script(h, src)
    ||| exists|w: int| pre.live_wrapper(w) && post == pre.after_duplicate(w)
    ||| exists|h: int| pre.host_owned(h) && post == pre.after_host_free(h)
    ||| exists|w: int| pre.live_wrapper(w) && post == pre.after_collect(w)
}

/// The single-ownership invariant holds in every reachable state: it holds
/// of a fresh boundary, and every enabled step of the protocol preserves it.
/// No reachable state ever has a handle owned by both sides, nor two
/// wrappers owning the same handle.
pub proof fn lemma_step_preserves_wf(pre: BoundaryView, post: BoundaryView)
    requires
        pre.wf(),
        protocol_step(pre, post),
    ensures
        post.wf(),
{
    if post == pre.after_new_tree() || post == pre.after_open_module() {
        assert forall|w: int| 0 <= w < post.wrappers.len() && post.wrappers[w] is Some
            implies 0 <= post.wrappers[w]->Some_0.handle < post.handles.len()
            && post.handles[post.wrappers[w]->Some_0.handle].owned_by(Owner::Script) by {
            assert(pre.wrappers[w] is Some);
        }
        assert forall|w1: int, w2: int|
            0 <= w1 < post.wrappers.len() && 0 <= w2 < post.wrappers.len() && w1 != w2
                && post.wrappers[w1] is Some && post.wrappers[w2] is Some
            implies post.wrappers[w1]->Some_0.handle != post.wrappers[w2]->Some_0.handle by {
            assert(pre.wrappers[w1] is Some);
            assert(pre.wrappers[w2] is Some);
        }
    } else if exists|h: int, src: Seq<u8>| pre.host_owned(h) && post == pre.after_to_script(
        h,
        src,
    ) {
        let (h, src) = choose|h: int, src: Seq<u8>|
            pre.host_owned(h) && post == pre.after_to_script(h, src);
        assert forall|w: int| 0 <= w < post.wrappers.len() && post.wrappers[w] is Some
            implies 0 <= post.wrappers[w]->Some_0.handle < post.handles.len()
            && post.handles[post.wrappers[w]->Some_0.handle].owned_by(Owner::Script) by {
            if w < pre.wrappers.len() {
                assert(pre.wrappers[w] is Some);
            }
        }
        assert forall|w1: int, w2: int|
            0 <= w1 < post.wrappers.len() && 0 <= w2 < post.wrappers.len() && w1 != w2
                && post.wrappers[w1] is Some && post.wrappers[w2] is Some
            implies post.wrappers[w1]->Some_0.handle != post.wrappers[w2]->Some_0.handle by {
            if w1 < pre.wrappers.len() {
                assert(pre.wrappers[w1] is Some);
            }
            if w2 < pre.wrappers.len() {
                assert(pre.wrappers[w2] is Some);
            }
        }
    } else if exists|w: int| pre.live_wrapper(w) && post == pre.after_duplicate(w) {
        let w = choose|w: int| pre.live_wrapper(w) && post == pre.after_duplicate(w);
        assert forall|w1: int| 0 <= w1 < post.wrappers.len() && post.wrappers[w1] is Some
            implies 0 <= post.wrappers[w1]->Some_0.handle < post.handles.len()
            && post.handles[post.wrappers[w1]->Some_0.handle].owned_by(Owner::Script) by {
            assert(pre.wrappers[w1] is Some);
        }
        assert forall|w1: int, w2: int|
            0 <= w1 < post.wrappers.len() && 0 <= w2 < post.wrappers.len() && w1 != w2
                && post.wrappers[w1] is Some && post.wrappers[w2] is Some
            implies post.wrappers[w1]->Some_0.handle != post.wrappers[w2]->Some_0.handle by {
            assert(pre.wrappers[w1] is Some);
            assert(pre.wrappers[w2] is Some);
        }
    } else if exists|h: int| pre.host_owned(h) && post == pre.after_host_free(h) {
        let h = choose|h: int| pre.host_owned(h) && post == pre.after_host_free(h);
        assert forall|w: int| 0 <= w < post.wrappers.len() && post.wrappers[w] is Some
            implies 0 <= post.wrappers[w]->Some_0.handle < post.handles.len()
            && post.handles[post.wrappers[w]->Some_0.handle].owned_by(Owner::Script) by {
            assert(pre.wrappers[w] is Some);
            assert(pre.wrappers[w]->Some_0.handle != h);
        }
        assert forall|w1: int, w2: int|
            0 <= w1 < post.wrappers.len() && 0 <= w2 < post.wrappers.len() && w1 != w2
                && post.wrappers[w1] is Some && post.wrappers[w2] is Some
            implies post.wrappers[w1]->Some_0.handle != post.wrappers[w2]->Some_0.handle by {
            assert(pre.wrappers[w1] is Some);
            assert(pre.wrappers[w2] is Some);
        }
    } else {
        let w = choose|w: int| pre.live_wrapper(w) && post == pre.after_collect(w);
        assert forall|w1: int| 0 <= w1 < post.wrappers.len() && post.wrappers[w1] is Some
            implies 0 <= post.wrappers[w1]->Some_0.handle < post.handles.len()
            && post.handles[post.wrappers[w1]->Some_0.handle].owned_by(Owner::Script) by {
            assert(pre.wrappers[w] is Some);
            assert(pre.wrappers[w1] is Some);
            assert(w1 != w);
            assert(pre.wrappers[w1]->Some_0.handle != pre.wrappers[w]->Some_0.handle);
        }
        assert forall|w1: int, w2: int|
            0 <= w1 < post.wrappers.len() && 0 <= w2 < post.wrappers.len() && w1 != w2
                && post.wrappers[w1] is Some && post.wrappers[w2] is Some
            implies post.wrappers[w1]->Some_0.handle != post.wrappers[w2]->Some_0.handle by {
            assert(pre.wrappers[w1] is Some);
            assert(pre.wrappers[w2] is Some);
        }
    }
}

/// The one-way transition.  A handle that is no longer host-owned — because
/// its ownership moved to the script side, or because it was already freed —
/// never becomes host-owned again, whatever the protocol does next.  The
/// inbound direction only ever creates *new* host-owned handles; it never
/// moves an old one back.
pub proof fn lemma_ownership_moves_one_way(pre: BoundaryView, post: BoundaryView, h: int)
    requires
        pre.wf(),
        protocol_step(pre, post),
        0 <= h < pre.handles.len(),
        !pre.handles[h].owned_by(Owner::Host),
    ensures
        0 <= h < post.handles.len(),
        !post.handles[h].owned_by(Owner::Host),
{
    if exists|h2: int, src: Seq<u8>| pre.host_owned(h2) && post == pre.after_to_script(h2, src) {
        let (h2, src) = choose|h2: int, src: Seq<u8>|
            pre.host_owned(h2) && post == pre.after_to_script(h2, src);
        assert(h2 != h);
    } else if exists|h2: int| pre.host_owned(h2) && post == pre.after_host_free(h2) {
        let h2 = choose|h2: int| pre.host_owned(h2) && post == pre.after_host_free(h2);
        assert(h2 != h);
    }
}

/// Freed exactly once.  A handle that has been released — by the host or by
/// a wrapper's finalizer — stays released: no step of the protocol touches
/// it again, so no double free can ever arise.
pub proof fn lemma_freed_handles_stay_freed(pre: BoundaryView, post: BoundaryView, h: int)
    requires
        pre.wf(),
        protocol_step(pre, post),
        0 <= h < pre.handles.len(),
        pre.handles[h].state == HandleState::Freed,
    ensures
        0 <= h < post.handles.len(),
        post.handles[h].state == HandleState::Freed,
{
    if exists|h2: int, src: Seq<u8>| pre.host_owned(h2) && post == pre.after_to_script(h2, src) {
        let (h2, src) = choose|h2: int, src: Seq<u8>|
            pre.host_owned(h2) && post == pre.after_to_script(h2, src);
        assert(h2 != h);
    } else if exists|h2: int| pre.host_owned(h2) && post == pre.after_host_free(h2) {
        let h2 = choose|h2: int| pre.host_owned(h2) && post == pre.after_host_free(h2);
        assert(h2 != h);
    } else if exists|w: int| pre.live_wrapper(w) && post == pre.after_collect(w) {
        let w = choose|w: int| pre.live_wrapper(w) && post == pre.after_collect(w);
        assert(pre.wrappers[w] is Some);
        assert(pre.wrappers[w]->Some_0.handle != h);
    }
}

/// Idempotent registration.  Loading the native module a second time into
/// the same runtime instance changes nothing at all: the state after two
/// registrations is the state after one.
pub proof fn lemma_open_module_idempotent(m: BoundaryView)
    ensures
        m.after_open_module().after_open_module() == m.after_open_module(),
{
    assert(m.after_open_module().after_open_module() =~~= m.after_open_module());
}

/// Type-mismatch rejection.  A value that is not a tree wrapper — nil, a
/// boolean, a number, a byte string, even a node reference — is never
/// accepted by the inbound tree transfer, and a value that is not a node
/// reference is never accepted by the inbound node transfer, whatever the
/// state of the instance.
pub proof fn lemma_foreign_value_rejected(m: BoundaryView, v: ScriptValue)
    ensures
        !(v is TreeWrapper) ==> !m.is_live_tree_wrapper(v),
        !(v is NodeRef) ==> !m.is_live_node_ref(v),
{
}

} // verus!
