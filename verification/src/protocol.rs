//! The ownership-transfer protocol at the boundary between the host and one
//! script-runtime instance.
//!
//! [`Boundary`] tracks the two sides of the boundary: the native tree handles
//! the host has seen, and the wrapper objects living inside the runtime.
//! Every operation of the adapter — registering the native module, the
//! outbound transfer of a tree, the inbound recovery of a tree or of a node
//! reference, and the two ways a handle is released — is an operation on this
//! state, with a contract that pins down the whole new state.
//!
//! The central asymmetry of the protocol: outbound transfer *moves* ownership
//! of the handle to the script side, while inbound transfer never moves it
//! back — it duplicates the tree structure into a fresh host-owned handle and
//! leaves the wrapper's own handle untouched.  Two independent memory
//! managers therefore never share a handle, and each handle is freed by
//! exactly one of them.

use vstd::prelude::*;

use crate::errors::TypeMismatch;
use crate::handle::{Handle, HandleState, Owner};

verus! {

/// A script-side wrapper object: it owns one native tree handle and keeps
/// its own copy of the source bytes the tree was parsed from, so that no
/// reference into host memory survives the transfer.
pub struct Wrapper {
    /// Identity of the handle this wrapper owns.
    pub handle: usize,
    /// The wrapper's private copy of the source bytes.
    pub src: Vec<u8>,
}

/// Spec-level image of a [`Wrapper`].
#[verifier::ext_equal]
pub struct WrapperModel {
    pub handle: int,
    pub src: Seq<u8>,
}

impl View for Wrapper {
    type V = WrapperModel;

    open spec fn view(&self) -> WrapperModel {
        WrapperModel { handle: self.handle as int, src: self.src@ }
    }
}

/// The raw node-position record the native module stores for a node
/// reference: which wrapper's tree the node belongs to, and where in that
/// tree the node sits.  A node owns nothing; it is only a position.
#[derive(Clone, Copy, PartialEq, Eq, Structural, Debug)]
pub struct NodePos {
    /// The wrapper whose tree the node points into.
    pub wrapper: usize,
    /// Byte position of the node inside that tree's source.
    pub byte_offset: usize,
}

/// A script-runtime value as the adapter classifies it.  The adapter only
/// distinguishes the two recognized native references from everything else;
/// the plain kinds are carried so that mismatches can be stated exactly.
#[derive(Debug)]
pub enum ScriptValue {
    Nil,
    Boolean(bool),
    Integer(i64),
    Bytes(Vec<u8>),
    /// A tree wrapper object, by its identity in the runtime instance.
    TreeWrapper(usize),
    /// A node reference into the tree of some wrapper.
    NodeRef(NodePos),
}

/// What the inbound tree transfer hands the host: a freshly duplicated,
/// host-owned handle together with the recovered source bytes.
#[derive(Debug)]
pub struct InboundTree {
    /// The new host-owned handle; a copy of the wrapper's tree structure.
    pub handle: usize,
    /// The source bytes the wrapper stored at outbound transfer.
    pub src: Vec<u8>,
}

/// Spec-level image of one wrapper slot of the runtime.
pub open spec fn slot_model(o: Option<Wrapper>) -> Option<WrapperModel> {
    match o {
        Some(w) => Some(w@),
        None => None,
    }
}

/// Spec-level image of the runtime's wrapper table.
pub open spec fn slots_model(s: Seq<Option<Wrapper>>) -> Seq<Option<WrapperModel>> {
    s.map_values(|o: Option<Wrapper>| slot_model(o))
}

/// Spec-level image of a [`Boundary`]: the whole protocol state.
#[verifier::ext_equal]
pub struct BoundaryView {
    /// Every native tree handle that has crossed the adapter's hands,
    /// by identity.
    pub handles: Seq<Handle>,
    /// The runtime's wrapper objects; `None` once collected.
    pub wrappers: Seq<Option<WrapperModel>>,
    /// Whether the native module has been registered in this instance.
    pub module_loaded: bool,
}

impl BoundaryView {
    /// Well-formedness: every live wrapper owns a live, script-owned handle,
    /// and no two live wrappers own the same handle.  This is the
    /// single-ownership invariant of the protocol.
    pub open spec fn wf(self) -> bool {
        &&& forall|w: int| #![trigger self.wrappers[w]]
            0 <= w < self.wrappers.len() && self.wrappers[w] is Some
                ==> 0 <= self.wrappers[w]->Some_0.handle < self.handles.len()
                    && self.handles[self.wrappers[w]->Some_0.handle].owned_by(Owner::Script)
        &&& forall|w1: int, w2: int| #![trigger self.wrappers[w1], self.wrappers[w2]]
            0 <= w1 < self.wrappers.len() && 0 <= w2 < self.wrappers.len() && w1 != w2
                && self.wrappers[w1] is Some && self.wrappers[w2] is Some
                ==> self.wrappers[w1]->Some_0.handle != self.wrappers[w2]->Some_0.handle
    }

    /// Handle `h` exists and is live and host-owned: the host may still
    /// transfer it outbound or free it.  This is the enabling condition of
    /// both `to_script` and `host_free`.
    pub open spec fn host_owned(self, h: int) -> bool {
        &&& 0 <= h < self.handles.len()
        &&& self.handles[h].owned_by(Owner::Host)
    }

    /// Wrapper slot `w` exists and has not been collected.  This is the
    /// enabling condition of both the inbound transfers and `collect`.
    pub open spec fn live_wrapper(self, w: int) -> bool {
        &&& 0 <= w < self.wrappers.len()
        &&& self.wrappers[w] is Some
    }

    /// The tree library hands the host a fresh tree: one new host-owned
    /// handle.
    pub open spec fn after_new_tree(self) -> BoundaryView {
        BoundaryView {
            handles: self.handles.push(
                Handle {
                    state: HandleState::Owned(Owner::Host),
                    structure: self.handles.len() as usize,
                },
            ),
            ..self
        }
    }

    /// Outbound transfer: ownership of handle `h` moves to the script side,
    /// and one new wrapper object appears, holding `h` together with its own
    /// copy of the source bytes.
    pub open spec fn after_to_script(self, h: int, src: Seq<u8>) -> BoundaryView {
        BoundaryView {
            handles: self.handles.update(
                h,
                Handle {
                    state: HandleState::Owned(Owner::Script),
                    structure: self.handles[h].structure,
                },
            ),
            wrappers: self.wrappers.push(Some(WrapperModel { handle: h, src })),
            ..self
        }
    }

    /// The script value the outbound transfer returns: the new wrapper.
    pub open spec fn outbound_value(self) -> ScriptValue {
        ScriptValue::TreeWrapper(self.wrappers.len() as usize)
    }

    /// The value is a tree wrapper that is still live in this instance.
    pub open spec fn is_live_tree_wrapper(self, v: ScriptValue) -> bool {
        &&& v is TreeWrapper
        &&& self.live_wrapper(v->TreeWrapper_0 as int)
    }

    /// The source bytes stored by the wrapper that `v` refers to.
    pub open spec fn tree_wrapper_src(self, v: ScriptValue) -> Seq<u8> {
        self.wrappers[v->TreeWrapper_0 as int]->Some_0.src
    }

    /// The handle owned by the wrapper that `v` refers to.
    pub open spec fn tree_wrapper_handle(self, v: ScriptValue) -> int {
        self.wrappers[v->TreeWrapper_0 as int]->Some_0.handle
    }

    /// Inbound transfer, defensive copy: one fresh host-owned handle appears
    /// with the same structure as the tree of wrapper `w`; the wrapper and
    /// its own handle stay untouched.
    pub open spec fn after_duplicate(self, w: int) -> BoundaryView {
        BoundaryView {
            handles: self.handles.push(
                Handle {
                    state: HandleState::Owned(Owner::Host),
                    structure: self.handles[self.wrappers[w]->Some_0.handle].structure,
                },
            ),
            ..self
        }
    }

    /// The value is a node reference whose wrapper is still live.
    pub open spec fn is_live_node_ref(self, v: ScriptValue) -> bool {
        &&& v is NodeRef
        &&& self.live_wrapper(v->NodeRef_0.wrapper as int)
    }

    /// Registration is a runtime-level require: afterwards the module is
    /// loaded, and nothing else has changed.
    pub open spec fn after_open_module(self) -> BoundaryView {
        BoundaryView { module_loaded: true, ..self }
    }

    /// The host releases a handle it owns.
    pub open spec fn after_host_free(self, h: int) -> BoundaryView {
        BoundaryView {
            handles: self.handles.update(
                h,
                Handle { state: HandleState::Freed, structure: self.handles[h].structure },
            ),
            ..self
        }
    }

    /// The collector reclaims wrapper `w`: the attached finalizer releases
    /// the wrapper's script-owned handle, and the wrapper slot is gone.
    pub open spec fn after_collect(self, w: int) -> BoundaryView {
        BoundaryView {
            handles: self.handles.update(
                self.wrappers[w]->Some_0.handle,
                Handle {
                    state: HandleState::Freed,
                    structure: self.handles[self.wrappers[w]->Some_0.handle].structure,
                },
            ),
            wrappers: self.wrappers.update(w, None),
            ..self
        }
    }
}

/// One script-runtime instance together with the host-side tree handles that
/// cross into it.  All operations are synchronous native calls on one
/// instance; the instance is exclusively owned by its caller, so the
/// sequence of operations is the only source of state change.
pub struct Boundary {
    handles: Vec<Handle>,
    wrappers: Vec<Option<Wrapper>>,
    module_loaded: bool,
}

impl View for Boundary {
    type V = BoundaryView;

    closed spec fn view(&self) -> BoundaryView {
        BoundaryView {
            handles: self.handles@,
            wrappers: slots_model(self.wrappers@),
            module_loaded: self.module_loaded,
        }
    }
}

proof fn lemma_slots_model_push(s: Seq<Option<Wrapper>>, o: Option<Wrapper>)
    ensures
        slots_model(s.push(o)) == slots_model(s).push(slot_model(o)),
{
    assert(slots_model(s.push(o)) =~= slots_model(s).push(slot_model(o)));
}

proof fn lemma_slots_model_update(s: Seq<Option<Wrapper>>, i: int, o: Option<Wrapper>)
    requires
        0 <= i < s.len(),
    ensures
        slots_model(s.update(i, o)) == slots_model(s).update(i, slot_model(o)),
{
    assert(slots_model(s.update(i, o)) =~= slots_model(s).update(i, slot_model(o)));
}

impl Boundary {
    /// A fresh runtime instance: no handles, no wrappers, module not loaded.
    pub fn new() -> (b: Boundary)
        ensures
            b@.handles == Seq::<Handle>::empty(),
            b@.wrappers == Seq::<Option<WrapperModel>>::empty(),
            !b@.module_loaded,
            b@.wf(),
    {
        let b = Boundary { handles: Vec::new(), wrappers: Vec::new(), module_loaded: false };
        proof {
            assert(b@.wrappers =~= Seq::<Option<WrapperModel>>::empty());
        }
        b
    }

    /// The host adopts a fresh parse tree from the tree library: a new
    /// handle, host-owned from birth.
    pub fn new_tree(&mut self) -> (h: usize)
        requires
            old(self)@.wf(),
        ensures
            final(self)@ == old(self)@.after_new_tree(),
            h == old(self)@.handles.len(),
            final(self)@.wf(),
    {
        let h = self.handles.len();
        self.handles.push(Handle { state: HandleState::Owned(Owner::Host), structure: h });
        proof {
            assert(self@ =~~= old(self)@.after_new_tree());
            assert forall|w: int|
                0 <= w < self@.wrappers.len() && self@.wrappers[w] is Some
                    implies 0 <= self@.wrappers[w]->Some_0.handle < self@.handles.len()
                    && self@.handles[self@.wrappers[w]->Some_0.handle].owned_by(
                    Owner::Script,
                ) by {
                assert(old(self)@.wrappers[w] is Some);
            }
        }
        h
    }

    /// The module loader: registers the native tree module in this runtime
    /// instance.  A runtime-level require: if the module is already loaded,
    /// nothing changes — registration is idempotent per instance.
    pub fn open_module(&mut self)
        ensures
            final(self)@ == old(self)@.after_open_module(),
            old(self)@.wf() ==> final(self)@.wf(),
    {
        self.module_loaded = true;
        proof {
            assert(self@ =~~= old(self)@.after_open_module());
        }
    }

    /// Outbound transfer, host to script.  Ownership of handle `h` moves to
    /// the script side: a new wrapper object owns it from now on, together
    /// with its own copy of `src`, and the returned script value names that
    /// wrapper.  After this call `h` is no longer host-owned, so neither
    /// `to_script` nor `host_free` accepts it again.
    ///
    /// If the runtime cannot allocate the native call frame for the
    /// transfer, the FFI layer reports a [`crate::errors::RuntimeError`]
    /// before anything has moved: ownership then stays with the host, and
    /// nothing leaks.
    pub fn to_script(&mut self, h: usize, src: &[u8]) -> (v: ScriptValue)
        requires
            old(self)@.wf(),
            old(self)@.host_owned(h as int),
        ensures
            final(self)@ == old(self)@.after_to_script(h as int, src@),
            v == old(self)@.outbound_value(),
            final(self)@.wf(),
    {
        let w = self.wrappers.len();
        let structure = self.handles[h].structure;
        self.handles[h] = Handle { state: HandleState::Owned(Owner::Script), structure };
        let copy = vstd::slice::slice_to_vec(src);
        self.wrappers.push(Some(Wrapper { handle: h, src: copy }));
        proof {
            lemma_slots_model_push(old(self).wrappers@, self.wrappers@.last());
            assert(self@ =~~= old(self)@.after_to_script(h as int, src@));
            assert forall|w1: int|
                0 <= w1 < self@.wrappers.len() && self@.wrappers[w1] is Some
                    implies 0 <= self@.wrappers[w1]->Some_0.handle < self@.handles.len()
                    && self@.handles[self@.wrappers[w1]->Some_0.handle].owned_by(
                    Owner::Script,
                ) by {
                if w1 < old(self)@.wrappers.len() {
                    assert(old(self)@.wrappers[w1] is Some);
                }
            }
            assert forall|w1: int, w2: int|
                0 <= w1 < self@.wrappers.len() && 0 <= w2 < self@.wrappers.len() && w1 != w2
                    && self@.wrappers[w1] is Some && self@.wrappers[w2] is Some
                    implies self@.wrappers[w1]->Some_0.handle
                    != self@.wrappers[w2]->Some_0.handle by {
                if w1 < old(self)@.wrappers.len() {
                    assert(old(self)@.wrappers[w1] is Some);
                }
                if w2 < old(self)@.wrappers.len() {
                    assert(old(self)@.wrappers[w2] is Some);
                }
            }
        }
        ScriptValue::TreeWrapper(w)
    }

    /// The type check of the inbound direction: is `v` a tree wrapper that
    /// this instance still holds?  Returns the wrapper's identity, and a
    /// `TypeMismatch` for every value of any other kind.
    pub fn check_tree_arg(&self, v: &ScriptValue) -> (r: Result<usize, TypeMismatch>)
        ensures
            r is Ok <==> self@.is_live_tree_wrapper(*v),
            r is Ok ==> *v == ScriptValue::TreeWrapper(r->Ok_0),
    {
        match v {
            ScriptValue::TreeWrapper(w) => {
                let wi: usize = *w;
                if wi < self.wrappers.len() && self.wrappers[wi].is_some() {
                    Ok(wi)
                } else {
                    Err(TypeMismatch)
                }
            },
            _ => Err(TypeMismatch),
        }
    }

    /// Inbound transfer of a tree, script to host.  If `v` is a live tree
    /// wrapper, the host receives a *fresh* handle — a defensive copy of the
    /// wrapper's tree structure, host-owned from birth — together with the
    /// source bytes the wrapper stored at outbound transfer.  The wrapper
    /// keeps its own handle untouched: ownership never moves back.  Every
    /// other value is rejected with `TypeMismatch`, and a rejected call has
    /// no effect at all.
    pub fn from_script_tree(&mut self, v: &ScriptValue) -> (r: Result<InboundTree, TypeMismatch>)
        requires
            old(self)@.wf(),
        ensures
            r is Ok <==> old(self)@.is_live_tree_wrapper(*v),
            r is Ok ==> ({
                &&& final(self)@ == old(self)@.after_duplicate((*v)->TreeWrapper_0 as int)
                &&& r->Ok_0.handle == old(self)@.handles.len()
                &&& r->Ok_0.src@ == old(self)@.tree_wrapper_src(*v)
            }),
            r is Err ==> *final(self) == *old(self),
            final(self)@.wf(),
    {
        match v {
            ScriptValue::TreeWrapper(w) => {
                let wi: usize = *w;
                if wi < self.wrappers.len() {
                    match &self.wrappers[wi] {
                        Some(wr) => {
                            let orig = wr.handle;
                            let src = vstd::slice::slice_to_vec(wr.src.as_slice());
                            proof {
                                assert(self@.wrappers[wi as int] is Some);
                                assert(self@.wrappers[wi as int]->Some_0.handle == orig as int);
                            }
                            let structure = self.handles[orig].structure;
                            let h = self.handles.len();
                            self.handles.push(
                                Handle { state: HandleState::Owned(Owner::Host), structure },
                            );
                            proof {
                                assert(self@ =~~= old(self)@.after_duplicate(wi as int));
                                assert forall|w1: int|
                                    0 <= w1 < self@.wrappers.len() && self@.wrappers[w1] is Some
                                        implies 0 <= self@.wrappers[w1]->Some_0.handle
                                        < self@.handles.len() && self@.handles[self@.wrappers[w1]
                                        ->Some_0.handle].owned_by(Owner::Script) by {
                                    assert(old(self)@.wrappers[w1] is Some);
                                }
                            }
                            Ok(InboundTree { handle: h, src })
                        },
                        None => Err(TypeMismatch),
                    }
                } else {
                    Err(TypeMismatch)
                }
            },
            _ => Err(TypeMismatch),
        }
    }

    /// Inbound transfer of a node reference, script to host.  If `v` is a
    /// node reference whose wrapper is still live, the very record the
    /// script held is handed back — no copy, no ownership change, and the
    /// wrapper's tree is untouched, so the node reports exactly the kinds
    /// the script observed.  Every other value is rejected with
    /// `TypeMismatch`.
    pub fn from_script_node(&self, v: &ScriptValue) -> (r: Result<NodePos, TypeMismatch>)
        ensures
            r is Ok <==> self@.is_live_node_ref(*v),
            r is Ok ==> *v == ScriptValue::NodeRef(r->Ok_0),
    {
        match v {
            ScriptValue::NodeRef(n) => {
                if n.wrapper < self.wrappers.len() && self.wrappers[n.wrapper].is_some() {
                    Ok(*n)
                } else {
                    Err(TypeMismatch)
                }
            },
            _ => Err(TypeMismatch),
        }
    }

    /// The host releases a handle it still owns.  The enabling condition is
    /// host ownership, so a handle whose ownership has moved to the script
    /// side can never be freed from here — that is the single-ownership
    /// invariant made operational.
    pub fn host_free(&mut self, h: usize)
        requires
            old(self)@.wf(),
            old(self)@.host_owned(h as int),
        ensures
            final(self)@ == old(self)@.after_host_free(h as int),
            final(self)@.wf(),
    {
        let structure = self.handles[h].structure;
        self.handles[h] = Handle { state: HandleState::Freed, structure };
        proof {
            assert(self@ =~~= old(self)@.after_host_free(h as int));
            assert forall|w: int|
                0 <= w < self@.wrappers.len() && self@.wrappers[w] is Some
                    implies 0 <= self@.wrappers[w]->Some_0.handle < self@.handles.len()
                    && self@.handles[self@.wrappers[w]->Some_0.handle].owned_by(
                    Owner::Script,
                ) by {
                assert(old(self)@.wrappers[w] is Some);
            }
        }
    }

    /// The runtime's collector reclaims wrapper `w`: the finalizer attached
    /// at outbound transfer releases the wrapper's handle — exactly once,
    /// since the wrapper slot is gone afterwards and no other wrapper owns
    /// the same handle.
    pub fn collect(&mut self, w: usize)
        requires
            old(self)@.wf(),
            w < old(self)@.wrappers.len(),
            old(self)@.wrappers[w as int] is Some,
        ensures
            final(self)@ == old(self)@.after_collect(w as int),
            final(self)@.wf(),
    {
        proof {
            assert(self@.wrappers[w as int] is Some);
        }
        let orig = match &self.wrappers[w] {
            Some(wr) => wr.handle,
            // Unreachable: the wrapper is live by the precondition.
            None => 0,
        };
        let structure = self.handles[orig].structure;
        self.handles[orig] = Handle { state: HandleState::Freed, structure };
        self.wrappers[w] = None;
        proof {
            lemma_slots_model_update(old(self).wrappers@, w as int, None);
            assert(self@ =~~= old(self)@.after_collect(w as int));
            assert forall|w1: int|
                0 <= w1 < self@.wrappers.len() && self@.wrappers[w1] is Some
                    implies 0 <= self@.wrappers[w1]->Some_0.handle < self@.handles.len()
                    && self@.handles[self@.wrappers[w1]->Some_0.handle].owned_by(
                    Owner::Script,
                ) by {
                assert(old(self)@.wrappers[w as int] is Some);
                assert(old(self)@.wrappers[w1] is Some);
            }
            assert forall|w1: int, w2: int|
                0 <= w1 < self@.wrappers.len() && 0 <= w2 < self@.wrappers.len() && w1 != w2
                    && self@.wrappers[w1] is Some && self@.wrappers[w2] is Some
                    implies self@.wrappers[w1]->Some_0.handle
                    != self@.wrappers[w2]->Some_0.handle by {
                assert(old(self)@.wrappers[w1] is Some);
                assert(old(self)@.wrappers[w2] is Some);
            }
        }
    }

    /// The lifecycle state of handle `h`.
    pub fn handle_state(&self, h: usize) -> (s: HandleState)
        requires
            h < self@.handles.len(),
        ensures
            s == self@.handles[h as int].state,
    {
        self.handles[h].state
    }

    /// The structure identity of handle `h`: two handles with equal
    /// structures are copies of the same immutable tree.
    pub fn handle_structure(&self, h: usize) -> (s: usize)
        requires
            h < self@.handles.len(),
        ensures
            s == self@.handles[h as int].structure,
    {
        self.handles[h].structure
    }

    /// How many handles this boundary has tracked.
    pub fn handle_count(&self) -> (n: usize)
        ensures
            n == self@.handles.len(),
    {
        self.handles.len()
    }

    /// How many wrapper slots the runtime instance has.
    pub fn wrapper_count(&self) -> (n: usize)
        ensures
            n == self@.wrappers.len(),
    {
        self.wrappers.len()
    }

    /// Whether the native module is registered in this instance.
    pub fn is_module_loaded(&self) -> (b: bool)
        ensures
            b == self@.module_loaded,
    {
        self.module_loaded
    }
}

} // verus!
