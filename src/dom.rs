//! Nodes, their builder, and the handle of a node inserted into a tree.
//!
//! `N` is the caller's handle to a tree node and `A` its release action; the
//! types here decide which actions run when, and hand them back in order.
use vstd::prelude::*;
use crate::callbacks::{Callbacks, Phase};

verus! {

/// Namespace of HTML elements.
pub const HTML_NAMESPACE: &'static str = "http://www.w3.org/1999/xhtml";

/// Namespace of SVG elements.
pub const SVG_NAMESPACE: &'static str = "http://www.w3.org/2000/svg";

/// The largest z-index: the largest 32-bit signed integer.
pub const HIGHEST_ZINDEX: &'static str = "2147483647";

/// The attach-phase actions of `doms`, node after node.
pub open spec fn all_inserts<N, A>(doms: Seq<Dom<N, A>>) -> Seq<A>
    decreases doms.len(),
{
    if doms.len() == 0 {
        Seq::empty()
    } else {
        all_inserts(doms.drop_last()) + doms.last().callbacks_of().registered_insert()
    }
}

/// The detach-phase actions of `doms`, node after node.
pub open spec fn all_removes<N, A>(doms: Seq<Dom<N, A>>) -> Seq<A>
    decreases doms.len(),
{
    if doms.len() == 0 {
        Seq::empty()
    } else {
        all_removes(doms.drop_last()) + doms.last().callbacks_of().registered_remove()
    }
}

/// The tree handles of `doms`, in order.
pub open spec fn elements<N, A>(doms: Seq<Dom<N, A>>) -> Seq<N> {
    doms.map_values(|d: Dom<N, A>| d.element_of())
}

/// A node together with its release list.
pub struct Dom<N, A> {
    element: N,
    callbacks: Callbacks<A>,
}

impl<N, A> Dom<N, A> {
    pub closed spec fn element_of(&self) -> N {
        self.element
    }

    pub closed spec fn callbacks_of(&self) -> Callbacks<A> {
        self.callbacks
    }

    /// Built and never inserted: ready to be attached.
    pub open spec fn is_fresh(&self) -> bool {
        self.callbacks_of().wf() && self.callbacks_of().phase_of() == Phase::Constructed
    }

    /// A node with no bindings.
    pub fn new(element: N) -> (r: Self)
        ensures
            r.element_of() == element,
            r.is_fresh(),
            r.callbacks_of().registered_insert() == Seq::<A>::empty(),
            r.callbacks_of().registered_remove() == Seq::<A>::empty(),
    {
        Dom { element, callbacks: Callbacks::new() }
    }

    pub fn element(&self) -> (r: &N)
        ensures
            *r == self.element_of(),
    {
        &self.element
    }

    pub fn phase(&self) -> (r: Phase)
        ensures
            r == self.callbacks_of().phase_of(),
    {
        self.callbacks.phase()
    }

    /// Registers an action to run when the node is removed (or discarded
    /// unattached): the way to keep state alive exactly as long as the node.
    pub fn after_removed(&mut self, action: A)
        requires
            old(self).is_fresh(),
        ensures
            final(self).is_fresh(),
            final(self).element_of() == old(self).element_of(),
            final(self).callbacks_of().registered_insert() == old(
                self,
            ).callbacks_of().registered_insert(),
            final(self).callbacks_of().registered_remove() == old(
                self,
            ).callbacks_of().registered_remove().push(action),
    {
        self.callbacks.after_remove(action);
    }

    /// Puts a node together from its tree handle and its release list.
    pub fn from_parts(element: N, callbacks: Callbacks<A>) -> (r: Self)
        ensures
            r.element_of() == element,
            r.callbacks_of() == callbacks,
    {
        Dom { element, callbacks }
    }

    /// Splits a node into its tree handle and its release list.
    pub fn into_parts(self) -> (r: (N, Callbacks<A>))
        ensures
            r.0 == self.element_of(),
            r.1 == self.callbacks_of(),
    {
        (self.element, self.callbacks)
    }

    /// Discards a node that was never attached: hands back its detach-phase
    /// actions, in registration order, to run; its attach-phase actions are
    /// dropped.
    pub fn discard(self) -> (r: Vec<A>)
        requires
            self.is_fresh(),
        ensures
            r@ == self.callbacks_of().registered_remove(),
    {
        let mut callbacks = self.callbacks;
        callbacks.discard()
    }
}

/// A node inserted under a parent. Disposing of it is what detaches the node.
pub struct DomHandle<N, A> {
    parent: N,
    dom: Dom<N, A>,
}

impl<N, A> DomHandle<N, A> {
    pub closed spec fn parent_of(&self) -> N {
        self.parent
    }

    pub closed spec fn dom_of(&self) -> Dom<N, A> {
        self.dom
    }

    /// The node is attached and its release list is sound.
    pub open spec fn wf(&self) -> bool {
        &&& self.dom_of().callbacks_of().wf()
        &&& self.dom_of().callbacks_of().phase_of() == Phase::Attached
    }

    pub fn parent(&self) -> (r: &N)
        ensures
            *r == self.parent_of(),
    {
        &self.parent
    }

    pub fn element(&self) -> (r: &N)
        ensures
            *r == self.dom_of().element_of(),
    {
        self.dom.element()
    }

    /// Registers a detach-phase action while attached, such as cleanup for
    /// work that an attach-phase action started.
    pub fn after_removed(&mut self, action: A)
        requires
            old(self).wf(),
        ensures
            final(self).wf(),
            final(self).parent_of() == old(self).parent_of(),
            final(self).dom_of().element_of() == old(self).dom_of().element_of(),
            final(self).dom_of().callbacks_of().registered_insert() == old(
                self,
            ).dom_of().callbacks_of().registered_insert(),
            final(self).dom_of().callbacks_of().registered_remove() == old(
                self,
            ).dom_of().callbacks_of().registered_remove().push(action),
    {
        self.dom.callbacks.after_remove(action);
    }

    /// Detaches the node: hands back the parent and the node, to be removed
    /// from it first, and then the detach-phase actions, in registration
    /// order, to run.
    pub fn discard(self) -> (r: (N, N, Vec<A>))
        requires
            self.wf(),
        ensures
            r.0 == self.parent_of(),
            r.1 == self.dom_of().element_of(),
            r.2@ == self.dom_of().callbacks_of().registered_remove(),
    {
        let DomHandle { parent, dom } = self;
        let Dom { element, callbacks } = dom;
        let mut callbacks = callbacks;
        let actions = callbacks.discard();
        (parent, element, actions)
    }

    /// Leaves the node in the tree for good: its detach-phase actions are
    /// dropped and never run. Hands back the leaked release list.
    pub fn leak(self) -> (r: Callbacks<A>)
        requires
            self.wf(),
        ensures
            r.wf(),
            r.phase_of() == Phase::Leaked,
            r.registered_insert() == self.dom_of().callbacks_of().registered_insert(),
            r.registered_remove() == self.dom_of().callbacks_of().registered_remove(),
            r.released() == self.dom_of().callbacks_of().released(),
    {
        let mut callbacks = self.dom.callbacks;
        callbacks.leak();
        callbacks
    }
}

/// Records that `dom` has just been inserted under `parent`: hands back the
/// handle that will detach it, and its attach-phase actions, in registration
/// order, to run.
pub fn append_dom<N, A>(parent: N, dom: Dom<N, A>) -> (r: (DomHandle<N, A>, Vec<A>))
    requires
        dom.is_fresh(),
    ensures
        r.0.wf(),
        r.0.parent_of() == parent,
        r.0.dom_of().element_of() == dom.element_of(),
        r.0.dom_of().callbacks_of().registered_insert() == dom.callbacks_of().registered_insert(),
        r.0.dom_of().callbacks_of().registered_remove() == dom.callbacks_of().registered_remove(),
        r.1@ == dom.callbacks_of().registered_insert(),
{
    let Dom { element, callbacks } = dom;
    let mut callbacks = callbacks;
    let actions = callbacks.trigger_after_insert();
    (DomHandle { parent, dom: Dom { element, callbacks } }, actions)
}

} // verus!
