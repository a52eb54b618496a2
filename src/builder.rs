//! The builder that accumulates a node's bindings before it is finished.
use vstd::prelude::*;
use crate::callbacks::{Callbacks, Phase};
use crate::dom::{Dom, all_inserts, all_removes};

verus! {

/// A node under construction: its tree handle, the release list its
/// bindings fill, and whether its children have been assigned.
pub struct DomBuilder<N, A> {
    element: N,
    callbacks: Callbacks<A>,
    has_children: bool,
}

impl<N, A> DomBuilder<N, A> {
    pub closed spec fn element_of(&self) -> N {
        self.element
    }

    pub closed spec fn callbacks_of(&self) -> Callbacks<A> {
        self.callbacks
    }

    pub closed spec fn children_assigned(&self) -> bool {
        self.has_children
    }

    pub open spec fn wf(&self) -> bool {
        self.callbacks_of().wf() && self.callbacks_of().phase_of() == Phase::Constructed
    }

    /// Whether children may still be assigned: once, by `children` or by
    /// `children_signal_vec`.
    pub open spec fn may_assign_children(&self) -> bool {
        !self.children_assigned()
    }

    pub fn new(element: N) -> (r: Self)
        ensures
            r.wf(),
            r.element_of() == element,
            !r.children_assigned(),
            r.callbacks_of().registered_insert() == Seq::<A>::empty(),
            r.callbacks_of().registered_remove() == Seq::<A>::empty(),
    {
        DomBuilder { element, callbacks: Callbacks::new(), has_children: false }
    }

    pub fn element(&self) -> (r: &N)
        ensures
            *r == self.element_of(),
    {
        &self.element
    }

    pub fn has_children(&self) -> (r: bool)
        ensures
            r == self.children_assigned(),
    {
        self.has_children
    }

    /// Registers an action to run once the node is inserted into a tree:
    /// work that has no effect before then, such as focus or scrolling.
    pub fn after_inserted(self, action: A) -> (r: Self)
        requires
            self.wf(),
        ensures
            r.wf(),
            r.element_of() == self.element_of(),
            r.children_assigned() == self.children_assigned(),
            r.callbacks_of().registered_insert() == self.callbacks_of().registered_insert().push(
                action,
            ),
            r.callbacks_of().registered_remove() == self.callbacks_of().registered_remove(),
    {
        let mut b = self;
        b.callbacks.after_insert(action);
        b
    }

    /// Registers an action to run once the node is removed: the release of a
    /// subscription, an event listener or a background task.
    pub fn after_removed(self, action: A) -> (r: Self)
        requires
            self.wf(),
        ensures
            r.wf(),
            r.element_of() == self.element_of(),
            r.children_assigned() == self.children_assigned(),
            r.callbacks_of().registered_insert() == self.callbacks_of().registered_insert(),
            r.callbacks_of().registered_remove() == self.callbacks_of().registered_remove().push(
                action,
            ),
    {
        let mut b = self;
        b.callbacks.after_remove(action);
        b
    }

    /// Takes `children`, already appended under this node in order, as its
    /// static children: their attach and detach phases run in lockstep with
    /// this node's, after this node's own actions.
    pub fn children(self, children: Vec<Dom<N, A>>) -> (r: Self)
        requires
            self.wf(),
            self.may_assign_children(),
            forall|i: int| 0 <= i < children@.len() ==> (#[trigger] children@[i]).is_fresh(),
        ensures
            r.wf(),
            r.element_of() == self.element_of(),
            r.children_assigned(),
            r.callbacks_of().registered_insert() == self.callbacks_of().registered_insert()
                + all_inserts(children@),
            r.callbacks_of().registered_remove() == self.callbacks_of().registered_remove()
                + all_removes(children@),
    {
        let mut b = self;
        b.has_children = true;
        let ghost start = b.callbacks;
        let ghost all = children@;
        let mut rest = children;
        assert(all.len() == rest.len());
        let mut k: usize = 0;
        while rest.len() > 0
            invariant
                b.wf(),
                b.element_of() == self.element_of(),
                b.children_assigned(),
                0 <= k <= all.len(),
                all.len() <= usize::MAX,
                rest@ == all.skip(k as int),
                forall|i: int| 0 <= i < all.len() ==> (#[trigger] all[i]).is_fresh(),
                b.callbacks_of().registered_insert() == start.registered_insert() + all_inserts(
                    all.take(k as int),
                ),
                b.callbacks_of().registered_remove() == start.registered_remove() + all_removes(
                    all.take(k as int),
                ),
            decreases rest.len(),
        {
            let child = rest.remove(0);
            proof {
                assert(k < all.len());
                assert(child == all[k as int]);
                assert(all.take(k as int + 1).drop_last() == all.take(k as int));
                assert(all.take(k as int + 1).last() == all[k as int]);
                assert(rest@ == all.skip(k as int + 1));
            }
            let (_element, child_callbacks) = child.into_parts();
            let ghost ci = child_callbacks.registered_insert();
            let ghost cr = child_callbacks.registered_remove();
            b.callbacks.absorb(child_callbacks);
            proof {
                assert(start.registered_insert() + all_inserts(all.take(k as int)) + ci
                    =~= start.registered_insert() + (all_inserts(all.take(k as int)) + ci));
                assert(start.registered_remove() + all_removes(all.take(k as int)) + cr
                    =~= start.registered_remove() + (all_removes(all.take(k as int)) + cr));
            }
            k = k + 1;
        }
        proof {
            assert(all.take(k as int) == all);
        }
        b
    }

    /// Hands this node's children over to a reactive children binding,
    /// whose release (which detaches every child it holds) runs when this
    /// node is removed.
    pub fn children_signal_vec(self, binding: A) -> (r: Self)
        requires
            self.wf(),
            self.may_assign_children(),
        ensures
            r.wf(),
            r.element_of() == self.element_of(),
            r.children_assigned(),
            r.callbacks_of().registered_insert() == self.callbacks_of().registered_insert(),
            r.callbacks_of().registered_remove() == self.callbacks_of().registered_remove().push(
                binding,
            ),
    {
        let mut b = self;
        b.has_children = true;
        b.callbacks.after_remove(binding);
        b
    }

    /// Finishes building.
    pub fn into_dom(self) -> (r: Dom<N, A>)
        requires
            self.wf(),
        ensures
            r.is_fresh(),
            r.element_of() == self.element_of(),
            r.callbacks_of().registered_insert() == self.callbacks_of().registered_insert(),
            r.callbacks_of().registered_remove() == self.callbacks_of().registered_remove(),
    {
        Dom::from_parts(self.element, self.callbacks)
    }
}

/// Children are assigned at most once: after `children` or
/// `children_signal_vec`, neither may be called again on that builder.
pub proof fn lemma_children_assigned_once<N, A>(b: DomBuilder<N, A>)
    requires
        b.children_assigned(),
    ensures
        !b.may_assign_children(),
{
}

} // verus!
