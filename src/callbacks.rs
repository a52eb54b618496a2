//! The scoped release list of one node.
use vstd::prelude::*;

verus! {

/// Where a release list stands in the lifecycle of its node.
#[derive(Clone, Copy, Debug, PartialEq, Eq, Structural)]
pub enum Phase {
    /// Built, never inserted into a tree.
    Constructed,
    /// Inserted; the attach-phase actions have been handed out.
    Attached,
    /// Inserted, then removed; both phases have been handed out.
    Detached,
    /// Discarded without ever being inserted; only the detach phase ran.
    DisposedUnattached,
    /// Inserted for good; the detach phase was dropped unrun.
    Leaked,
}

/// One release action handed out to run, tagged with the phase it belongs to.
pub enum Released<A> {
    OnAttach(A),
    OnDetach(A),
}

pub open spec fn attach_runs<A>(s: Seq<A>) -> Seq<Released<A>> {
    s.map_values(|a: A| Released::OnAttach(a))
}

pub open spec fn detach_runs<A>(s: Seq<A>) -> Seq<Released<A>> {
    s.map_values(|a: A| Released::OnDetach(a))
}

/// Two ordered lists of single-shot release actions: those to run when the
/// node is attached, and those to run when it is detached.
///
/// Running an action is the caller's part: each trigger hands the drained
/// actions back in registration order. The ghost record `released` keeps
/// every action handed out so far, so that "exactly once" can be stated.
pub struct Callbacks<A> {
    after_insert: Vec<A>,
    after_remove: Vec<A>,
    phase: Phase,
    registered_insert: Ghost<Seq<A>>,
    registered_remove: Ghost<Seq<A>>,
    released: Ghost<Seq<Released<A>>>,
}

impl<A> Callbacks<A> {
    pub closed spec fn phase_of(&self) -> Phase {
        self.phase
    }

    /// Attach-phase actions not handed out yet.
    pub closed spec fn pending_insert(&self) -> Seq<A> {
        self.after_insert@
    }

    /// Detach-phase actions not handed out yet.
    pub closed spec fn pending_remove(&self) -> Seq<A> {
        self.after_remove@
    }

    /// Every attach-phase action ever registered, in order.
    pub closed spec fn registered_insert(&self) -> Seq<A> {
        self.registered_insert@
    }

    /// Every detach-phase action ever registered, in order.
    pub closed spec fn registered_remove(&self) -> Seq<A> {
        self.registered_remove@
    }

    /// Every action handed out to run so far, in the order it was handed out.
    pub closed spec fn released(&self) -> Seq<Released<A>> {
        self.released@
    }

    /// The lifecycle invariant: what is pending and what has run follow from
    /// the phase and from what was registered.
    pub open spec fn wf(&self) -> bool {
        match self.phase_of() {
            Phase::Constructed => {
                &&& self.pending_insert() == self.registered_insert()
                &&& self.pending_remove() == self.registered_remove()
                &&& self.released() == Seq::<Released<A>>::empty()
            },
            Phase::Attached => {
                &&& self.pending_insert() == Seq::<A>::empty()
                &&& self.pending_remove() == self.registered_remove()
                &&& self.released() == attach_runs(self.registered_insert())
            },
            Phase::Detached => {
                &&& self.pending_insert() == Seq::<A>::empty()
                &&& self.pending_remove() == Seq::<A>::empty()
                &&& self.released() == attach_runs(self.registered_insert()) + detach_runs(
                    self.registered_remove(),
                )
            },
            Phase::DisposedUnattached => {
                &&& self.pending_insert() == Seq::<A>::empty()
                &&& self.pending_remove() == Seq::<A>::empty()
                &&& self.released() == detach_runs(self.registered_remove())
            },
            Phase::Leaked => {
                &&& self.pending_insert() == Seq::<A>::empty()
                &&& self.pending_remove() == Seq::<A>::empty()
                &&& self.released() == attach_runs(self.registered_insert())
            },
        }
    }

    /// Whether detach-phase actions may still be registered.
    pub open spec fn is_live(&self) -> bool {
        self.phase_of() == Phase::Constructed || self.phase_of() == Phase::Attached
    }

    pub fn new() -> (r: Self)
        ensures
            r.wf(),
            r.phase_of() == Phase::Constructed,
            r.registered_insert() == Seq::<A>::empty(),
            r.registered_remove() == Seq::<A>::empty(),
    {
        Callbacks {
            after_insert: Vec::new(),
            after_remove: Vec::new(),
            phase: Phase::Constructed,
            registered_insert: Ghost(Seq::empty()),
            registered_remove: Ghost(Seq::empty()),
            released: Ghost(Seq::empty()),
        }
    }

    pub fn phase(&self) -> (r: Phase)
        ensures
            r == self.phase_of(),
    {
        self.phase
    }

    /// Registers an action to run once the node is attached.
    pub fn after_insert(&mut self, action: A)
        requires
            old(self).wf(),
            old(self).phase_of() == Phase::Constructed,
        ensures
            final(self).wf(),
            final(self).phase_of() == Phase::Constructed,
            final(self).registered_insert() == old(self).registered_insert().push(action),
            final(self).registered_remove() == old(self).registered_remove(),
    {
        self.after_insert.push(action);
        self.registered_insert = Ghost(self.registered_insert@.push(action));
    }

    /// Registers an action to run once the node is detached, or discarded
    /// without ever being attached.
    pub fn after_remove(&mut self, action: A)
        requires
            old(self).wf(),
            old(self).is_live(),
        ensures
            final(self).wf(),
            final(self).phase_of() == old(self).phase_of(),
            final(self).registered_insert() == old(self).registered_insert(),
            final(self).registered_remove() == old(self).registered_remove().push(action),
            final(self).released() == old(self).released(),
    {
        self.after_remove.push(action);
        self.registered_remove = Ghost(self.registered_remove@.push(action));
    }

    /// Takes over the actions of a child's list, appended after this list's
    /// own, so that the child's phases run in lockstep with this one's.
    pub fn absorb(&mut self, child: Callbacks<A>)
        requires
            old(self).wf(),
            old(self).phase_of() == Phase::Constructed,
            child.wf(),
            child.phase_of() == Phase::Constructed,
        ensures
            final(self).wf(),
            final(self).phase_of() == Phase::Constructed,
            final(self).registered_insert() == old(self).registered_insert()
                + child.registered_insert(),
            final(self).registered_remove() == old(self).registered_remove()
                + child.registered_remove(),
    {
        let mut child = child;
        self.after_insert.append(&mut child.after_insert);
        self.after_remove.append(&mut child.after_remove);
        self.registered_insert = Ghost(self.registered_insert@ + child.registered_insert@);
        self.registered_remove = Ghost(self.registered_remove@ + child.registered_remove@);
    }

    /// Moves a node into the attached phase and hands back its attach-phase
    /// actions, in registration order, to run.
    pub fn trigger_after_insert(&mut self) -> (r: Vec<A>)
        requires
            old(self).wf(),
            old(self).phase_of() == Phase::Constructed,
        ensures
            final(self).wf(),
            final(self).phase_of() == Phase::Attached,
            r@ == old(self).registered_insert(),
            final(self).registered_insert() == old(self).registered_insert(),
            final(self).registered_remove() == old(self).registered_remove(),
    {
        let mut out: Vec<A> = Vec::new();
        std::mem::swap(&mut out, &mut self.after_insert);
        self.phase = Phase::Attached;
        self.released = Ghost(attach_runs(self.registered_insert@));
        out
    }

    /// Gives up the detach phase of an attached node: its actions are dropped
    /// and will never run.
    pub fn leak(&mut self)
        requires
            old(self).wf(),
            old(self).phase_of() == Phase::Attached,
        ensures
            final(self).wf(),
            final(self).phase_of() == Phase::Leaked,
            final(self).registered_insert() == old(self).registered_insert(),
            final(self).registered_remove() == old(self).registered_remove(),
            final(self).released() == old(self).released(),
    {
        self.after_remove.clear();
        self.phase = Phase::Leaked;
    }

    /// Hands back the pending detach-phase actions, in registration order, to
    /// run. A live list ends here; on a list that has ended this hands back
    /// nothing and changes nothing.
    pub fn discard(&mut self) -> (r: Vec<A>)
        requires
            old(self).wf(),
        ensures
            final(self).wf(),
            r@ == old(self).pending_remove(),
            final(self).registered_insert() == old(self).registered_insert(),
            final(self).registered_remove() == old(self).registered_remove(),
            final(self).phase_of() == match old(self).phase_of() {
                Phase::Constructed => Phase::DisposedUnattached,
                Phase::Attached => Phase::Detached,
                p => p,
            },
            old(self).is_live() ==> r@ == old(self).registered_remove(),
            !old(self).is_live() ==> r@ == Seq::<A>::empty() && final(self).released()
                == old(self).released(),
    {
        let mut out: Vec<A> = Vec::new();
        std::mem::swap(&mut out, &mut self.after_remove);
        match self.phase {
            Phase::Constructed => {
                self.after_insert.clear();
                self.phase = Phase::DisposedUnattached;
                self.released = Ghost(detach_runs(self.registered_remove@));
            },
            Phase::Attached => {
                self.phase = Phase::Detached;
                self.released = Ghost(
                    attach_runs(self.registered_insert@) + detach_runs(self.registered_remove@),
                );
            },
            _ => {},
        }
        out
    }
}

/// A node that was discarded without ever being attached has run each of its
/// detach-phase actions once, in registration order, and none of its
/// attach-phase actions.
pub proof fn lemma_unattached_runs_detach_phase_only<A>(c: Callbacks<A>)
    requires
        c.wf(),
        c.phase_of() == Phase::DisposedUnattached,
    ensures
        c.released().len() == c.registered_remove().len(),
        forall|i: int|
            0 <= i < c.released().len() ==> c.released()[i] == Released::OnDetach(
                c.registered_remove()[i],
            ),
        forall|i: int| 0 <= i < c.released().len() ==> !(c.released()[i] is OnAttach),
{
}

/// A node that was attached and then detached has run each attach-phase
/// action once, then each detach-phase action once, every attach-phase action
/// before any detach-phase action.
pub proof fn lemma_attached_then_detached<A>(c: Callbacks<A>)
    requires
        c.wf(),
        c.phase_of() == Phase::Detached,
    ensures
        c.released().len() == c.registered_insert().len() + c.registered_remove().len(),
        forall|i: int|
            0 <= i < c.registered_insert().len() ==> c.released()[i] == Released::OnAttach(
                c.registered_insert()[i],
            ),
        forall|j: int|
            0 <= j < c.registered_remove().len() ==> c.released()[c.registered_insert().len()
                + j] == Released::OnDetach(c.registered_remove()[j]),
{
}

/// A node that was attached and then leaked never runs a detach-phase action.
pub proof fn lemma_leaked_never_detaches<A>(c: Callbacks<A>)
    requires
        c.wf(),
        c.phase_of() == Phase::Leaked,
    ensures
        forall|i: int| 0 <= i < c.released().len() ==> !(c.released()[i] is OnDetach),
        c.pending_remove() == Seq::<A>::empty(),
        !c.is_live(),
{
}

} // verus!
