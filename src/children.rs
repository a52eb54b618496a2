//! The reactive children list: a live sequence of attached children kept in
//! step with a stream of list changes.
use vstd::prelude::*;
use crate::callbacks::Phase;
use crate::dom::{Dom, all_inserts, all_removes, elements};

verus! {

/// One change to an ordered list, as a reactive list stream reports it.
pub enum VecChange<T> {
    Replace { values: Vec<T> },
    InsertAt { index: usize, value: T },
    UpdateAt { index: usize, value: T },
    RemoveAt { index: usize },
    Move { old_index: usize, new_index: usize },
    Push { value: T },
    Pop,
    Clear,
}

/// One thing to do to the tree, or one release action to run, in order.
#[derive(Debug, PartialEq, Eq)]
pub enum Step<N, A> {
    /// Insert the child now at live position `index` into the tree at
    /// position `index`.
    Insert { index: usize },
    /// Remove `node`, the tree's child at position `index`.
    Remove { index: usize, node: N },
    /// Move the tree's child at position `from` to position `to`; it is the
    /// child now at live position `to`.
    Move { from: usize, to: usize },
    /// Run this release action.
    Run(A),
}

/// The tree after one step, where `live` is the list of children once the
/// change has been made.
pub open spec fn step_tree<N, A>(tree: Seq<N>, step: Step<N, A>, live: Seq<N>) -> Seq<N> {
    match step {
        Step::Insert { index } => tree.insert(index as int, live[index as int]),
        Step::Remove { index, node } => tree.remove(index as int),
        Step::Move { from, to } => tree.remove(from as int).insert(to as int, live[to as int]),
        Step::Run(_) => tree,
    }
}

/// The tree after `steps`, in order.
pub open spec fn apply_steps<N, A>(tree: Seq<N>, steps: Seq<Step<N, A>>, live: Seq<N>) -> Seq<N>
    decreases steps.len(),
{
    if steps.len() == 0 {
        tree
    } else {
        step_tree(apply_steps(tree, steps.drop_last(), live), steps.last(), live)
    }
}

/// The release actions among `steps`, in order.
pub open spec fn runs<N, A>(steps: Seq<Step<N, A>>) -> Seq<A>
    decreases steps.len(),
{
    if steps.len() == 0 {
        Seq::empty()
    } else {
        runs(steps.drop_last()) + match steps.last() {
            Step::Run(a) => seq![a],
            _ => Seq::empty(),
        }
    }
}

/// `d` is `v` after insertion: same node, attach phase handed out.
pub open spec fn attached_as<N, A>(d: Dom<N, A>, v: Dom<N, A>) -> bool {
    &&& d.element_of() == v.element_of()
    &&& d.callbacks_of().wf()
    &&& d.callbacks_of().phase_of() == Phase::Attached
    &&& d.callbacks_of().registered_insert() == v.callbacks_of().registered_insert()
    &&& d.callbacks_of().registered_remove() == v.callbacks_of().registered_remove()
}

pub open spec fn is_attached_child<N, A>(d: Dom<N, A>) -> bool {
    d.callbacks_of().wf() && d.callbacks_of().phase_of() == Phase::Attached
}

/// The children of one parent that a reactive list binding keeps attached.
pub struct ChildrenList<N, A> {
    children: Vec<Dom<N, A>>,
}

impl<N, A> ChildrenList<N, A> {
    pub closed spec fn children(&self) -> Seq<Dom<N, A>> {
        self.children@
    }

    pub open spec fn wf(&self) -> bool {
        forall|i: int| 0 <= i < self.children().len() ==> is_attached_child(#[trigger] self.children()[i])
    }

    pub fn new() -> (r: Self)
        ensures
            r.wf(),
            r.children() == Seq::<Dom<N, A>>::empty(),
    {
        ChildrenList { children: Vec::new() }
    }

    pub fn len(&self) -> (r: usize)
        ensures
            r == self.children().len(),
    {
        self.children.len()
    }

    /// The tree handle of the child at live position `index`.
    pub fn element(&self, index: usize) -> (r: &N)
        requires
            index < self.children().len(),
        ensures
            *r == self.children()[index as int].element_of(),
    {
        self.children[index].element()
    }

    fn clear_all(&mut self, out: &mut Vec<Step<N, A>>)
        requires
            old(self).wf(),
            old(out)@ == Seq::<Step<N, A>>::empty(),
        ensures
            final(self).wf(),
            final(self).children() == Seq::<Dom<N, A>>::empty(),
            forall|t: Seq<N>, live: Seq<N>|
                t.len() >= old(self).children().len() ==> #[trigger] apply_steps(t, final(out)@, live)
                    == t.skip(old(self).children().len() as int),
            runs(final(out)@) == all_removes(old(self).children()),
    {
        let ghost orig = self.children();
        let mut k: usize = 0;
        assert(orig.len() == self.children.len());
        while self.children.len() > 0
            invariant
                self.wf(),
                0 <= k <= orig.len(),
                orig.len() <= usize::MAX,
                self.children() == orig.skip(k as int),
                forall|t: Seq<N>, live: Seq<N>|
                    t.len() >= orig.len() ==> #[trigger] apply_steps(t, out@, live) == t.skip(
                        k as int,
                    ),
                runs(out@) == all_removes(orig.take(k as int)),
            decreases self.children().len(),
        {
            let ghost prev = out@;
            let ghost before = self.children();
            self.remove_child(0, out);
            proof {
                assert(k < orig.len());
                assert(before[0] == orig[k as int]);
                assert(self.children() =~= orig.skip(k as int + 1));
                assert(orig.take(k as int + 1).drop_last() =~= orig.take(k as int));
                assert(orig.take(k as int + 1).last() == orig[k as int]);
                assert forall|t: Seq<N>, live: Seq<N>|
                    t.len() >= orig.len() implies #[trigger] apply_steps(t, out@, live) == t.skip(
                        k as int + 1,
                    ) by {
                    assert(apply_steps(t, out@, live) == apply_steps(t, prev, live).remove(0));
                    assert(t.skip(k as int).remove(0) =~= t.skip(k as int + 1));
                }
            }
            k = k + 1;
        }
        proof {
            assert(orig.take(k as int) =~= orig);
        }
    }

    /// What a change needs of the list to apply: positions in range, and
    /// new children that were never inserted.
    pub open spec fn change_fits(&self, change: VecChange<Dom<N, A>>) -> bool {
        let n = self.children().len();
        match change {
            VecChange::Replace { values } => forall|i: int|
                0 <= i < values@.len() ==> (#[trigger] values@[i]).is_fresh(),
            VecChange::InsertAt { index, value } => index <= n && value.is_fresh(),
            VecChange::UpdateAt { index, value } => index < n && value.is_fresh(),
            VecChange::RemoveAt { index } => index < n,
            VecChange::Move { old_index, new_index } => old_index < n && new_index < n,
            VecChange::Push { value } => value.is_fresh(),
            VecChange::Pop => n > 0,
            VecChange::Clear => true,
        }
    }

    /// Applies one change to the live children. Hands back, in order, the
    /// tree operations that bring the tree in line with the live list and
    /// the release actions to run: a removed child's detach phase right
    /// after its removal, an inserted child's attach phase right after its
    /// insertion.
    pub fn apply(&mut self, change: VecChange<Dom<N, A>>) -> (r: Vec<Step<N, A>>)
        requires
            old(self).wf(),
            old(self).change_fits(change),
        ensures
            final(self).wf(),
            apply_steps(elements(old(self).children()), r@, elements(final(self).children()))
                == elements(final(self).children()),
            ({
                let before = old(self).children();
                let after = final(self).children();
                match change {
                    VecChange::Replace { values } => {
                        &&& after.len() == values@.len()
                        &&& forall|i: int| 0 <= i < after.len() ==> attached_as(
                            #[trigger] after[i],
                            values@[i],
                        )
                        &&& elements(after) == elements(values@)
                        &&& runs(r@) == all_removes(before) + all_inserts(values@)
                    },
                    VecChange::InsertAt { index, value } => {
                        &&& after == before.insert(index as int, after[index as int])
                        &&& attached_as(after[index as int], value)
                        &&& elements(after) == elements(before).insert(
                            index as int,
                            value.element_of(),
                        )
                        &&& runs(r@) == value.callbacks_of().registered_insert()
                    },
                    VecChange::UpdateAt { index, value } => {
                        &&& after == before.update(index as int, after[index as int])
                        &&& attached_as(after[index as int], value)
                        &&& elements(after) == elements(before).update(
                            index as int,
                            value.element_of(),
                        )
                        &&& runs(r@) == before[index as int].callbacks_of().registered_remove()
                            + value.callbacks_of().registered_insert()
                    },
                    VecChange::RemoveAt { index } => {
                        &&& after == before.remove(index as int)
                        &&& r@[0] == (Step::<N, A>::Remove {
                            index,
                            node: before[index as int].element_of(),
                        })
                        &&& runs(r@) == before[index as int].callbacks_of().registered_remove()
                    },
                    VecChange::Move { old_index, new_index } => {
                        &&& after == before.remove(old_index as int).insert(
                            new_index as int,
                            before[old_index as int],
                        )
                        &&& runs(r@) == Seq::<A>::empty()
                    },
                    VecChange::Push { value } => {
                        &&& after == before.push(after.last())
                        &&& attached_as(after.last(), value)
                        &&& elements(after) == elements(before).push(value.element_of())
                        &&& runs(r@) == value.callbacks_of().registered_insert()
                    },
                    VecChange::Pop => {
                        &&& after == before.drop_last()
                        &&& r@[0] == (Step::<N, A>::Remove {
                            index: (before.len() - 1) as usize,
                            node: before.last().element_of(),
                        })
                        &&& runs(r@) == before.last().callbacks_of().registered_remove()
                    },
                    VecChange::Clear => {
                        &&& after == Seq::<Dom<N, A>>::empty()
                        &&& runs(r@) == all_removes(before)
                    },
                }
            }),
    {
        let ghost before = self.children();
        let ghost t0 = elements(before);
        let mut out: Vec<Step<N, A>> = Vec::new();
        match change {
            VecChange::Replace { values } => {
                self.clear_all(&mut out);
                let ghost vals = values@;
                let ghost live = elements(vals);
                proof {
                    assert(apply_steps(t0, out@, live) == t0.skip(before.len() as int));
                    assert(t0.skip(before.len() as int) =~= elements(vals.take(0)));
                    assert(all_inserts(vals.take(0)) =~= Seq::<A>::empty());
                    assert(all_removes(before) + all_inserts(vals.take(0)) =~= all_removes(before));
                }
                let mut rest = values;
                let mut j: usize = 0;
                assert(vals.len() == rest.len());
                while rest.len() > 0
                    invariant
                        self.wf(),
                        0 <= j <= vals.len(),
                        vals.len() <= usize::MAX,
                        rest@ == vals.skip(j as int),
                        forall|i: int| 0 <= i < vals.len() ==> (#[trigger] vals[i]).is_fresh(),
                        live == elements(vals),
                        self.children().len() == j,
                        forall|m: int| 0 <= m < j ==> attached_as(
                            #[trigger] self.children()[m],
                            vals[m],
                        ),
                        elements(self.children()) == elements(vals.take(j as int)),
                        apply_steps(t0, out@, live) == elements(vals.take(j as int)),
                        runs(out@) == all_removes(before) + all_inserts(vals.take(j as int)),
                    decreases rest.len(),
                {
                    let v = rest.remove(0);
                    let ghost prev = out@;
                    let ghost cur = self.children();
                    proof {
                        assert(j < vals.len());
                        assert(v == vals[j as int]);
                        assert(rest@ =~= vals.skip(j as int + 1));
                        assert(cur.len() == j);
                    }
                    self.insert_child(j, v, &mut out);
                    proof {
                        assert forall|m: int| 0 <= m < j + 1 implies attached_as(
                            #[trigger] self.children()[m],
                            vals[m],
                        ) by {
                            if m < j {
                                assert(self.children()[m] == cur[m]);
                            }
                        }
                        let nt = vals.take(j as int + 1);
                        assert(nt.drop_last() =~= vals.take(j as int));
                        assert(nt.last() == vals[j as int]);
                        assert(self.children() =~= cur.push(self.children()[j as int]));
                        assert forall|i: int| 0 <= i <= j implies #[trigger] elements(
                            self.children(),
                        )[i] == elements(nt)[i] by {
                            if i < j {
                                assert(self.children()[i] == cur[i]);
                                assert(elements(cur)[i] == elements(vals.take(j as int))[i]);
                            }
                        }
                        assert(elements(self.children()) =~= elements(nt));
                        assert(apply_steps(t0, out@, live) == apply_steps(t0, prev, live).insert(
                            j as int,
                            live[j as int],
                        ));
                        assert(elements(vals.take(j as int)).insert(j as int, live[j as int])
                            =~= elements(nt));
                        assert(all_inserts(nt) == all_inserts(vals.take(j as int))
                            + vals[j as int].callbacks_of().registered_insert());
                        assert(all_removes(before) + all_inserts(vals.take(j as int))
                            + vals[j as int].callbacks_of().registered_insert() =~= all_removes(
                            before,
                        ) + all_inserts(nt));
                    }
                    j = j + 1;
                }
                proof {
                    assert(vals.take(j as int) =~= vals);
                }
            },
            VecChange::InsertAt { index, value } => {
                self.insert_child(index, value, &mut out);
                proof {
                    assert(elements(self.children()) =~= t0.insert(index as int, value.element_of()));
                    assert(runs(Seq::<Step<N, A>>::empty()) + value.callbacks_of().registered_insert()
                        =~= value.callbacks_of().registered_insert());
                }
            },
            VecChange::UpdateAt { index, value } => {
                self.remove_child(index, &mut out);
                let ghost mid = out@;
                self.insert_child(index, value, &mut out);
                proof {
                    let after = elements(self.children());
                    assert(after =~= t0.update(index as int, value.element_of()));
                    assert(self.children() =~= before.update(
                        index as int,
                        self.children()[index as int],
                    ));
                    assert(apply_steps(t0, out@, after) == apply_steps(t0, mid, after).insert(
                        index as int,
                        after[index as int],
                    ));
                    assert(t0.remove(index as int).insert(index as int, after[index as int])
                        =~= after);
                    assert(Seq::<A>::empty() + before[index as int].callbacks_of().registered_remove()
                        =~= before[index as int].callbacks_of().registered_remove());
                }
            },
            VecChange::RemoveAt { index } => {
                self.remove_child(index, &mut out);
                proof {
                    assert(elements(self.children()) =~= t0.remove(index as int));
                    assert(Seq::<A>::empty() + before[index as int].callbacks_of().registered_remove()
                        =~= before[index as int].callbacks_of().registered_remove());
                }
            },
            VecChange::Move { old_index, new_index } => {
                let child = self.children.remove(old_index);
                self.children.insert(new_index, child);
                out.push(Step::Move { from: old_index, to: new_index });
                proof {
                    let after = self.children();
                    assert(after =~= before.remove(old_index as int).insert(
                        new_index as int,
                        before[old_index as int],
                    ));
                    assert forall|i: int| 0 <= i < after.len() implies is_attached_child(
                        #[trigger] after[i],
                    ) by {
                        let mid = before.remove(old_index as int);
                        if i < new_index {
                            assert(after[i] == mid[i]);
                        } else if i > new_index {
                            assert(after[i] == mid[i - 1]);
                        }
                        if i != new_index {
                            let m = if i < new_index { i } else { i - 1 };
                            if m < old_index {
                                assert(mid[m] == before[m]);
                            } else {
                                assert(mid[m] == before[m + 1]);
                            }
                        }
                    }
                    assert(out@.drop_last() =~= Seq::<Step<N, A>>::empty());
                    assert(out@.last() == Step::<N, A>::Move { from: old_index, to: new_index });
                    assert(runs(Seq::<Step<N, A>>::empty()) == Seq::<A>::empty());
                    assert(apply_steps(t0, Seq::<Step<N, A>>::empty(), elements(after)) == t0);
                    assert(elements(after) =~= t0.remove(old_index as int).insert(
                        new_index as int,
                        elements(after)[new_index as int],
                    ));
                    assert(runs(out@) =~= Seq::<A>::empty());
                }
            },
            VecChange::Push { value } => {
                let n = self.children.len();
                self.insert_child(n, value, &mut out);
                proof {
                    assert(elements(self.children()) =~= t0.push(value.element_of()));
                    assert(self.children() =~= before.push(self.children().last()));
                    assert(t0.insert(n as int, value.element_of()) =~= t0.push(value.element_of()));
                    assert(Seq::<A>::empty() + value.callbacks_of().registered_insert()
                        =~= value.callbacks_of().registered_insert());
                }
            },
            VecChange::Pop => {
                let n = self.children.len();
                self.remove_child(n - 1, &mut out);
                proof {
                    assert(self.children() =~= before.drop_last());
                    assert(elements(self.children()) =~= t0.remove(n - 1));
                    assert(Seq::<A>::empty() + before.last().callbacks_of().registered_remove()
                        =~= before.last().callbacks_of().registered_remove());
                }
            },
            VecChange::Clear => {
                self.clear_all(&mut out);
                proof {
                    assert(t0.skip(before.len() as int) =~= elements(self.children()));
                }
            },
        }
        out
    }

    /// Tears the list down with its parent: hands back the detach-phase
    /// actions of every child, in current order, each child's in
    /// registration order. The children leave the tree with the parent.
    pub fn discard(self) -> (r: Vec<A>)
        requires
            self.wf(),
        ensures
            r@ == all_removes(self.children()),
    {
        let ghost orig = self.children();
        let mut rest = self.children;
        let mut out: Vec<A> = Vec::new();
        let mut k: usize = 0;
        assert(orig.len() == rest.len());
        while rest.len() > 0
            invariant
                0 <= k <= orig.len(),
                orig.len() <= usize::MAX,
                rest@ == orig.skip(k as int),
                forall|i: int| 0 <= i < orig.len() ==> is_attached_child(#[trigger] orig[i]),
                out@ == all_removes(orig.take(k as int)),
            decreases rest.len(),
        {
            let child = rest.remove(0);
            proof {
                assert(k < orig.len());
                assert(child == orig[k as int]);
                assert(is_attached_child(orig[k as int]));
                assert(rest@ =~= orig.skip(k as int + 1));
                assert(orig.take(k as int + 1).drop_last() =~= orig.take(k as int));
                assert(orig.take(k as int + 1).last() == orig[k as int]);
            }
            let (_element, callbacks) = child.into_parts();
            let mut callbacks = callbacks;
            let mut actions = callbacks.discard();
            out.append(&mut actions);
            k = k + 1;
        }
        proof {
            assert(orig.take(k as int) =~= orig);
        }
        out
    }

    /// Registers a detach-phase action on the child at live position
    /// `index`, such as cleanup for work that its attach phase started.
    pub fn after_removed(&mut self, index: usize, action: A)
        requires
            old(self).wf(),
            index < old(self).children().len(),
        ensures
            final(self).wf(),
            final(self).children().len() == old(self).children().len(),
            forall|i: int|
                0 <= i < old(self).children().len() && i != index ==> final(self).children()[i]
                    == old(self).children()[i],
            final(self).children()[index as int].element_of() == old(
                self,
            ).children()[index as int].element_of(),
            final(self).children()[index as int].callbacks_of().registered_insert() == old(
                self,
            ).children()[index as int].callbacks_of().registered_insert(),
            final(self).children()[index as int].callbacks_of().registered_remove() == old(
                self,
            ).children()[index as int].callbacks_of().registered_remove().push(action),
    {
        let child = self.children.remove(index);
        let (element, callbacks) = child.into_parts();
        let mut callbacks = callbacks;
        proof {
            assert(is_attached_child(old(self).children()[index as int]));
        }
        callbacks.after_remove(action);
        self.children.insert(index, Dom::from_parts(element, callbacks));
        proof {
            assert forall|i: int| 0 <= i < self.children().len() implies is_attached_child(
                #[trigger] self.children()[i],
            ) by {
                if i != index {
                    assert(self.children()[i] == old(self).children()[i]);
                }
            }
        }
    }

    fn push_runs(out: &mut Vec<Step<N, A>>, actions: Vec<A>)
        ensures
            forall|t: Seq<N>, live: Seq<N>|
                #[trigger] apply_steps(t, final(out)@, live) == apply_steps(t, old(out)@, live),
            runs(final(out)@) == runs(old(out)@) + actions@,
            final(out)@.len() >= old(out)@.len(),
            forall|i: int| 0 <= i < old(out)@.len() ==> final(out)@[i] == old(out)@[i],
    {
        let ghost start = out@;
        let ghost all = actions@;
        let mut rest = actions;
        let mut k: usize = 0;
        assert(all.len() == rest.len());
        while rest.len() > 0
            invariant
                0 <= k <= all.len(),
                all.len() <= usize::MAX,
                rest@ == all.skip(k as int),
                forall|t: Seq<N>, live: Seq<N>|
                    #[trigger] apply_steps(t, out@, live) == apply_steps(t, start, live),
                runs(out@) == runs(start) + all.take(k as int),
                out@.len() >= start.len(),
                forall|i: int| 0 <= i < start.len() ==> out@[i] == start[i],
            decreases rest.len(),
        {
            let a = rest.remove(0);
            let ghost prev = out@;
            out.push(Step::Run(a));
            proof {
                assert(k < all.len());
                assert(out@.drop_last() == prev);
                assert(all.take(k as int + 1) == all.take(k as int).push(a));
                assert(rest@ == all.skip(k as int + 1));
                assert forall|t: Seq<N>, live: Seq<N>|
                    #[trigger] apply_steps(t, out@, live) == apply_steps(t, start, live) by {
                    assert(apply_steps(t, out@, live) == apply_steps(t, prev, live));
                }
            }
            k = k + 1;
        }
        proof {
            assert(all.take(k as int) == all);
        }
    }

    fn insert_child(&mut self, index: usize, value: Dom<N, A>, out: &mut Vec<Step<N, A>>)
        requires
            old(self).wf(),
            index <= old(self).children().len(),
            value.is_fresh(),
        ensures
            final(self).wf(),
            final(self).children().len() == old(self).children().len() + 1,
            final(self).children() == old(self).children().insert(
                index as int,
                final(self).children()[index as int],
            ),
            attached_as(final(self).children()[index as int], value),
            forall|t: Seq<N>, live: Seq<N>|
                #[trigger] apply_steps(t, final(out)@, live) == apply_steps(t, old(out)@, live).insert(
                    index as int,
                    live[index as int],
                ),
            runs(final(out)@) == runs(old(out)@) + value.callbacks_of().registered_insert(),
    {
        let (element, callbacks) = value.into_parts();
        let mut callbacks = callbacks;
        let actions = callbacks.trigger_after_insert();
        let child = Dom::from_parts(element, callbacks);
        let ghost c = child;
        self.children.insert(index, child);
        let ghost prev = out@;
        out.push(Step::Insert { index });
        proof {
            assert(out@.drop_last() == prev);
            assert(runs(out@) == runs(prev));
            assert(self.children@[index as int] == c);
            assert forall|i: int| 0 <= i < self.children().len() implies is_attached_child(
                #[trigger] self.children()[i],
            ) by {
                if i < index {
                    assert(self.children()[i] == old(self).children()[i]);
                } else if i > index {
                    assert(self.children()[i] == old(self).children()[i - 1]);
                }
            }
        }
        let ghost mid = out@;
        Self::push_runs(out, actions);
        proof {
            assert forall|t: Seq<N>, live: Seq<N>|
                #[trigger] apply_steps(t, out@, live) == apply_steps(t, prev, live).insert(
                    index as int,
                    live[index as int],
                ) by {
                assert(apply_steps(t, out@, live) == apply_steps(t, mid, live));
            }
        }
    }

    fn remove_child(&mut self, index: usize, out: &mut Vec<Step<N, A>>)
        requires
            old(self).wf(),
            index < old(self).children().len(),
        ensures
            final(self).wf(),
            final(self).children() == old(self).children().remove(index as int),
            forall|t: Seq<N>, live: Seq<N>|
                #[trigger] apply_steps(t, final(out)@, live) == apply_steps(t, old(out)@, live).remove(
                    index as int,
                ),
            runs(final(out)@) == runs(old(out)@) + old(
                self,
            ).children()[index as int].callbacks_of().registered_remove(),
            final(out)@.len() > old(out)@.len(),
            final(out)@[old(out)@.len() as int] == (Step::<N, A>::Remove {
                index,
                node: old(self).children()[index as int].element_of(),
            }),
            forall|i: int| 0 <= i < old(out)@.len() ==> final(out)@[i] == old(out)@[i],
    {
        let child = self.children.remove(index);
        proof {
            assert(is_attached_child(old(self).children()[index as int]));
            assert forall|i: int| 0 <= i < self.children().len() implies is_attached_child(
                #[trigger] self.children()[i],
            ) by {
                if i < index {
                    assert(self.children()[i] == old(self).children()[i]);
                } else {
                    assert(self.children()[i] == old(self).children()[i + 1]);
                }
            }
        }
        let (element, callbacks) = child.into_parts();
        let mut callbacks = callbacks;
        let actions = callbacks.discard();
        let ghost prev = out@;
        out.push(Step::Remove { index, node: element });
        proof {
            assert(out@.drop_last() == prev);
            assert(runs(out@) == runs(prev));
        }
        let ghost mid = out@;
        Self::push_runs(out, actions);
        proof {
            assert forall|t: Seq<N>, live: Seq<N>|
                #[trigger] apply_steps(t, out@, live) == apply_steps(t, prev, live).remove(
                    index as int,
                ) by {
                assert(apply_steps(t, out@, live) == apply_steps(t, mid, live));
            }
        }
    }
}

} // verus!
