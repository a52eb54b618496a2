use dominator::builder::DomBuilder;
use dominator::children::{ChildrenList, Step, VecChange};
use dominator::dom::Dom;

fn node(name: &'static str, attach: u32, detach: u32) -> Dom<&'static str, u32> {
    DomBuilder::new(name).after_inserted(attach).after_removed(detach).into_dom()
}

// Plays the steps on a model tree; returns the actions run, in order.
fn play(tree: &mut Vec<&'static str>, list: &ChildrenList<&'static str, u32>, steps: Vec<Step<&'static str, u32>>) -> Vec<u32> {
    let mut ran = Vec::new();
    for step in steps {
        match step {
            Step::Insert { index } => tree.insert(index, *list.element(index)),
            Step::Remove { index, node } => {
                assert_eq!(tree[index], node);
                tree.remove(index);
            }
            Step::Move { from, to } => {
                let n = tree.remove(from);
                assert_eq!(n, *list.element(to));
                tree.insert(to, n);
            }
            Step::Run(a) => ran.push(a),
        }
    }
    ran
}

fn live(list: &ChildrenList<&'static str, u32>) -> Vec<&'static str> {
    (0..list.len()).map(|i| *list.element(i)).collect()
}

#[test]
fn insert_insert_remove_leaves_second_child() {
    let mut list = ChildrenList::new();
    let mut tree = Vec::new();
    let ran = change(&mut tree, &mut list, VecChange::InsertAt { index: 0, value: node("A", 1, 10) });
    assert_eq!(ran, vec![1]);
    let ran = change(&mut tree, &mut list, VecChange::InsertAt { index: 1, value: node("B", 2, 20) });
    assert_eq!(ran, vec![2]);
    let ran = change(&mut tree, &mut list, VecChange::RemoveAt { index: 0 });
    assert_eq!(ran, vec![10]);
    assert_eq!(tree, vec!["B"]);
    assert_eq!(live(&list), vec!["B"]);
    assert_eq!(list.discard(), vec![20]);
}

// Applies one change to the list, then plays its steps on the model tree.
fn change(tree: &mut Vec<&'static str>, list: &mut ChildrenList<&'static str, u32>, c: VecChange<Dom<&'static str, u32>>) -> Vec<u32> {
    let steps = list.apply(c);
    play(tree, list, steps)
}

#[test]
fn first_step_of_insert_is_tree_insertion() {
    let mut list = ChildrenList::new();
    let steps = list.apply(VecChange::Push { value: node("A", 1, 10) });
    assert_eq!(steps, vec![Step::Insert { index: 0 }, Step::Run(1)]);
    let steps = list.apply(VecChange::Pop);
    assert_eq!(steps, vec![Step::Remove { index: 0, node: "A" }, Step::Run(10)]);
    assert_eq!(list.len(), 0);
}

#[test]
fn update_replaces_child_in_place() {
    let mut list = ChildrenList::new();
    let mut tree = Vec::new();
    change(&mut tree, &mut list, VecChange::Push { value: node("A", 1, 10) });
    change(&mut tree, &mut list, VecChange::Push { value: node("B", 2, 20) });
    let ran = change(&mut tree, &mut list, VecChange::UpdateAt { index: 0, value: node("C", 3, 30) });
    assert_eq!(ran, vec![10, 3]);
    assert_eq!(tree, vec!["C", "B"]);
    assert_eq!(live(&list), vec!["C", "B"]);
}

#[test]
fn move_keeps_tree_in_step() {
    let mut list = ChildrenList::new();
    let mut tree = Vec::new();
    for (n, a, d) in [("A", 1, 10), ("B", 2, 20), ("C", 3, 30)] {
        change(&mut tree, &mut list, VecChange::Push { value: node(n, a, d) });
    }
    let ran = change(&mut tree, &mut list, VecChange::Move { old_index: 0, new_index: 2 });
    assert_eq!(ran, Vec::<u32>::new());
    assert_eq!(tree, vec!["B", "C", "A"]);
    assert_eq!(live(&list), vec!["B", "C", "A"]);
    assert_eq!(list.discard(), vec![20, 30, 10]);
}

#[test]
fn replace_detaches_old_then_attaches_new() {
    let mut list = ChildrenList::new();
    let mut tree = Vec::new();
    change(&mut tree, &mut list, VecChange::Push { value: node("A", 1, 10) });
    change(&mut tree, &mut list, VecChange::Push { value: node("B", 2, 20) });
    let ran = change(&mut tree, &mut list, VecChange::Replace { values: vec![node("X", 7, 70), node("Y", 8, 80)] });
    assert_eq!(ran, vec![10, 20, 7, 8]);
    assert_eq!(tree, vec!["X", "Y"]);
    let ran = change(&mut tree, &mut list, VecChange::Clear);
    assert_eq!(ran, vec![70, 80]);
    assert!(tree.is_empty());
    assert_eq!(list.len(), 0);
}

#[test]
fn parent_teardown_detaches_children_in_order() {
    let mut list = ChildrenList::new();
    list.apply(VecChange::Push { value: node("A", 1, 10) });
    list.apply(VecChange::InsertAt { index: 0, value: node("B", 2, 20) });
    assert_eq!(list.discard(), vec![20, 10]);
}

#[test]
fn child_release_registered_after_insertion_runs_on_removal() {
    let mut list = ChildrenList::new();
    list.apply(VecChange::Push { value: node("A", 1, 10) });
    list.after_removed(0, 11);
    let steps = list.apply(VecChange::RemoveAt { index: 0 });
    assert_eq!(steps, vec![Step::Remove { index: 0, node: "A" }, Step::Run(10), Step::Run(11)]);
}
