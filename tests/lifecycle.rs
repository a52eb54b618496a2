use dominator::callbacks::{Callbacks, Phase};
use dominator::dom::{append_dom, Dom};
use dominator::builder::DomBuilder;

#[test]
fn unattached_node_runs_only_detach_actions() {
    let mut dom: Dom<&str, u32> = Dom::new("div");
    dom.after_removed(10);
    dom.after_removed(11);
    let builder = DomBuilder::new("span").after_inserted(1).after_removed(20);
    let other = builder.into_dom();
    assert_eq!(dom.discard(), vec![10, 11]);
    assert_eq!(other.discard(), vec![20]);
}

#[test]
fn callbacks_discard_unattached_drops_attach_phase() {
    let mut c: Callbacks<u32> = Callbacks::new();
    c.after_insert(1);
    c.after_remove(2);
    c.after_remove(3);
    assert_eq!(c.discard(), vec![2, 3]);
    assert_eq!(c.phase(), Phase::DisposedUnattached);
    assert_eq!(c.discard(), Vec::<u32>::new());
}

#[test]
fn attached_then_detached_runs_each_phase_once() {
    let builder = DomBuilder::new("div").after_inserted(1).after_removed(10).after_inserted(2);
    let (mut handle, attach) = append_dom("body", builder.into_dom());
    assert_eq!(attach, vec![1, 2]);
    handle.after_removed(11);
    assert_eq!(*handle.parent(), "body");
    assert_eq!(*handle.element(), "div");
    let (parent, child, detach) = handle.discard();
    assert_eq!(parent, "body");
    assert_eq!(child, "div");
    assert_eq!(detach, vec![10, 11]);
}

#[test]
fn callbacks_attach_then_detach() {
    let mut c: Callbacks<u32> = Callbacks::new();
    c.after_insert(1);
    c.after_remove(5);
    assert_eq!(c.trigger_after_insert(), vec![1]);
    assert_eq!(c.phase(), Phase::Attached);
    c.after_remove(6);
    assert_eq!(c.discard(), vec![5, 6]);
    assert_eq!(c.phase(), Phase::Detached);
    assert_eq!(c.discard(), Vec::<u32>::new());
}

#[test]
fn leaked_node_never_detaches() {
    let builder = DomBuilder::new("div").after_inserted(1).after_removed(10);
    let (handle, attach) = append_dom("body", builder.into_dom());
    assert_eq!(attach, vec![1]);
    let mut leaked = handle.leak();
    assert_eq!(leaked.phase(), Phase::Leaked);
    assert_eq!(leaked.discard(), Vec::<u32>::new());
    assert_eq!(leaked.phase(), Phase::Leaked);
}

#[test]
fn static_children_run_in_lockstep_with_parent() {
    let a = DomBuilder::new("a").after_inserted(2).after_removed(20).into_dom();
    let b = DomBuilder::new("b").after_inserted(3).after_removed(30).into_dom();
    let parent = DomBuilder::new("p").after_inserted(1).after_removed(10);
    assert!(!parent.has_children());
    let parent = parent.children(vec![a, b]);
    assert!(parent.has_children());
    let (handle, attach) = append_dom("body", parent.into_dom());
    assert_eq!(attach, vec![1, 2, 3]);
    let (_, _, detach) = handle.discard();
    assert_eq!(detach, vec![10, 20, 30]);
}

#[test]
fn children_signal_vec_assigns_children_once() {
    let parent: DomBuilder<&str, u32> = DomBuilder::new("p").after_removed(10);
    let parent = parent.children_signal_vec(99);
    assert!(parent.has_children());
    let (handle, attach) = append_dom("body", parent.into_dom());
    assert_eq!(attach, Vec::<u32>::new());
    let (_, _, detach) = handle.discard();
    assert_eq!(detach, vec![10, 99]);
}

#[test]
fn fresh_builder_has_no_children() {
    let b: DomBuilder<&str, u32> = DomBuilder::new("div");
    assert!(!b.has_children());
    assert_eq!(*b.element(), "div");
    let empty: DomBuilder<&str, u32> = DomBuilder::new("p").children(Vec::new());
    assert!(empty.has_children());
}

#[test]
fn namespaces() {
    assert_eq!(dominator::dom::HTML_NAMESPACE, "http://www.w3.org/1999/xhtml");
    assert_eq!(dominator::dom::SVG_NAMESPACE, "http://www.w3.org/2000/svg");
    assert_eq!(dominator::dom::HIGHEST_ZINDEX, "2147483647");
}

#[test]
fn dom_parts_round_trip() {
    let mut c: Callbacks<u32> = Callbacks::new();
    c.after_remove(4);
    let dom = Dom::from_parts("div", c);
    assert_eq!(dom.phase(), Phase::Constructed);
    let (element, mut callbacks) = dom.into_parts();
    assert_eq!(element, "div");
    assert_eq!(callbacks.discard(), vec![4]);
}
