use dom_roots::js::HeapObject;
use dom_roots::phase::Phase;
use dom_roots::root::Root;
use dom_roots::root::RootCollection;
use dom_roots::root::RootedReference;
use dom_roots::trace::trace_roots;
use dom_roots::trace::Tracer;

#[test]
fn fresh_collection_is_empty() {
    let roots = RootCollection::new(Phase::Script);
    assert_eq!(roots.len(), 0);
    let mut tracer = Tracer::new();
    trace_roots(&mut tracer, &roots);
    assert_eq!(tracer.into_reported(), Vec::<u64>::new());
}

#[test]
fn additive_roots_scenario() {
    let phase = Phase::Script;
    let mut roots = RootCollection::new(phase);
    let a = HeapObject { identity: 11, ty: 0 };

    let r1 = Root::from_ref(&a, &mut roots, phase);
    let r2 = Root::from_ref(&a, &mut roots, phase);
    assert_eq!(roots.count_of(11), 2);

    r1.unroot(&mut roots, phase);
    assert_eq!(roots.count_of(11), 1);

    let mut tracer = Tracer::new();
    trace_roots(&mut tracer, &roots);
    assert_eq!(tracer.into_reported(), vec![11]);

    r2.unroot(&mut roots, phase);
    assert_eq!(roots.count_of(11), 0);
    assert_eq!(roots.len(), 0);
}

#[test]
fn registry_empty_after_all_roots_dropped() {
    let phase = Phase::Script;
    let mut roots = RootCollection::new(phase);
    let a = HeapObject { identity: 1, ty: 0 };
    let b = HeapObject { identity: 2, ty: 0 };
    let c = HeapObject { identity: 3, ty: 0 };

    let ra = Root::from_ref(&a, &mut roots, phase);
    let rb = Root::from_ref(&b, &mut roots, phase);
    let rc = Root::from_ref(&c, &mut roots, phase);

    // Release in neither insertion nor reverse order.
    rb.unroot(&mut roots, phase);
    ra.unroot(&mut roots, phase);
    rc.unroot(&mut roots, phase);

    assert_eq!(roots.len(), 0);
    let mut tracer = Tracer::new();
    trace_roots(&mut tracer, &roots);
    assert_eq!(tracer.into_reported(), Vec::<u64>::new());
}

#[test]
fn trace_reports_exactly_the_registered_entries() {
    let phase = Phase::Script;
    let mut roots = RootCollection::new(phase);
    let a = HeapObject { identity: 7, ty: 0 };
    let b = HeapObject { identity: 8, ty: 0 };
    let c = HeapObject { identity: 9, ty: 0 };
    let _ra = Root::from_ref(&a, &mut roots, phase);
    let _rb = Root::from_ref(&b, &mut roots, phase);
    let _rc = Root::from_ref(&c, &mut roots, phase);

    let mut tracer = Tracer::new();
    trace_roots(&mut tracer, &roots);
    let mut reported = tracer.into_reported();
    reported.sort();
    assert_eq!(reported, vec![7, 8, 9]);
}

#[test]
fn unroot_removes_most_recent_matching_entry() {
    let phase = Phase::Script;
    let mut roots = RootCollection::new(phase);
    let a = HeapObject { identity: 21, ty: 0 };
    let b = HeapObject { identity: 22, ty: 0 };

    let first_a = Root::from_ref(&a, &mut roots, phase);
    let _rb = Root::from_ref(&b, &mut roots, phase);
    let second_a = Root::from_ref(&a, &mut roots, phase);
    assert_eq!(roots.len(), 3);

    // Removing an entry for `a` takes the most recently registered one.
    second_a.unroot(&mut roots, phase);
    assert_eq!(roots.len(), 2);
    assert_eq!(roots.entry_at(0), 21);
    assert_eq!(roots.entry_at(1), 22);

    first_a.unroot(&mut roots, phase);
    assert_eq!(roots.len(), 1);
    assert_eq!(roots.entry_at(0), 22);
}

#[test]
fn tracer_accumulates_in_reporting_order() {
    let mut tracer = Tracer::new();
    tracer.report(5);
    tracer.report(6);
    tracer.report(5);
    assert_eq!(tracer.into_reported(), vec![5, 6, 5]);
}

#[test]
fn rooted_reference_extracts_stored_handle() {
    let phase = Phase::Script;
    let mut roots = RootCollection::new(phase);
    let a = HeapObject { identity: 33, ty: 0 };
    let root = Root::from_ref(&a, &mut roots, phase);

    let handle = root.r();
    assert_eq!(handle.identity, 33);
    assert_eq!(handle.r().identity, 33);

    let optional = Some(root);
    let extracted = optional.r().unwrap();
    assert_eq!(extracted.identity, 33);
    let empty: Option<dom_roots::js::JS> = None;
    assert!(empty.r().is_none());
}

#[test]
fn cloned_root_owns_an_independent_entry() {
    let phase = Phase::Script;
    let mut roots = RootCollection::new(phase);
    let a = HeapObject { identity: 44, ty: 0 };

    let r1 = Root::from_ref(&a, &mut roots, phase);
    let r2 = r1.clone_in(&mut roots, phase);
    assert_eq!(r2.js.identity, 44);
    assert_eq!(roots.count_of(44), 2);

    r1.unroot(&mut roots, phase);
    assert_eq!(roots.count_of(44), 1);
    r2.unroot(&mut roots, phase);
    assert_eq!(roots.count_of(44), 0);
}
