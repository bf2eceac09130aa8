use dom_roots::cell::MutJS;
use dom_roots::cell::MutNullableJS;
use dom_roots::cell::OnceCellJS;
use dom_roots::js::HeapObject;
use dom_roots::js::JS;
use dom_roots::phase::Phase;
use dom_roots::root::RootCollection;
use dom_roots::trace::Tracer;

#[test]
fn mutable_cell_reads_last_write() {
    let phase = Phase::Script;
    let mut roots = RootCollection::new(phase);
    let a = HeapObject { identity: 1, ty: 0 };
    let b = HeapObject { identity: 2, ty: 0 };

    let mut c = MutJS::new(&a, phase);
    c.set(&b, phase);
    let r = c.get(&mut roots, phase);
    assert_eq!(r.js.identity, 2);
    assert_ne!(r.js.identity, a.identity);
}

#[test]
fn nullable_default_is_empty() {
    let phase = Phase::Script;
    let mut roots = RootCollection::new(phase);
    let c = MutNullableJS::default();
    assert!(c.get(&mut roots, phase).is_none());
    assert_eq!(roots.len(), 0);
}

#[test]
fn nullable_cell_scenario() {
    let phase = Phase::Script;
    let mut roots = RootCollection::new(phase);
    let mut c = MutNullableJS::new(None, phase);

    assert!(c.get(&mut roots, phase).is_none());

    let x = HeapObject { identity: 5, ty: 0 };
    c.set(Some(&x), phase);

    let got = c.get(&mut roots, phase).unwrap();
    assert_eq!(got.js.identity, 5);

    let taken = c.take(&mut roots, phase).unwrap();
    assert_eq!(taken.js.identity, 5);

    assert!(c.get(&mut roots, phase).is_none());
    assert!(c.take(&mut roots, phase).is_none());
}

#[test]
fn nullable_cell_rewraps_for_layout() {
    let script = Phase::Script;
    let layout = Phase::Layout;
    let x = HeapObject { identity: 6, ty: 1 };
    let c = MutNullableJS::new(Some(&x), script);
    let lj = c.get_inner_as_layout(layout).unwrap();
    assert_eq!(lj.identity, 6);
    assert_eq!(lj.ty, 1);

    let empty = MutNullableJS::new(None, script);
    assert!(empty.get_inner_as_layout(layout).is_none());
}

#[test]
fn or_init_runs_producer_once() {
    let phase = Phase::Script;
    let mut roots = RootCollection::new(phase);
    let mut c = MutNullableJS::new(None, phase);
    let mut count = 0;

    let r1 = c.or_init(&mut roots, phase, || {
        count += 1;
        JS { identity: 9, ty: 0, as_ty: 0 }
    });
    assert_eq!(r1.js.identity, 9);
    assert_eq!(count, 1);

    let r2 = c.or_init(&mut roots, phase, || {
        count += 1;
        JS { identity: 10, ty: 0, as_ty: 0 }
    });
    assert_eq!(r2.js.identity, 9);
    assert_eq!(count, 1);
    assert_eq!(roots.count_of(9), 2);
}

#[test]
fn init_once_runs_producer_once() {
    let phase = Phase::Script;
    let mut cell = OnceCellJS::default();
    let mut count = 0;

    let r1 = cell.init_once(phase, || {
        count += 1;
        JS { identity: 3, ty: 0, as_ty: 0 }
    });
    let r2 = cell.init_once(phase, || {
        count += 1;
        JS { identity: 4, ty: 0, as_ty: 0 }
    });
    let r3 = cell.init_once(phase, || {
        count += 1;
        JS { identity: 5, ty: 0, as_ty: 0 }
    });

    assert_eq!(count, 1);
    assert_eq!(r1.identity, 3);
    assert_eq!(r1, r2);
    assert_eq!(r2, r3);
}

#[test]
fn cells_report_contents_when_traced() {
    let phase = Phase::Script;
    let a = HeapObject { identity: 14, ty: 0 };

    let c = MutJS::new(&a, phase);
    let mut tracer = Tracer::new();
    c.trace(&mut tracer);

    let empty = MutNullableJS::new(None, phase);
    empty.trace(&mut tracer);

    let filled = MutNullableJS::new(Some(&a), phase);
    filled.trace(&mut tracer);

    let mut once = OnceCellJS::default();
    once.trace(&mut tracer);
    once.init_once(phase, || JS { identity: 15, ty: 0, as_ty: 0 });
    once.trace(&mut tracer);

    assert_eq!(tracer.into_reported(), vec![14, 14, 15]);
}

#[test]
fn cell_equality_compares_stored_handles() {
    let phase = Phase::Script;
    let a = HeapObject { identity: 1, ty: 0 };
    let b = HeapObject { identity: 2, ty: 0 };

    let c1 = MutJS::new(&a, phase);
    let c2 = MutJS::new(&a, phase);
    let c3 = MutJS::new(&b, phase);
    assert!(c1 == c2);
    assert!(c1 != c3);

    let n1 = MutNullableJS::new(None, phase);
    let n2 = MutNullableJS::default();
    let n3 = MutNullableJS::new(Some(&a), phase);
    assert!(n1 == n2);
    assert!(n1 != n3);
}
