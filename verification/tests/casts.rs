use dom_roots::hierarchy::TypeHierarchy;
use dom_roots::js::HeapObject;
use dom_roots::js::JS;
use dom_roots::js::LayoutJS;
use dom_roots::js::TrustedNodeAddress;
use dom_roots::phase::Phase;
use dom_roots::root::Root;
use dom_roots::root::RootCollection;

// Tags: 0 is the hierarchy root, 1 derives from 0, 2 derives from 1, and
// 3 derives from 0 on a separate branch.
fn hierarchy() -> TypeHierarchy {
    TypeHierarchy::from_table(vec![0, 0, 1, 0]).unwrap()
}

#[test]
fn hierarchy_refuses_forward_parents() {
    assert!(TypeHierarchy::from_table(vec![1, 0]).is_none());
    assert!(TypeHierarchy::from_table(vec![0, 2, 1]).is_none());
}

#[test]
fn derives_walks_the_parent_chain() {
    let h = hierarchy();
    assert_eq!(h.tag_count(), 4);
    assert!(h.derives_from(2, 2));
    assert!(h.derives_from(2, 1));
    assert!(h.derives_from(2, 0));
    assert!(!h.derives_from(0, 2));
    assert!(!h.derives_from(3, 1));
    assert!(h.derives_from(3, 0));
}

#[test]
fn root_cast_roundtrip_recovers_identity() {
    let phase = Phase::Script;
    let h = hierarchy();
    let mut roots = RootCollection::new(phase);
    let obj = HeapObject { identity: 42, ty: 2 };

    let r = Root::from_ref(&obj, &mut roots, phase);
    let up = Root::upcast(r, 0, &h);
    assert_eq!(up.js.as_ty, 0);
    assert_eq!(up.js.identity, 42);
    assert_eq!(roots.count_of(42), 1);

    let back = Root::downcast(up, 2, &h, &mut roots, phase).unwrap();
    assert_eq!(back.js.identity, 42);
    assert_eq!(back.js.as_ty, 2);
    assert_eq!(roots.count_of(42), 1);

    // A mismatched downcast yields nothing and releases the consumed
    // handle's entry.
    let miss = Root::downcast(back, 3, &h, &mut roots, phase);
    assert!(miss.is_none());
    assert_eq!(roots.count_of(42), 0);
}

#[test]
fn layout_cast_roundtrip_recovers_identity() {
    let layout = Phase::Layout;
    let h = hierarchy();
    let node = TrustedNodeAddress { addr: 7, ty: 2 };

    let lj = LayoutJS::from_trusted_node_address(node, 1, &h, layout);
    assert_eq!(lj.identity, 7);
    assert_eq!(lj.as_ty, 1);

    let up = lj.upcast(0, &h, layout);
    assert_eq!(up.as_ty, 0);

    let back = up.downcast(2, &h, layout).unwrap();
    assert_eq!(back.identity, 7);
    assert_eq!(back.as_ty, 2);

    assert!(up.downcast(3, &h, layout).is_none());
}

#[test]
fn layout_accessors_expose_the_identity() {
    let layout = Phase::Layout;
    let h = hierarchy();
    let node = TrustedNodeAddress { addr: 64, ty: 1 };
    let lj = LayoutJS::from_trusted_node_address(node, 1, &h, layout);

    assert_eq!(lj.get_jsobject(layout), 64);
    assert_eq!(lj.unsafe_get(layout), 64);
    assert_eq!(lj.get_for_script(Phase::Script), 64);
}

#[test]
fn handle_conversions_keep_identity_and_tags() {
    let obj = HeapObject { identity: 12, ty: 1 };
    let js = JS::from_ref(&obj, Phase::Script);
    assert_eq!(js.identity, 12);
    assert_eq!(js.ty, 1);
    assert_eq!(js.as_ty, 1);

    let lj = js.to_layout(Phase::Layout);
    assert_eq!(lj.identity, 12);
    assert_eq!(lj.ty, 1);
    assert_eq!(lj.as_ty, 1);
}
