use cheime_tip::com::{
    class_object, factory_create, factory_query, tip_interface, tip_query, ComAnswer, RefCount,
    RequestedInterface, TipIid, TipInterface,
};

#[test]
fn ref_count_starts_at_one_and_last_release_destroys() {
    let mut c = RefCount::new();
    assert_eq!(c.add_ref(), 2);
    let r = c.release();
    assert_eq!(r.remaining, 1);
    assert!(!r.destroy);
    let r = c.release();
    assert_eq!(r.remaining, 0);
    assert!(r.destroy);
}

#[test]
fn factory_query_answers_unknown_and_factory_only() {
    assert_eq!(factory_query(true, true, true, RequestedInterface::Unknown), ComAnswer::Granted);
    assert_eq!(factory_query(true, true, true, RequestedInterface::ClassFactory), ComAnswer::Granted);
    assert_eq!(factory_query(true, true, true, RequestedInterface::Other), ComAnswer::NoInterface);
    assert_eq!(factory_query(false, true, true, RequestedInterface::Unknown), ComAnswer::Pointer);
    assert_eq!(factory_query(true, false, true, RequestedInterface::Unknown), ComAnswer::Pointer);
    assert_eq!(factory_query(true, true, false, RequestedInterface::Unknown), ComAnswer::Pointer);
}

#[test]
fn factory_create_rejects_aggregation_and_nulls() {
    assert_eq!(factory_create(true, true, true, true), ComAnswer::NoAggregation);
    assert_eq!(factory_create(true, true, false, false), ComAnswer::Pointer);
    assert_eq!(factory_create(false, true, true, false), ComAnswer::Pointer);
    assert_eq!(factory_create(true, true, true, false), ComAnswer::Proceed);
}

#[test]
fn class_object_checks_pointers_then_class() {
    assert_eq!(class_object(false, true, true, true), ComAnswer::Pointer);
    assert_eq!(class_object(true, false, true, true), ComAnswer::Pointer);
    assert_eq!(class_object(true, true, false, true), ComAnswer::Pointer);
    assert_eq!(class_object(true, true, true, false), ComAnswer::ClassNotAvailable);
    assert_eq!(class_object(true, true, true, true), ComAnswer::Proceed);
}

#[test]
fn tip_interfaces_map_to_their_headers() {
    assert_eq!(tip_interface(TipIid::Unknown), Some(TipInterface::Primary));
    assert_eq!(tip_interface(TipIid::TextInputProcessor), Some(TipInterface::Primary));
    assert_eq!(tip_interface(TipIid::TextInputProcessorEx), Some(TipInterface::Primary));
    assert_eq!(tip_interface(TipIid::KeyEventSink), Some(TipInterface::Key));
    assert_eq!(tip_interface(TipIid::ThreadMgrEventSink), Some(TipInterface::ThreadMgr));
    assert_eq!(tip_interface(TipIid::CompositionSink), Some(TipInterface::Composition));
    assert_eq!(tip_interface(TipIid::DisplayAttributeProvider), Some(TipInterface::Display));
    assert_eq!(tip_interface(TipIid::Other), None);
}

#[test]
fn tip_query_rejects_null_and_unknown() {
    assert_eq!(tip_query(false, true, true, TipIid::Unknown), (ComAnswer::Pointer, None));
    assert_eq!(tip_query(true, true, false, TipIid::Unknown), (ComAnswer::Pointer, None));
    assert_eq!(tip_query(true, true, true, TipIid::Other), (ComAnswer::NoInterface, None));
    assert_eq!(
        tip_query(true, true, true, TipIid::KeyEventSink),
        (ComAnswer::Granted, Some(TipInterface::Key))
    );
}
