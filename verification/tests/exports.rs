use cheime_tip::cli::CHEIME_TIP_CLSID;
use cheime_tip::exports::{
    can_unload_now, clsid_registry_path, decrement_object_count, increment_object_count,
    inproc_server_registry_path, live_object_count, reset_object_count, ObjectCount,
    CHEIME_TIP_CLSID_STR,
};

#[test]
fn clsid_str_is_valid_guid_format() {
    assert_eq!(CHEIME_TIP_CLSID_STR.len(), 38);
    assert!(CHEIME_TIP_CLSID_STR.starts_with('{'));
    assert!(CHEIME_TIP_CLSID_STR.ends_with('}'));
}

#[test]
fn clsid_is_valid_guid_format() {
    assert_eq!(CHEIME_TIP_CLSID.len(), 38);
    assert!(CHEIME_TIP_CLSID.starts_with('{'));
    assert!(CHEIME_TIP_CLSID.ends_with('}'));
}

#[test]
fn clsid_path_contains_clsid() {
    let path = clsid_registry_path();
    assert!(path.contains(CHEIME_TIP_CLSID_STR));
}

#[test]
fn inproc_path_beneath_clsid_path() {
    let inproc = inproc_server_registry_path();
    assert!(inproc.starts_with(&clsid_registry_path()));
    assert!(inproc.ends_with("InprocServer32"));
}

#[test]
fn object_count_starts_zero() {
    let mut count = ObjectCount::new();
    reset_object_count(&mut count);
    assert_eq!(live_object_count(&count), 0);
}

#[test]
fn increment_and_decrement() {
    let mut count = ObjectCount::new();
    reset_object_count(&mut count);
    assert_eq!(live_object_count(&count), 0);
    increment_object_count(&mut count);
    assert_eq!(live_object_count(&count), 1);
    increment_object_count(&mut count);
    assert_eq!(live_object_count(&count), 2);
    decrement_object_count(&mut count);
    assert_eq!(live_object_count(&count), 1);
    decrement_object_count(&mut count);
    assert_eq!(live_object_count(&count), 0);
}

#[test]
fn registry_paths_are_exact() {
    assert_eq!(
        clsid_registry_path(),
        r"Software\Classes\CLSID\{B5F1C9A8-3E7D-4A15-AE2D-F89C1B6E3A07}"
    );
    assert_eq!(
        inproc_server_registry_path(),
        r"Software\Classes\CLSID\{B5F1C9A8-3E7D-4A15-AE2D-F89C1B6E3A07}\InprocServer32"
    );
}

#[test]
fn unload_needs_no_objects_and_no_locks() {
    assert!(can_unload_now(0, 0));
    assert!(!can_unload_now(1, 0));
    assert!(!can_unload_now(0, 1));
}

#[test]
fn decrement_below_zero_wraps_like_an_atomic_counter() {
    let mut count = ObjectCount::new();
    decrement_object_count(&mut count);
    assert_eq!(live_object_count(&count), usize::MAX);
    increment_object_count(&mut count);
    assert_eq!(live_object_count(&count), 0);
}

#[test]
fn dll_can_unload_uses_separate_object_and_lock_counts() {
    let mut objects = ObjectCount::new();
    let mut locks = ObjectCount::new();
    assert!(can_unload_now(live_object_count(&objects), live_object_count(&locks)));
    increment_object_count(&mut objects);
    assert!(!can_unload_now(live_object_count(&objects), live_object_count(&locks)));
    increment_object_count(&mut locks);
    decrement_object_count(&mut objects);
    assert!(!can_unload_now(live_object_count(&objects), live_object_count(&locks)));
    decrement_object_count(&mut locks);
    assert!(can_unload_now(live_object_count(&objects), live_object_count(&locks)));
}

#[test]
fn factory_objects_and_server_locks_are_counted_separately() {
    let mut objects = ObjectCount::new();
    let mut locks = ObjectCount::new();
    increment_object_count(&mut objects);
    assert_eq!(live_object_count(&objects), 1);
    increment_object_count(&mut locks);
    assert_eq!(live_object_count(&locks), 1);
    assert_eq!(live_object_count(&objects), 1);
    decrement_object_count(&mut locks);
    assert_eq!(live_object_count(&locks), 0);
    decrement_object_count(&mut objects);
    assert_eq!(live_object_count(&objects), 0);
}
