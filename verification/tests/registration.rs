use cheime_tip::registration::{
    registration_plan, unregistration_plan, RegistrationDriver, RegistrationOp, RegistryDelete,
    RegistryHive, RegistryWrite, CATEGORY_TEXT, PROFILE_ENABLED, PROFILE_LANGUAGE_ID,
    PROFILE_TEXT,
};

/// Runs a driver, failing the operation at position `fail_at` (if any) and
/// returning the operations performed and the result.
fn run(
    mut driver: RegistrationDriver<&'static str>,
    fail_at: Option<usize>,
) -> (Vec<RegistrationOp>, Result<(), &'static str>) {
    let mut operations = Vec::new();
    while let Some(op) = driver.pending() {
        let result = if Some(operations.len()) == fail_at {
            Err("E_FAIL")
        } else {
            Ok(())
        };
        operations.push(op);
        driver.record(result);
    }
    (operations, driver.outcome().expect("finished"))
}

#[test]
fn registration_plan_uses_exact_hives_paths_and_values() {
    let plan = registration_plan(r"C:\Program Files\CheIME\cheime-tip.dll");
    assert_eq!(plan.registry_writes.len(), 4);
    assert_eq!(
        plan.registry_writes[0],
        RegistryWrite::string(
            RegistryHive::ClassesRoot,
            r"CLSID\{B5F1C9A8-3E7D-4A15-AE2D-F89C1B6E3A07}\InprocServer32",
            None,
            r"C:\Program Files\CheIME\cheime-tip.dll",
        )
    );
    assert_eq!(
        plan.registry_writes[1],
        RegistryWrite::string(
            RegistryHive::ClassesRoot,
            r"CLSID\{B5F1C9A8-3E7D-4A15-AE2D-F89C1B6E3A07}\InprocServer32",
            Some("ThreadingModel"),
            "Apartment",
        )
    );
    assert_eq!(
        plan.registry_writes[2],
        RegistryWrite::key(
            RegistryHive::ClassesRoot,
            r"CLSID\{B5F1C9A8-3E7D-4A15-AE2D-F89C1B6E3A07}\Implemented Categories\{34745C63-B2F0-4784-8B67-5E12C8701A31}",
        )
    );
    assert_eq!(
        plan.registry_writes[3],
        RegistryWrite::string(
            RegistryHive::LocalMachine,
            r"SOFTWARE\Microsoft\CTF\TIP\{B5F1C9A8-3E7D-4A15-AE2D-F89C1B6E3A07}\LanguageProfile\0x00000804\{D7E2A3B4-C5F6-7890-ABCD-EF1234567890}",
            Some("Description"),
            "CheIME TIP",
        )
    );
    assert!(plan
        .registry_writes
        .iter()
        .all(|write| write.hive != RegistryHive::ClassesRoot
            || !write.path.starts_with("SOFTWARE\\Microsoft\\CTF")));
}

#[test]
fn unregistration_plan_removes_only_clsid_and_machine_tip_tree() {
    assert_eq!(
        unregistration_plan().registry_deletes,
        vec![
            RegistryDelete {
                hive: RegistryHive::ClassesRoot,
                path: r"CLSID\{B5F1C9A8-3E7D-4A15-AE2D-F89C1B6E3A07}".into(),
            },
            RegistryDelete {
                hive: RegistryHive::LocalMachine,
                path: r"SOFTWARE\Microsoft\CTF\TIP\{B5F1C9A8-3E7D-4A15-AE2D-F89C1B6E3A07}".into(),
            },
        ]
    );
}

#[test]
fn profile_constants_describe_enabled_zh_cn_tip_profile() {
    assert_eq!(PROFILE_TEXT, "{D7E2A3B4-C5F6-7890-ABCD-EF1234567890}");
    assert_eq!(CATEGORY_TEXT, "{34745C63-B2F0-4784-8B67-5E12C8701A31}");
    assert_eq!(PROFILE_LANGUAGE_ID, 0x0804);
    assert!(PROFILE_ENABLED);
}

#[test]
fn registration_rolls_back_all_registration_surfaces_after_failure() {
    let (operations, result) = run(RegistrationDriver::register(), Some(4));
    assert_eq!(result, Err("E_FAIL"));
    assert_eq!(operations.len(), 8);
    assert_eq!(operations[4], RegistrationOp::RegisterProfile);
    assert_eq!(operations[5], RegistrationOp::UnregisterProfile);
    assert!(matches!(operations[6], RegistrationOp::DeleteTree(_)));
    assert!(matches!(operations[7], RegistrationOp::DeleteTree(_)));
}

#[test]
fn unregister_continues_cleanup_and_preserves_first_error() {
    let (operations, result) = run(RegistrationDriver::unregister(), Some(0));
    assert_eq!(result, Err("E_FAIL"));
    assert_eq!(operations.len(), 3);
    assert_eq!(operations[0], RegistrationOp::UnregisterProfile);
    assert!(matches!(operations[1], RegistrationOp::DeleteTree(_)));
    assert!(matches!(operations[2], RegistrationOp::DeleteTree(_)));
}

#[test]
fn unregister_is_successful_when_all_idempotent_cleanup_succeeds() {
    let (operations, result) = run(RegistrationDriver::unregister(), None);
    assert_eq!(result, Ok(()));
    assert_eq!(operations.len(), 3);
}

#[test]
fn successful_registration_applies_every_write_then_the_profile() {
    let (operations, result) = run(RegistrationDriver::register(), None);
    assert_eq!(result, Ok(()));
    assert_eq!(
        operations,
        vec![
            RegistrationOp::ApplyWrite(0),
            RegistrationOp::ApplyWrite(1),
            RegistrationOp::ApplyWrite(2),
            RegistrationOp::ApplyWrite(3),
            RegistrationOp::RegisterProfile,
        ]
    );
}

#[test]
fn failed_first_write_still_cleans_up_everything() {
    let (operations, result) = run(RegistrationDriver::register(), Some(0));
    assert_eq!(result, Err("E_FAIL"));
    assert_eq!(
        operations,
        vec![
            RegistrationOp::ApplyWrite(0),
            RegistrationOp::UnregisterProfile,
            RegistrationOp::DeleteTree(0),
            RegistrationOp::DeleteTree(1),
        ]
    );
}
