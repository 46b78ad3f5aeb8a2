use cheime_tip::edit_plan::{
    action_report, poisoned_lock_reason, reason, refused_session_reason, ActionOutcome,
    EditActionKind, EditRun, EditStep,
};
use cheime_tip::session::CORE_PROTOCOL_VERSION;

/// Runs an edit session whose step `fail_at` (if any) fails with `detail`.
fn run(kind: EditActionKind, has_composition: bool, fail_at: Option<usize>) -> (Vec<EditStep>, Result<(), String>) {
    let mut run = EditRun::new(kind, has_composition);
    let mut steps = Vec::new();
    while let Some(step) = run.next() {
        let outcome = if Some(steps.len()) == fail_at { Err("E_FAIL".to_string()) } else { Ok(()) };
        steps.push(step);
        run.record(outcome);
    }
    (steps, run.result())
}

#[test]
fn preedit_without_composition_starts_one_before_writing() {
    let (steps, result) = run(EditActionKind::SetPreedit, false, None);
    assert_eq!(result, Ok(()));
    assert_eq!(
        steps,
        vec![
            EditStep::GetSelection,
            EditStep::CheckFetched,
            EditStep::CheckSelectionRange,
            EditStep::CloneRange,
            EditStep::CastContextComposition,
            EditStep::StartComposition,
            EditStep::SetText,
            EditStep::Collapse,
        ]
    );
}

#[test]
fn the_first_failure_ends_the_session_with_its_reason() {
    let (steps, result) = run(EditActionKind::Commit, true, Some(1));
    assert_eq!(steps, vec![EditStep::GetCompositionRange, EditStep::SetText]);
    assert_eq!(result, Err("SetText: E_FAIL".to_string()));
    let (_, result) = run(EditActionKind::SetPreedit, true, Some(1));
    assert_eq!(result, Err("SetText failed".to_string()));
    let (_, result) = run(EditActionKind::CancelComposition, true, Some(1));
    assert_eq!(result, Err("SetText (cancel) failed".to_string()));
    let (_, result) = run(EditActionKind::Commit, false, Some(1));
    assert_eq!(result, Err("GetSelection fetched 0".to_string()));
}

#[test]
fn a_failed_collapse_of_the_preedit_is_ignored() {
    let (steps, result) = run(EditActionKind::SetPreedit, true, Some(2));
    assert_eq!(steps.len(), 3);
    assert_eq!(result, Ok(()));
    assert_eq!(reason(EditActionKind::SetPreedit, EditStep::Collapse, "x"), None);
    assert_eq!(
        reason(EditActionKind::Commit, EditStep::Collapse, "x"),
        Some("Collapse: x".to_string())
    );
}

#[test]
fn cancelling_without_composition_does_nothing() {
    let (steps, result) = run(EditActionKind::CancelComposition, false, None);
    assert!(steps.is_empty());
    assert_eq!(result, Ok(()));
    let (steps, _) = run(EditActionKind::CancelComposition, true, None);
    assert_eq!(steps.last(), Some(&EditStep::EndComposition));
}

#[test]
fn reports_carry_the_action_and_its_outcome() {
    let report = action_report(5, 6, 7, Ok(()));
    assert_eq!(report.action_id, 5);
    assert_eq!(report.header.epoch, 6);
    assert_eq!(report.header.revision, 7);
    assert_eq!(report.header.protocol_version, CORE_PROTOCOL_VERSION);
    assert_eq!(report.header.client, 1);
    assert_eq!(report.outcome, ActionOutcome::Applied);
    let report = action_report(5, 6, 7, Err(poisoned_lock_reason()));
    assert_eq!(
        report.outcome,
        ActionOutcome::Rejected { reason: "composition mutex poisoned".into() }
    );
    assert_eq!(refused_session_reason("0x80004005"), "RequestEditSession: 0x80004005");
}
