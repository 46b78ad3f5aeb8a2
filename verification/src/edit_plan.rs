//! The decisions of the edit sessions that apply the engine's platform
//! actions: which document steps each action takes, in which order, which
//! failures end it and with what reason, and the result reported back.

use crate::model::MessageHeader;
use crate::session::CORE_PROTOCOL_VERSION;
use vstd::prelude::*;
use vstd::string::StringExecFns;

verus! {

/// The platform actions an edit session applies.
#[derive(Clone, Copy, Debug, PartialEq, Eq, Structural)]
pub enum EditActionKind {
    /// Replace the composition (or the selection) by the committed text.
    Commit,
    /// Show the preedit in the composition, starting one if needed.
    SetPreedit,
    /// Erase the preedit and end the composition.
    CancelComposition,
}

/// One document step of an edit session.
#[derive(Clone, Copy, Debug, PartialEq, Eq, Structural)]
pub enum EditStep {
    GetCompositionRange,
    GetSelection,
    CheckFetched,
    CheckSelectionRange,
    CloneRange,
    CastContextComposition,
    StartComposition,
    SetText,
    Collapse,
    SetSelection,
    EndComposition,
}

/// The steps of an action, given whether a composition is active.
pub open spec fn spec_plan(kind: EditActionKind, has_composition: bool) -> Seq<EditStep> {
    match kind {
        EditActionKind::Commit => if has_composition {
            seq![
                EditStep::GetCompositionRange,
                EditStep::SetText,
                EditStep::Collapse,
                EditStep::SetSelection,
                EditStep::EndComposition,
            ]
        } else {
            seq![
                EditStep::GetSelection,
                EditStep::CheckFetched,
                EditStep::CheckSelectionRange,
                EditStep::SetText,
                EditStep::Collapse,
            ]
        },
        EditActionKind::SetPreedit => if has_composition {
            seq![EditStep::GetCompositionRange, EditStep::SetText, EditStep::Collapse]
        } else {
            seq![
                EditStep::GetSelection,
                EditStep::CheckFetched,
                EditStep::CheckSelectionRange,
                EditStep::CloneRange,
                EditStep::CastContextComposition,
                EditStep::StartComposition,
                EditStep::SetText,
                EditStep::Collapse,
            ]
        },
        EditActionKind::CancelComposition => if has_composition {
            seq![EditStep::GetCompositionRange, EditStep::SetText, EditStep::EndComposition]
        } else {
            Seq::empty()
        },
    }
}

/// Why an action fails when `step` fails with the error text `detail`;
/// `None` when that failure is ignored.
pub open spec fn spec_reason(kind: EditActionKind, step: EditStep, detail: Seq<char>) -> Option<Seq<char>> {
    match step {
        EditStep::GetCompositionRange => Some("GetRange: "@ + detail),
        EditStep::GetSelection => Some("GetSelection failed"@),
        EditStep::CheckFetched => Some("GetSelection fetched 0"@),
        EditStep::CheckSelectionRange => Some("GetSelection returned None range"@),
        EditStep::CloneRange => Some("Clone: "@ + detail),
        EditStep::CastContextComposition => Some("cast to ITfContextComposition failed"@),
        EditStep::StartComposition => Some("StartComposition: "@ + detail),
        EditStep::SetText => match kind {
            EditActionKind::Commit => Some("SetText: "@ + detail),
            EditActionKind::SetPreedit => Some("SetText failed"@),
            EditActionKind::CancelComposition => Some("SetText (cancel) failed"@),
        },
        EditStep::Collapse => match kind {
            EditActionKind::SetPreedit => None,
            _ => Some("Collapse: "@ + detail),
        },
        EditStep::SetSelection => Some("SetSelection: "@ + detail),
        EditStep::EndComposition => Some("EndComposition: "@ + detail),
    }
}

fn prefixed(prefix: &str, detail: &str) -> (s: String)
    ensures
        s@ == prefix@ + detail@,
{
    let mut s = String::from_str(prefix);
    s.append(detail);
    s
}

/// Why an action fails when `step` fails with the error text `detail`.
pub fn reason(kind: EditActionKind, step: EditStep, detail: &str) -> (r: Option<String>)
    ensures
        match r {
            Some(s) => spec_reason(kind, step, detail@) == Some(s@),
            None => spec_reason(kind, step, detail@) is None,
        },
{
    match step {
        EditStep::GetCompositionRange => Some(prefixed("GetRange: ", detail)),
        EditStep::GetSelection => Some(String::from_str("GetSelection failed")),
        EditStep::CheckFetched => Some(String::from_str("GetSelection fetched 0")),
        EditStep::CheckSelectionRange => Some(String::from_str("GetSelection returned None range")),
        EditStep::CloneRange => Some(prefixed("Clone: ", detail)),
        EditStep::CastContextComposition => Some(String::from_str("cast to ITfContextComposition failed")),
        EditStep::StartComposition => Some(prefixed("StartComposition: ", detail)),
        EditStep::SetText => match kind {
            EditActionKind::Commit => Some(prefixed("SetText: ", detail)),
            EditActionKind::SetPreedit => Some(String::from_str("SetText failed")),
            EditActionKind::CancelComposition => Some(String::from_str("SetText (cancel) failed")),
        },
        EditStep::Collapse => match kind {
            EditActionKind::SetPreedit => None,
            _ => Some(prefixed("Collapse: ", detail)),
        },
        EditStep::SetSelection => Some(prefixed("SetSelection: ", detail)),
        EditStep::EndComposition => Some(prefixed("EndComposition: ", detail)),
    }
}

/// The reason reported when the composition lock is poisoned.
pub fn poisoned_lock_reason() -> (s: String)
    ensures
        s@ == "composition mutex poisoned"@,
{
    String::from_str("composition mutex poisoned")
}

/// The reason reported when the document refuses the edit session itself.
pub fn refused_session_reason(detail: &str) -> (s: String)
    ensures
        s@ == "RequestEditSession: "@ + detail@,
{
    prefixed("RequestEditSession: ", detail)
}

/// One edit session in progress: its steps, how many succeeded (or failed
/// harmlessly), and the failure that ended it, if any.
pub struct EditRun {
    kind: EditActionKind,
    plan: Vec<EditStep>,
    done: usize,
    failure: Option<String>,
    outcomes: Ghost<Seq<Result<(), Seq<char>>>>,
}

pub struct EditRunView {
    pub kind: EditActionKind,
    pub plan: Seq<EditStep>,
    pub done: int,
    pub failure: Option<Seq<char>>,
    /// How the steps performed so far went.
    pub outcomes: Seq<Result<(), Seq<char>>>,
}

/// An outcome as plain values.
pub open spec fn outcome_view(o: Result<(), String>) -> Result<(), Seq<char>> {
    match o {
        Ok(()) => Ok(()),
        Err(d) => Err(d@),
    }
}

impl View for EditRun {
    type V = EditRunView;

    closed spec fn view(&self) -> EditRunView {
        EditRunView {
            kind: self.kind,
            plan: self.plan@,
            done: self.done as int,
            failure: match self.failure {
                Some(s) => Some(s@),
                None => None,
            },
            outcomes: self.outcomes@,
        }
    }
}

/// The step to perform next: none once a failure ended the run or all
/// steps are done.
pub open spec fn spec_next(v: EditRunView) -> Option<EditStep> {
    if v.failure is None && 0 <= v.done < v.plan.len() {
        Some(v.plan[v.done])
    } else {
        None
    }
}

impl EditRun {
    pub closed spec fn wf(&self) -> bool {
        &&& self.done <= self.plan@.len()
        &&& self.failure is None ==> self.outcomes@.len() == self.done && run_result(
            self.kind,
            self.plan@,
            self.outcomes@,
            0,
        ) is Ok
        &&& self.failure matches Some(f) ==> self.outcomes@.len() == self.done + 1 && self.done
            < self.plan@.len() && run_result(self.kind, self.plan@, self.outcomes@, 0) == Err::<
            (),
            Seq<char>,
        >(f@)
    }

    /// The edit session for an action, given whether a composition is active.
    pub fn new(kind: EditActionKind, has_composition: bool) -> (r: Self)
        ensures
            r.wf(),
            r@ == (EditRunView {
                kind,
                plan: spec_plan(kind, has_composition),
                done: 0,
                failure: None,
                outcomes: Seq::empty(),
            }),
    {
        let plan = match kind {
            EditActionKind::Commit => if has_composition {
                vec![
                    EditStep::GetCompositionRange,
                    EditStep::SetText,
                    EditStep::Collapse,
                    EditStep::SetSelection,
                    EditStep::EndComposition,
                ]
            } else {
                vec![
                    EditStep::GetSelection,
                    EditStep::CheckFetched,
                    EditStep::CheckSelectionRange,
                    EditStep::SetText,
                    EditStep::Collapse,
                ]
            },
            EditActionKind::SetPreedit => if has_composition {
                vec![EditStep::GetCompositionRange, EditStep::SetText, EditStep::Collapse]
            } else {
                vec![
                    EditStep::GetSelection,
                    EditStep::CheckFetched,
                    EditStep::CheckSelectionRange,
                    EditStep::CloneRange,
                    EditStep::CastContextComposition,
                    EditStep::StartComposition,
                    EditStep::SetText,
                    EditStep::Collapse,
                ]
            },
            EditActionKind::CancelComposition => if has_composition {
                vec![EditStep::GetCompositionRange, EditStep::SetText, EditStep::EndComposition]
            } else {
                Vec::new()
            },
        };
        let r = EditRun { kind, plan, done: 0, failure: None, outcomes: Ghost(Seq::empty()) };
        assert(r@.plan == spec_plan(kind, has_composition));
        r
    }

    /// The step to perform next.
    pub fn next(&self) -> (s: Option<EditStep>)
        requires
            self.wf(),
        ensures
            s == spec_next(self@),
    {
        if self.failure.is_none() && self.done < self.plan.len() {
            Some(self.plan[self.done])
        } else {
            None
        }
    }

    /// Record how the current step went: `Err` carries the error text.
    pub fn record(&mut self, outcome: Result<(), String>)
        requires
            old(self).wf(),
            spec_next(old(self)@) is Some,
        ensures
            final(self).wf(),
            final(self)@.kind == old(self)@.kind,
            final(self)@.plan == old(self)@.plan,
            final(self)@.outcomes == old(self)@.outcomes.push(outcome_view(outcome)),
            match outcome {
                Ok(()) => final(self)@.done == old(self)@.done + 1 && final(self)@.failure is None,
                Err(detail) => match spec_reason(old(self)@.kind, spec_next(old(self)@)->0, detail@) {
                    Some(r) => final(self)@.done == old(self)@.done && final(self)@.failure == Some(r),
                    None => final(self)@.done == old(self)@.done + 1 && final(self)@.failure is None,
                },
            },
    {
        let planned = self.plan.len();
        assert(self.done < planned);
        let step = self.plan[self.done];
        proof {
            lemma_run_result_push(self.kind, self.plan@, self.outcomes@, outcome_view(outcome), 0);
            self.outcomes@ = self.outcomes@.push(outcome_view(outcome));
        }
        match outcome {
            Ok(()) => {
                self.done = self.done + 1;
            },
            Err(detail) => match reason(self.kind, step, detail.as_str()) {
                Some(r) => {
                    self.failure = Some(r);
                },
                None => {
                    self.done = self.done + 1;
                },
            },
        }
    }

    /// The result of a finished run: the failure that ended it, or success.
    pub fn result(&self) -> (r: Result<(), String>)
        requires
            self.wf(),
            spec_next(self@) is None,
        ensures
            match self@.failure {
                Some(f) => r matches Err(e) && e@ == f,
                None => r is Ok && self@.done == self@.plan.len(),
            },
            outcome_view(r) == run_result(self@.kind, self@.plan, self@.outcomes, 0),
    {
        match &self.failure {
            Some(f) => Err(f.clone()),
            None => {
                let ghost rr = run_result(self@.kind, self@.plan, self@.outcomes, 0);
                assert(rr->Ok_0 == ());
                Ok(())
            },
        }
    }
}

/// What the engine is told of an applied or refused action.
#[derive(Clone, Debug, PartialEq, Eq)]
pub enum ActionOutcome {
    Applied,
    Rejected { reason: String },
}

/// The report of a platform action's result: its id and outcome, under a
/// header carrying the action's epoch and revision.
#[derive(Clone, Debug, PartialEq, Eq)]
pub struct ActionReport {
    pub header: MessageHeader,
    pub action_id: u64,
    pub outcome: ActionOutcome,
}

pub fn action_report(action_id: u64, epoch: u64, revision: u64, result: Result<(), String>) -> (r: ActionReport)
    ensures
        r.action_id == action_id,
        r.header == (MessageHeader {
            protocol_version: CORE_PROTOCOL_VERSION,
            client: 1,
            session: 1,
            epoch,
            sequence: 0,
            revision,
            deployment: 1,
        }),
        match result {
            Ok(()) => r.outcome == ActionOutcome::Applied,
            Err(reason) => r.outcome == (ActionOutcome::Rejected { reason }),
        },
{
    let outcome = match result {
        Ok(()) => ActionOutcome::Applied,
        Err(reason) => ActionOutcome::Rejected { reason },
    };
    ActionReport {
        header: MessageHeader {
            protocol_version: CORE_PROTOCOL_VERSION,
            client: 1,
            session: 1,
            epoch,
            sequence: 0,
            revision,
            deployment: 1,
        },
        action_id,
        outcome,
    }
}

/// Every plan that writes text collapses the written range right after
/// writing it when it goes on to set the selection, so the caret lands
/// after the text: in particular commits and preedits collapse directly
/// after `SetText`. Each plan writes its text once; a commit or preedit
/// works on the composition's range when one is active and on the
/// selection otherwise; a commit into an active composition sets the
/// selection before ending the composition, last.
pub proof fn lemma_plans_collapse_after_writing(kind: EditActionKind, has_composition: bool)
    ensures
        ({
            let p = spec_plan(kind, has_composition);
            &&& forall|i: int, j: int|
                0 <= i < j < p.len() && #[trigger] p[i] == EditStep::SetText && #[trigger] p[j]
                    == EditStep::SetSelection ==> i + 1 < p.len() && p[i + 1] == EditStep::Collapse
            &&& kind != EditActionKind::CancelComposition ==> exists|i: int|
                0 <= i < p.len() - 1 && #[trigger] p[i] == EditStep::SetText && p[i + 1]
                    == EditStep::Collapse
            &&& forall|i: int, j: int|
                0 <= i < p.len() && 0 <= j < p.len() && #[trigger] p[i] == EditStep::SetText
                    && #[trigger] p[j] == EditStep::SetText ==> i == j
            &&& kind != EditActionKind::CancelComposition ==> p[0] == (if has_composition {
                EditStep::GetCompositionRange
            } else {
                EditStep::GetSelection
            })
            &&& kind == EditActionKind::Commit && has_composition ==> p.len() >= 2 && p[p.len() - 2]
                == EditStep::SetSelection && p[p.len() - 1] == EditStep::EndComposition
            &&& kind == EditActionKind::CancelComposition && !has_composition ==> p.len() == 0
        }),
{
    let p = spec_plan(kind, has_composition);
    if kind != EditActionKind::CancelComposition {
        let k = if kind == EditActionKind::Commit {
            if has_composition {
                1int
            } else {
                3int
            }
        } else {
            if has_composition {
                1int
            } else {
                6int
            }
        };
        assert(p[k] == EditStep::SetText && p[k + 1] == EditStep::Collapse);
    }
}

/// Every preedit that starts a composition does so before writing its
/// text, and every commit or cancel of an active composition ends it last.
pub proof fn lemma_plans_order_composition_steps(kind: EditActionKind, has_composition: bool)
    ensures
        kind == EditActionKind::SetPreedit && !has_composition ==> spec_plan(kind, has_composition)[5]
            == EditStep::StartComposition && spec_plan(kind, has_composition)[6] == EditStep::SetText,
        kind != EditActionKind::SetPreedit && has_composition ==> spec_plan(kind, has_composition).last()
            == EditStep::EndComposition,
{
}

/// The result of a run whose steps, from the `i`-th on, went as `outcomes`
/// says (`Err` with the error text): the first failure that is not ignored
/// ends the run with its reason; otherwise the run succeeds.
pub open spec fn run_result(
    kind: EditActionKind,
    plan: Seq<EditStep>,
    outcomes: Seq<Result<(), Seq<char>>>,
    i: int,
) -> Result<(), Seq<char>>
    decreases plan.len() - i,
{
    if i < 0 || i >= plan.len() || i >= outcomes.len() {
        Ok(())
    } else {
        match outcomes[i] {
            Ok(()) => run_result(kind, plan, outcomes, i + 1),
            Err(d) => match spec_reason(kind, plan[i], d) {
                Some(r) => Err(r),
                None => run_result(kind, plan, outcomes, i + 1),
            },
        }
    }
}

proof fn lemma_run_result_push(
    kind: EditActionKind,
    plan: Seq<EditStep>,
    os: Seq<Result<(), Seq<char>>>,
    o: Result<(), Seq<char>>,
    i: int,
)
    requires
        0 <= i <= os.len() < plan.len(),
        run_result(kind, plan, os, i) is Ok,
    ensures
        run_result(kind, plan, os.push(o), i) == match o {
            Ok(()) => Ok(()),
            Err(d) => match spec_reason(kind, plan[os.len() as int], d) {
                Some(r) => Err(r),
                None => Ok::<(), Seq<char>>(()),
            },
        },
    decreases os.len() - i,
{
    let os2 = os.push(o);
    if i < os.len() {
        assert(os2[i] == os[i]);
        lemma_run_result_push(kind, plan, os, o, i + 1);
    } else {
        assert(os2[i] == o);
        assert(run_result(kind, plan, os2, i + 1) is Ok);
    }
}

proof fn lemma_preedit_run_from(plan: Seq<EditStep>, outcomes: Seq<Result<(), Seq<char>>>, i: int)
    requires
        plan.len() >= 2,
        outcomes.len() == plan.len(),
        0 <= i <= plan.len(),
        plan.last() == EditStep::Collapse,
        forall|k: int| 0 <= k < plan.len() - 1 ==> plan[k] != EditStep::Collapse,
    ensures
        run_result(EditActionKind::SetPreedit, plan, outcomes, i) is Ok <==> forall|k: int|
            i <= k < plan.len() - 1 ==> (#[trigger] outcomes[k]) is Ok,
    decreases plan.len() - i,
{
    if i < plan.len() {
        lemma_preedit_run_from(plan, outcomes, i + 1);
    }
}

/// A preedit edit is applied exactly when every step up to and including
/// writing the text succeeds, whether it writes into the active composition
/// or into one it starts; a failure to collapse the selection afterwards is
/// ignored.
pub proof fn lemma_preedit_applied_iff_text_set(
    has_composition: bool,
    outcomes: Seq<Result<(), Seq<char>>>,
)
    requires
        outcomes.len() == spec_plan(EditActionKind::SetPreedit, has_composition).len(),
    ensures
        ({
            let plan = spec_plan(EditActionKind::SetPreedit, has_composition);
            &&& plan[plan.len() - 2] == EditStep::SetText
            &&& run_result(EditActionKind::SetPreedit, plan, outcomes, 0) is Ok <==> forall|k: int|
                0 <= k <= plan.len() - 2 ==> (#[trigger] outcomes[k]) is Ok
        }),
{
    let plan = spec_plan(EditActionKind::SetPreedit, has_composition);
    lemma_preedit_run_from(plan, outcomes, 0);
}

} // verus!
