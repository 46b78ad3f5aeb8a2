//! Registration of the TIP: the registry writes and deletes it consists of,
//! and the order of operations, including the rollback after a failed
//! registration and the best-effort cleanup of unregistration. The registry
//! and profile calls themselves are made by the caller, which reports each
//! result back.

use crate::exports::{CHEIME_TIP_CLSID_STR, CHEIME_TIP_NAME};
use vstd::prelude::*;
use vstd::string::StringExecFns;

verus! {

pub const PROFILE_TEXT: &'static str = "{D7E2A3B4-C5F6-7890-ABCD-EF1234567890}";

pub const CATEGORY_TEXT: &'static str = "{34745C63-B2F0-4784-8B67-5E12C8701A31}";

pub const PROFILE_LANGUAGE_ID: u16 = 0x0804;

pub const PROFILE_ENABLED: bool = true;

#[derive(Clone, Copy, Debug, PartialEq, Eq, Structural)]
pub enum RegistryHive {
    ClassesRoot,
    LocalMachine,
}

/// Create `path` under `hive` and, when `value` is present, set the named
/// (or default) string value.
#[derive(Clone, Debug, PartialEq, Eq)]
pub struct RegistryWrite {
    pub hive: RegistryHive,
    pub path: String,
    pub value_name: Option<String>,
    pub value: Option<String>,
}

impl RegistryWrite {
    pub fn string(hive: RegistryHive, path: &str, value_name: Option<&str>, value: &str) -> (w: Self)
        ensures
            w.hive == hive,
            w.path@ == path@,
            w.value_name is Some <==> value_name is Some,
            value_name is Some ==> w.value_name->0@ == value_name->0@,
            w.value is Some,
            w.value->0@ == value@,
    {
        RegistryWrite {
            hive,
            path: String::from_str(path),
            value_name: match value_name {
                Some(name) => Some(String::from_str(name)),
                None => None,
            },
            value: Some(String::from_str(value)),
        }
    }

    pub fn key(hive: RegistryHive, path: &str) -> (w: Self)
        ensures
            w.hive == hive,
            w.path@ == path@,
            w.value_name is None,
            w.value is None,
    {
        RegistryWrite { hive, path: String::from_str(path), value_name: None, value: None }
    }
}

/// Delete the tree at `path` under `hive`.
#[derive(Clone, Debug, PartialEq, Eq)]
pub struct RegistryDelete {
    pub hive: RegistryHive,
    pub path: String,
}

pub struct RegistrationPlan {
    pub registry_writes: Vec<RegistryWrite>,
}

pub struct UnregistrationPlan {
    pub registry_deletes: Vec<RegistryDelete>,
}

pub open spec fn clsid_path() -> Seq<char> {
    "CLSID\\"@ + CHEIME_TIP_CLSID_STR@
}

pub open spec fn inproc_path() -> Seq<char> {
    clsid_path() + "\\InprocServer32"@
}

pub open spec fn category_path() -> Seq<char> {
    clsid_path() + "\\Implemented Categories\\"@ + CATEGORY_TEXT@
}

pub open spec fn machine_tip_path() -> Seq<char> {
    "SOFTWARE\\Microsoft\\CTF\\TIP\\"@ + CHEIME_TIP_CLSID_STR@
}

pub open spec fn profile_metadata_path() -> Seq<char> {
    machine_tip_path() + "\\LanguageProfile\\0x00000804\\"@ + PROFILE_TEXT@
}

/// Whether `w` writes `value` to the named (or default) value of `path`.
pub open spec fn writes(
    w: RegistryWrite,
    hive: RegistryHive,
    path: Seq<char>,
    name: Option<Seq<char>>,
    value: Option<Seq<char>>,
) -> bool {
    &&& w.hive == hive
    &&& w.path@ == path
    &&& match name {
        Some(n) => w.value_name is Some && w.value_name->0@ == n,
        None => w.value_name is None,
    }
    &&& match value {
        Some(v) => w.value is Some && w.value->0@ == v,
        None => w.value is None,
    }
}

/// The registry writes of a registration for the DLL at `dll_path`: the
/// in-process server path and threading model, the keyboard TIP category,
/// and the profile description.
pub fn registration_plan(dll_path: &str) -> (plan: RegistrationPlan)
    ensures
        plan.registry_writes@.len() == 4,
        writes(plan.registry_writes@[0], RegistryHive::ClassesRoot, inproc_path(), None, Some(dll_path@)),
        writes(
            plan.registry_writes@[1],
            RegistryHive::ClassesRoot,
            inproc_path(),
            Some("ThreadingModel"@),
            Some("Apartment"@),
        ),
        writes(plan.registry_writes@[2], RegistryHive::ClassesRoot, category_path(), None, None),
        writes(
            plan.registry_writes@[3],
            RegistryHive::LocalMachine,
            profile_metadata_path(),
            Some("Description"@),
            Some(CHEIME_TIP_NAME@),
        ),
{
    let mut clsid = String::from_str("CLSID\\");
    clsid.append(CHEIME_TIP_CLSID_STR);
    let mut inproc = clsid.clone();
    inproc.append("\\InprocServer32");
    let mut category = clsid.clone();
    category.append("\\Implemented Categories\\");
    category.append(CATEGORY_TEXT);
    let mut metadata = String::from_str("SOFTWARE\\Microsoft\\CTF\\TIP\\");
    metadata.append(CHEIME_TIP_CLSID_STR);
    metadata.append("\\LanguageProfile\\0x00000804\\");
    metadata.append(PROFILE_TEXT);
    let mut registry_writes: Vec<RegistryWrite> = Vec::new();
    registry_writes.push(
        RegistryWrite::string(RegistryHive::ClassesRoot, inproc.as_str(), None, dll_path),
    );
    registry_writes.push(
        RegistryWrite::string(
            RegistryHive::ClassesRoot,
            inproc.as_str(),
            Some("ThreadingModel"),
            "Apartment",
        ),
    );
    registry_writes.push(RegistryWrite::key(RegistryHive::ClassesRoot, category.as_str()));
    registry_writes.push(
        RegistryWrite::string(
            RegistryHive::LocalMachine,
            metadata.as_str(),
            Some("Description"),
            CHEIME_TIP_NAME,
        ),
    );
    RegistrationPlan { registry_writes }
}

/// The registry deletes of an unregistration: the class tree and the
/// machine TIP tree, nothing else.
pub fn unregistration_plan() -> (plan: UnregistrationPlan)
    ensures
        plan.registry_deletes@.len() == 2,
        plan.registry_deletes@[0].hive == RegistryHive::ClassesRoot,
        plan.registry_deletes@[0].path@ == clsid_path(),
        plan.registry_deletes@[1].hive == RegistryHive::LocalMachine,
        plan.registry_deletes@[1].path@ == machine_tip_path(),
{
    let mut clsid = String::from_str("CLSID\\");
    clsid.append(CHEIME_TIP_CLSID_STR);
    let mut tip = String::from_str("SOFTWARE\\Microsoft\\CTF\\TIP\\");
    tip.append(CHEIME_TIP_CLSID_STR);
    let mut registry_deletes: Vec<RegistryDelete> = Vec::new();
    registry_deletes.push(RegistryDelete { hive: RegistryHive::ClassesRoot, path: clsid });
    registry_deletes.push(RegistryDelete { hive: RegistryHive::LocalMachine, path: tip });
    UnregistrationPlan { registry_deletes }
}

} // verus!

verus! {

/// Number of registry writes of a registration.
pub const WRITE_COUNT: usize = 4;

/// Number of registry deletes of an unregistration.
pub const DELETE_COUNT: usize = 2;

/// One operation that the caller performs on behalf of the driver.
#[derive(Clone, Copy, Debug, PartialEq, Eq, Structural)]
pub enum RegistrationOp {
    /// Apply `registration_plan(..).registry_writes[i]`.
    ApplyWrite(usize),
    /// Register and enable the language profile.
    RegisterProfile,
    /// Unregister the language profile.
    UnregisterProfile,
    /// Apply `unregistration_plan().registry_deletes[i]`.
    DeleteTree(usize),
}

/// Where a registration or unregistration stands.
#[derive(Debug, PartialEq, Eq)]
pub enum RegistrationPhase<E> {
    /// Registering; `next` counts the operations done (writes, then profile).
    Registering { next: usize },
    /// Undoing a failed registration; the failure is reported at the end,
    /// whatever the cleanup gives.
    RollingBack { next: usize, error: E },
    /// Unregistering; every cleanup step runs and the first failure is kept.
    Unregistering { next: usize, first_error: Option<E> },
    /// Done, with the result for the caller.
    Finished(Result<(), E>),
}

/// The cleanup operation number `next`: unregister the profile, then delete
/// each tree.
pub open spec fn cleanup_op(next: usize) -> Option<RegistrationOp> {
    if next == 0 {
        Some(RegistrationOp::UnregisterProfile)
    } else if next <= DELETE_COUNT {
        Some(RegistrationOp::DeleteTree((next - 1) as usize))
    } else {
        None
    }
}

/// The operation a phase asks for next, if any.
pub open spec fn pending_op<E>(phase: RegistrationPhase<E>) -> Option<RegistrationOp> {
    match phase {
        RegistrationPhase::Registering { next } => if next < WRITE_COUNT {
            Some(RegistrationOp::ApplyWrite(next))
        } else if next == WRITE_COUNT {
            Some(RegistrationOp::RegisterProfile)
        } else {
            None
        },
        RegistrationPhase::RollingBack { next, .. } => cleanup_op(next),
        RegistrationPhase::Unregistering { next, .. } => cleanup_op(next),
        RegistrationPhase::Finished(_) => None,
    }
}

/// The phase after the pending operation of `phase` gave `result`.
pub open spec fn phase_after<E>(phase: RegistrationPhase<E>, result: Result<(), E>) -> RegistrationPhase<E> {
    match phase {
        RegistrationPhase::Registering { next } => match result {
            Err(e) => RegistrationPhase::RollingBack { next: 0, error: e },
            Ok(()) => if next >= WRITE_COUNT {
                RegistrationPhase::Finished(Ok(()))
            } else {
                RegistrationPhase::Registering { next: (next + 1) as usize }
            },
        },
        RegistrationPhase::RollingBack { next, error } => if next >= DELETE_COUNT {
            RegistrationPhase::Finished(Err(error))
        } else {
            RegistrationPhase::RollingBack { next: (next + 1) as usize, error }
        },
        RegistrationPhase::Unregistering { next, first_error } => {
            let kept = match first_error {
                Some(e) => Some(e),
                None => match result {
                    Err(e) => Some(e),
                    Ok(()) => None,
                },
            };
            if next >= DELETE_COUNT {
                RegistrationPhase::Finished(
                    match kept {
                        Some(e) => Err(e),
                        None => Ok(()),
                    },
                )
            } else {
                RegistrationPhase::Unregistering { next: (next + 1) as usize, first_error: kept }
            }
        },
        RegistrationPhase::Finished(r) => RegistrationPhase::Finished(r),
    }
}

/// Drives a registration or unregistration one operation at a time.
pub struct RegistrationDriver<E> {
    phase: RegistrationPhase<E>,
}

impl<E> View for RegistrationDriver<E> {
    type V = RegistrationPhase<E>;

    closed spec fn view(&self) -> RegistrationPhase<E> {
        self.phase
    }
}

impl<E> RegistrationDriver<E> {
    pub fn register() -> (d: Self)
        ensures
            d@ == (RegistrationPhase::<E>::Registering { next: 0 }),
    {
        RegistrationDriver { phase: RegistrationPhase::Registering { next: 0 } }
    }

    pub fn unregister() -> (d: Self)
        ensures
            d@ == (RegistrationPhase::<E>::Unregistering { next: 0, first_error: None }),
    {
        RegistrationDriver { phase: RegistrationPhase::Unregistering { next: 0, first_error: None } }
    }

    /// The operation to perform next; `None` once finished.
    pub fn pending(&self) -> (op: Option<RegistrationOp>)
        ensures
            op == pending_op(self@),
    {
        match &self.phase {
            RegistrationPhase::Registering { next } => if *next < WRITE_COUNT {
                Some(RegistrationOp::ApplyWrite(*next))
            } else if *next == WRITE_COUNT {
                Some(RegistrationOp::RegisterProfile)
            } else {
                None
            },
            RegistrationPhase::RollingBack { next, .. } => cleanup(*next),
            RegistrationPhase::Unregistering { next, .. } => cleanup(*next),
            RegistrationPhase::Finished(_) => None,
        }
    }

    /// Record the result of the pending operation.
    pub fn record(&mut self, result: Result<(), E>)
        ensures
            final(self)@ == phase_after(old(self)@, result),
    {
        let mut phase = RegistrationPhase::Finished(Ok(()));
        std::mem::swap(&mut phase, &mut self.phase);
        self.phase = match phase {
            RegistrationPhase::Registering { next } => match result {
                Err(e) => RegistrationPhase::RollingBack { next: 0, error: e },
                Ok(()) => if next >= WRITE_COUNT {
                    RegistrationPhase::Finished(Ok(()))
                } else {
                    RegistrationPhase::Registering { next: next + 1 }
                },
            },
            RegistrationPhase::RollingBack { next, error } => if next >= DELETE_COUNT {
                RegistrationPhase::Finished(Err(error))
            } else {
                RegistrationPhase::RollingBack { next: next + 1, error }
            },
            RegistrationPhase::Unregistering { next, first_error } => {
                let kept = match first_error {
                    Some(e) => Some(e),
                    None => match result {
                        Err(e) => Some(e),
                        Ok(()) => None,
                    },
                };
                if next >= DELETE_COUNT {
                    RegistrationPhase::Finished(
                        match kept {
                            Some(e) => Err(e),
                            None => Ok(()),
                        },
                    )
                } else {
                    RegistrationPhase::Unregistering { next: next + 1, first_error: kept }
                }
            },
            RegistrationPhase::Finished(r) => RegistrationPhase::Finished(r),
        };
    }

    /// The result for the caller, once finished.
    pub fn outcome(self) -> (r: Option<Result<(), E>>)
        ensures
            r == (match self@ {
                RegistrationPhase::Finished(r) => Some(r),
                _ => None,
            }),
    {
        match self.phase {
            RegistrationPhase::Finished(r) => Some(r),
            _ => None,
        }
    }
}

fn cleanup(next: usize) -> (op: Option<RegistrationOp>)
    ensures
        op == cleanup_op(next),
{
    if next == 0 {
        Some(RegistrationOp::UnregisterProfile)
    } else if next <= DELETE_COUNT {
        Some(RegistrationOp::DeleteTree(next - 1))
    } else {
        None
    }
}

/// Run a phase against a sequence of operation results: the operations
/// performed and the final phase. Results beyond the end are not consumed.
pub open spec fn run<E>(phase: RegistrationPhase<E>, results: Seq<Result<(), E>>) -> (
    Seq<RegistrationOp>,
    RegistrationPhase<E>,
)
    decreases results.len(),
{
    match pending_op(phase) {
        None => (Seq::empty(), phase),
        Some(op) => if results.len() == 0 {
            (Seq::empty(), phase)
        } else {
            let (ops, last) = run(phase_after(phase, results[0]), results.drop_first());
            (seq![op] + ops, last)
        },
    }
}

} // verus!

verus! {

/// Registration operation number `i`: the writes, then the profile.
pub open spec fn register_op(i: int) -> RegistrationOp {
    if i < WRITE_COUNT {
        RegistrationOp::ApplyWrite(i as usize)
    } else {
        RegistrationOp::RegisterProfile
    }
}

/// The cleanup operations, in order.
pub open spec fn cleanup_ops() -> Seq<RegistrationOp> {
    seq![
        RegistrationOp::UnregisterProfile,
        RegistrationOp::DeleteTree(0),
        RegistrationOp::DeleteTree(1),
    ]
}

proof fn lemma_cleanup_run<E>(phase: RegistrationPhase<E>, results: Seq<Result<(), E>>)
    requires
        results.len() == 3,
        phase matches RegistrationPhase::RollingBack { next, .. } && next == 0,
    ensures
        run(phase, results).0 == cleanup_ops(),
        run(phase, results).1 == RegistrationPhase::<E>::Finished(Err(phase->error)),
{
    let e = phase->error;
    let p1 = phase_after(phase, results[0]);
    let r1 = results.drop_first();
    let p2 = phase_after(p1, r1[0]);
    let r2 = r1.drop_first();
    let p3 = phase_after(p2, r2[0]);
    let r3 = r2.drop_first();
    assert(p1 == RegistrationPhase::<E>::RollingBack { next: 1, error: e });
    assert(p2 == RegistrationPhase::<E>::RollingBack { next: 2, error: e });
    assert(p3 == RegistrationPhase::<E>::Finished(Err(e)));
    assert(r3.len() == 0);
    assert(run(p3, r3) == (Seq::<RegistrationOp>::empty(), p3));
    assert(run(p2, r2).0 == seq![RegistrationOp::DeleteTree(1)]);
    assert(run(p1, r1).0 == seq![RegistrationOp::DeleteTree(0), RegistrationOp::DeleteTree(1)]);
    assert(run(phase, results).0 == seq![RegistrationOp::UnregisterProfile] + run(p1, r1).0);
}

proof fn lemma_register_run<E>(next: usize, k: int, results: Seq<Result<(), E>>, e: E)
    requires
        next <= k <= WRITE_COUNT,
        results.len() == k - next + 4,
        forall|i: int| 0 <= i < k - next ==> results[i] is Ok,
        results[k - next] == Err::<(), E>(e),
    ensures
        run(RegistrationPhase::<E>::Registering { next }, results).0 == Seq::new(
            (k - next + 1) as nat,
            |i: int| register_op(next + i),
        ) + cleanup_ops(),
        run(RegistrationPhase::<E>::Registering { next }, results).1
            == RegistrationPhase::<E>::Finished(Err(e)),
    decreases k - next,
{
    let phase = RegistrationPhase::<E>::Registering { next };
    let rest = results.drop_first();
    let op = register_op(next as int);
    assert(pending_op(phase) == Some(op));
    if next as int == k {
        let after = phase_after(phase, results[0]);
        assert(after == RegistrationPhase::<E>::RollingBack { next: 0, error: e });
        lemma_cleanup_run(after, rest);
        assert(Seq::new((k - next + 1) as nat, |i: int| register_op(next + i)) == seq![op]);
    } else {
        let after = phase_after(phase, results[0]);
        assert(results[0] is Ok);
        assert(after == RegistrationPhase::<E>::Registering { next: (next + 1) as usize });
        assert forall|i: int| 0 <= i < k - (next + 1) implies rest[i] is Ok by {
            assert(rest[i] == results[i + 1]);
        }
        assert(rest[k - (next + 1)] == results[k - next]);
        lemma_register_run((next + 1) as usize, k, rest, e);
        assert(Seq::new((k - next + 1) as nat, |i: int| register_op(next + i)) == seq![op]
            + Seq::new((k - (next + 1) + 1) as nat, |i: int| register_op(next + 1 + i)));
    }
}

/// A registration whose operation number `k` fails performs operations
/// `0..=k`, then unregisters the profile and deletes both registry trees,
/// and reports that failure whatever the cleanup gives: no partial
/// registration is left behind.
pub proof fn lemma_failed_registration_rolls_back<E>(k: int, results: Seq<Result<(), E>>, e: E)
    requires
        0 <= k <= WRITE_COUNT,
        results.len() == k + 4,
        forall|i: int| 0 <= i < k ==> results[i] is Ok,
        results[k] == Err::<(), E>(e),
    ensures
        run(RegistrationPhase::<E>::Registering { next: 0 }, results).0 == Seq::new(
            (k + 1) as nat,
            |i: int| register_op(i),
        ) + cleanup_ops(),
        run(RegistrationPhase::<E>::Registering { next: 0 }, results).1
            == RegistrationPhase::<E>::Finished(Err(e)),
{
    lemma_register_run(0, k, results, e);
    assert(Seq::new((k + 1) as nat, |i: int| register_op(i)) == Seq::new(
        (k - 0 + 1) as nat,
        |i: int| register_op(0 + i),
    ));
}

/// An unregistration runs every cleanup step whatever fails, and reports the
/// first failure, or success when none failed.
pub proof fn lemma_unregistration_runs_all_cleanup<E>(results: Seq<Result<(), E>>)
    requires
        results.len() == 3,
    ensures
        run(RegistrationPhase::<E>::Unregistering { next: 0, first_error: None }, results).0
            == cleanup_ops(),
        run(RegistrationPhase::<E>::Unregistering { next: 0, first_error: None }, results).1
            == RegistrationPhase::<E>::Finished(
            if results[0] is Err {
                results[0]
            } else if results[1] is Err {
                results[1]
            } else if results[2] is Err {
                results[2]
            } else {
                Ok(())
            },
        ),
{
    let phase = RegistrationPhase::<E>::Unregistering { next: 0, first_error: None };
    let p1 = phase_after(phase, results[0]);
    let r1 = results.drop_first();
    let p2 = phase_after(p1, r1[0]);
    let r2 = r1.drop_first();
    let p3 = phase_after(p2, r2[0]);
    let r3 = r2.drop_first();
    assert(r1[0] == results[1]);
    assert(r2[0] == results[2]);
    assert(r3.len() == 0);
    assert(pending_op(p3) is None);
    assert(run(p3, r3) == (Seq::<RegistrationOp>::empty(), p3));
    assert(run(p2, r2).0 == seq![RegistrationOp::DeleteTree(1)]);
    assert(run(p1, r1).0 == seq![RegistrationOp::DeleteTree(0), RegistrationOp::DeleteTree(1)]);
}

} // verus!
