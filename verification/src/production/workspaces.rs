//! The answers to requests about a workspace as a whole.

use crate::dispatch;
use crate::dispatch::{DispatchFailureKindV1, DispatchFailureV1};
use crate::execution::ExecutionErrorV1;
use crate::json;
use crate::json::{json_array, json_map_insert, json_map_new, json_object, json_text};
use crate::production::frozen::Members;
use crate::production::graph_envelope;
use crate::production::graph_envelope::{put_bool, put_text};
use crate::registry::WorkspaceRegistryEntryV1;
use crate::runtime_workspace;
use crate::runtime_workspace::{same_binding, WorkspaceBindingV1};
use vstd::prelude::*;

verus! {

/// What a doctor found out about the binding of a workspace to its worktree.
#[derive(Clone, Copy, Debug, PartialEq, Eq, Structural)]
pub enum DoctorCheckV1 {
    NotRequested,
    Current,
    RetireRequired,
    Failed,
}

/// The public name of what a doctor found out.
pub open spec fn check_outcome(check: DoctorCheckV1) -> &'static str {
    match check {
        DoctorCheckV1::NotRequested => "not_requested",
        DoctorCheckV1::Current => "current",
        DoctorCheckV1::RetireRequired => "retire_required",
        DoctorCheckV1::Failed => "error",
    }
}

/// What a doctor has to report, if anything.
pub open spec fn check_finding(check: DoctorCheckV1) -> Option<&'static str> {
    match check {
        DoctorCheckV1::NotRequested | DoctorCheckV1::Current => None,
        DoctorCheckV1::RetireRequired => Some("workspace_identity_changed"),
        DoctorCheckV1::Failed => Some("git_store_binding_revalidation_failed"),
    }
}

/// A finding of a doctor.
pub open spec fn finding_tree(code: Seq<char>) -> json::JsonTreeV1 {
    json::JsonTreeV1::Record(
        graph_envelope::with_text(
            graph_envelope::with_text(json::no_members(), "code"@, code),
            "severity"@,
            "error"@,
        ),
    )
}

/// The answer of a doctor. A workspace whose state could be read is healthy unless the check of its
/// binding found otherwise.
pub open spec fn doctor_members(check: DoctorCheckV1) -> Members {
    let members = graph_envelope::with_bool(
        json::no_members(),
        "deep"@,
        !(check is NotRequested),
    );
    let members = graph_envelope::with_bool(members, "workspace_state_readable"@, true);
    let members = graph_envelope::with_bool(members, "healthy"@, check_finding(check) is None);
    let members = members.insert(
        "git_store_binding_revalidated"@,
        json::JsonTreeV1::Record(
            graph_envelope::with_text(json::no_members(), "outcome"@, check_outcome(check)@),
        ),
    );
    match check_finding(check) {
        Some(code) => members.insert(
            "findings"@,
            json::JsonTreeV1::List(seq![finding_tree(code@)]),
        ),
        None => members,
    }
}

/// The answer of a doctor.
pub fn doctor_result(check: DoctorCheckV1) -> (result: serde_json::Map<String, serde_json::Value>)
    ensures
        json::json_members(result) == doctor_members(check),
{
    let (outcome, finding): (&'static str, Option<&'static str>) = match check {
        DoctorCheckV1::NotRequested => ("not_requested", None),
        DoctorCheckV1::Current => ("current", None),
        DoctorCheckV1::RetireRequired => ("retire_required", Some("workspace_identity_changed")),
        DoctorCheckV1::Failed => ("error", Some("git_store_binding_revalidation_failed")),
    };
    let mut result = json_map_new();
    put_bool(&mut result, "deep", check != DoctorCheckV1::NotRequested);
    put_bool(&mut result, "workspace_state_readable", true);
    put_bool(&mut result, "healthy", finding.is_none());
    let mut revalidated = json_map_new();
    put_text(&mut revalidated, "outcome", outcome);
    json_map_insert(&mut result, "git_store_binding_revalidated", json_object(revalidated));
    if let Some(code) = finding {
        let mut entry = json_map_new();
        put_text(&mut entry, "code", code);
        put_text(&mut entry, "severity", "error");
        let mut findings: Vec<serde_json::Value> = Vec::new();
        findings.push(json_object(entry));
        assert(json::json_trees(findings@) =~= seq![finding_tree(code@)]);
        json_map_insert(&mut result, "findings", json_array(findings));
    }
    result
}

/// The answer to a request to show a workspace that there is.
pub fn show_result() -> (result: serde_json::Map<String, serde_json::Value>)
    ensures
        json::json_members(result) == graph_envelope::with_bool(
            json::no_members(),
            "initialized"@,
            true,
        ),
{
    let mut result = json_map_new();
    put_bool(&mut result, "initialized", true);
    result
}

/// What a repair changed: the root that the binding holds, the root that the registry holds.
pub open spec fn repair_changes(moved: bool, registry_reconciled: bool) -> Seq<json::JsonTreeV1> {
    let binding = if moved {
        seq![json::JsonTreeV1::Text("workspace_binding.last_validated_root"@)]
    } else {
        Seq::empty()
    };
    if registry_reconciled {
        binding.push(json::JsonTreeV1::Text("registry.last_known_root"@))
    } else {
        binding
    }
}

/// The answer to a repair. That the workspace moved is proven unless only the registry says so.
pub open spec fn repair_members(moved: bool, registry_reconciled: bool) -> Members {
    graph_envelope::with_bool(
        graph_envelope::with_bool(
            json::no_members(),
            "changed"@,
            moved || registry_reconciled,
        ).insert("changes"@, json::JsonTreeV1::List(repair_changes(moved, registry_reconciled))),
        "moved_identity_proven"@,
        moved || !registry_reconciled,
    )
}

/// The answer to a repair of a workspace that may have moved from the root at which its binding was
/// validated, given the root that the registry held before and holds now.
pub fn repair_result(
    moved: bool,
    root_before: &String,
    root_after: &String,
) -> (result: serde_json::Map<String, serde_json::Value>)
    ensures
        json::json_members(result) == repair_members(moved, root_before@ != root_after@),
{
    let registry_reconciled = *root_before != *root_after;
    let mut changes: Vec<serde_json::Value> = Vec::new();
    if moved {
        changes.push(json_text("workspace_binding.last_validated_root"));
    }
    if registry_reconciled {
        changes.push(json_text("registry.last_known_root"));
    }
    assert(json::json_trees(changes@) =~= repair_changes(moved, root_before@ != root_after@));
    let changed = changes.len() > 0;
    let mut result = json_map_new();
    put_bool(&mut result, "changed", changed);
    json_map_insert(&mut result, "changes", json_array(changes));
    put_bool(&mut result, "moved_identity_proven", moved || !registry_reconciled);
    result
}

/// The scheduler of a workspace that is only read. There is none to read where none is active.
pub fn require_active_scheduler<Scheduler>(active: Option<Scheduler>) -> (scheduler: Result<
    Scheduler,
    DispatchFailureV1,
>)
    ensures
        scheduler == match active {
            Some(scheduler) => Ok(scheduler),
            None => Err(dispatch::bare_failure(DispatchFailureKindV1::DaemonUnavailable)),
        },
{
    match active {
        Some(scheduler) => Ok(scheduler),
        None => Err(DispatchFailureV1::new(DispatchFailureKindV1::DaemonUnavailable)),
    }
}

/// Whether graph procedures in development are admitted for a workspace: the process has to be
/// eligible, the workspace to resolve, and the admission to permit it.
pub fn development_v2_admission(
    process_is_eligible: bool,
    workspace_resolves: bool,
    workspace_is_permitted: bool,
) -> (admitted: bool)
    ensures
        admitted == (process_is_eligible && workspace_resolves && workspace_is_permitted),
{
    process_is_eligible && workspace_resolves && workspace_is_permitted
}

/// The root that a workspace is registered at before it is repaired. A workspace that is not
/// registered is not repaired.
pub fn root_before_repair(registered: Option<&WorkspaceRegistryEntryV1>) -> (root: Result<
    String,
    DispatchFailureV1,
>)
    ensures
        root == match registered {
            Some(entry) => Ok(entry.last_known_root),
            None => Err(dispatch::bare_failure(DispatchFailureKindV1::RequestInvalid)),
        },
{
    match registered {
        Some(entry) => Ok(entry.last_known_root.clone()),
        None => Err(DispatchFailureV1::new(DispatchFailureKindV1::RequestInvalid)),
    }
}

/// Whether a repair has changed the root that a workspace is registered at.
pub fn repair_reconciled_registry(
    root_before: &String,
    registered: Option<&WorkspaceRegistryEntryV1>,
) -> (reconciled: Result<bool, DispatchFailureV1>)
    ensures
        reconciled == match registered {
            Some(entry) => Ok(entry.last_known_root@ != root_before@),
            None => Err(dispatch::bare_failure(DispatchFailureKindV1::WorkspaceStateUnreadable)),
        },
{
    match registered {
        Some(entry) => Ok(entry.last_known_root != *root_before),
        None => Err(DispatchFailureV1::new(DispatchFailureKindV1::WorkspaceStateUnreadable)),
    }
}

/// A step of an execution that works on the binding of a scheduler.
#[derive(Clone, Copy, Debug, PartialEq, Eq, Structural)]
pub enum ExecutionStepV1 {
    Admission,
    Claim,
    ProcedureV2Admission,
    ProcedureV2TypedStart,
    ProcedureV2TypedMutation,
}

/// Why a step is refused where the binding has changed.
pub open spec fn changed_binding_reason(step: ExecutionStepV1) -> &'static str {
    match step {
        ExecutionStepV1::Admission => "scheduler context binding changed during admission",
        ExecutionStepV1::Claim => "scheduler context binding changed during claim",
        ExecutionStepV1::ProcedureV2Admission =>
            "scheduler context binding changed during Procedure v2 admission",
        ExecutionStepV1::ProcedureV2TypedStart =>
            "scheduler context changed during typed Procedure v2 start admission",
        ExecutionStepV1::ProcedureV2TypedMutation =>
            "scheduler context binding changed during typed Procedure v2 admission",
    }
}

/// Refuses a step of an execution on a scheduler whose binding is no longer the one that the step
/// was made for.
pub fn check_context_binding(
    context: &WorkspaceBindingV1,
    binding: &WorkspaceBindingV1,
    step: ExecutionStepV1,
) -> (verdict: Result<(), ExecutionErrorV1>)
    ensures
        verdict == if runtime_workspace::same_binding_spec(*context, *binding) {
            Ok(())
        } else {
            Err(
                ExecutionErrorV1::InvalidPersistedExecution {
                    reason: changed_binding_reason(step),
                },
            )
        },
{
    if same_binding(context, binding) {
        return Ok(());
    }
    let reason: &'static str = match step {
        ExecutionStepV1::Admission => "scheduler context binding changed during admission",
        ExecutionStepV1::Claim => "scheduler context binding changed during claim",
        ExecutionStepV1::ProcedureV2Admission =>
            "scheduler context binding changed during Procedure v2 admission",
        ExecutionStepV1::ProcedureV2TypedStart =>
            "scheduler context changed during typed Procedure v2 start admission",
        ExecutionStepV1::ProcedureV2TypedMutation =>
            "scheduler context binding changed during typed Procedure v2 admission",
    };
    Err(ExecutionErrorV1::InvalidPersistedExecution { reason })
}

/// A doctor tells a workspace as healthy, and finds nothing, exactly if its binding was not looked at or is
/// the current one. What it finds is told by its code.
pub proof fn a_doctor_finds_what_is_wrong(
    check: DoctorCheckV1,
    result: serde_json::Map<String, serde_json::Value>,
)
    requires
        call_ensures(doctor_result, (check,), result),
    ensures
        ({
            let members = json::json_members(result);
            let is_wrong = check is RetireRequired || check is Failed;
            &&& json::member(members, "deep"@) == Some(
                json::JsonTreeV1::Bool(!(check is NotRequested)),
            )
            &&& json::member(members, "workspace_state_readable"@) == Some(
                json::JsonTreeV1::Bool(true),
            )
            &&& json::member(members, "healthy"@) == Some(json::JsonTreeV1::Bool(!is_wrong))
            &&& json::member(members, "findings"@) is Some <==> is_wrong
            &&& is_wrong ==> (json::member(members, "findings"@) matches Some(
                json::JsonTreeV1::List(findings),
            ) && findings.len() == 1 && (findings[0] matches json::JsonTreeV1::Record(finding)
                && json::member(finding, "severity"@) == Some(json::JsonTreeV1::Text("error"@))
                && json::member(finding, "code"@) == Some(
                json::JsonTreeV1::Text(
                    if check is RetireRequired {
                        "workspace_identity_changed"@
                    } else {
                        "git_store_binding_revalidation_failed"@
                    },
                ),
            )))
            &&& json::member(members, "git_store_binding_revalidated"@) matches Some(
                json::JsonTreeV1::Record(revalidated),
            ) && {
                let outcome = json::member(revalidated, "outcome"@);
                &&& check is NotRequested ==> outcome == Some(
                    json::JsonTreeV1::Text("not_requested"@),
                )
                &&& check is Current ==> outcome == Some(json::JsonTreeV1::Text("current"@))
                &&& check is RetireRequired ==> outcome == Some(
                    json::JsonTreeV1::Text("retire_required"@),
                )
                &&& check is Failed ==> outcome == Some(json::JsonTreeV1::Text("error"@))
            }
        }),
{
    reveal_strlit("deep");
    reveal_strlit("workspace_state_readable");
    reveal_strlit("healthy");
    reveal_strlit("git_store_binding_revalidated");
    reveal_strlit("findings");
    reveal_strlit("code");
    reveal_strlit("severity");
    assert("deep"@.len() == 4 && "workspace_state_readable"@.len() == 24 && "healthy"@.len() == 7
        && "git_store_binding_revalidated"@.len() == 29 && "findings"@.len() == 8 && "code"@.len()
        == 4 && "severity"@.len() == 8);
}

/// A repair tells that it changed something exactly if the workspace moved or the registry held another
/// root, and names each of the two that it changed, the binding first. That the workspace moved is not
/// proven exactly if only the registry says so.
pub proof fn a_repair_tells_what_it_changed(
    moved: bool,
    root_before: String,
    root_after: String,
    result: serde_json::Map<String, serde_json::Value>,
)
    requires
        call_ensures(repair_result, (moved, &root_before, &root_after), result),
    ensures
        ({
            let members = json::json_members(result);
            let reconciled = root_before@ != root_after@;
            &&& json::member(members, "changed"@) == Some(
                json::JsonTreeV1::Bool(moved || reconciled),
            )
            &&& json::member(members, "moved_identity_proven"@) == Some(
                json::JsonTreeV1::Bool(moved || !reconciled),
            )
            &&& json::member(members, "changes"@) matches Some(json::JsonTreeV1::List(changes)) && {
                &&& changes.len() == if moved && reconciled {
                    2nat
                } else if moved || reconciled {
                    1nat
                } else {
                    0nat
                }
                &&& moved ==> changes[0] == json::JsonTreeV1::Text(
                    "workspace_binding.last_validated_root"@,
                )
                &&& reconciled ==> changes.last() == json::JsonTreeV1::Text(
                    "registry.last_known_root"@,
                )
            }
        }),
{
    reveal_strlit("changed");
    reveal_strlit("changes");
    reveal_strlit("moved_identity_proven");
    assert("changed"@.len() == 7 && "changes"@.len() == 7 && "moved_identity_proven"@.len() == 21);
    assert("changed"@[6] != "changes"@[6]);
}

/// A step of an execution is let through exactly if the binding of its scheduler is still the one that it
/// was made for: the same workspace of the same worktree, at the same root.
pub proof fn a_step_needs_its_own_binding(
    context: WorkspaceBindingV1,
    binding: WorkspaceBindingV1,
    step: ExecutionStepV1,
    verdict: Result<(), ExecutionErrorV1>,
)
    requires
        call_ensures(check_context_binding, (&context, &binding, step), verdict),
    ensures
        verdict is Ok <==> context.identity.workspace_uuid@ == binding.identity.workspace_uuid@
            && context.identity.common_dir_identity@ == binding.identity.common_dir_identity@
            && context.identity.worktree_admin_identity@
            == binding.identity.worktree_admin_identity@ && context.last_validated_root@
            == binding.last_validated_root@,
        verdict matches Err(error) ==> error is InvalidPersistedExecution,
{
}

} // verus!
