//! What a response that a receipt keeps has to tell to be shown again.

use crate::civil_time;
use crate::dispatch::DispatchFailureV1;
use crate::json;
use crate::json::JsonTreeV1;
use crate::production::answers::is_shown;
use crate::production::frozen::{frozen_v2_result_matches, Members};
use crate::production::receipts;
use crate::production::sealed_results::{
    shows_job, tells_admission_of, tells_bool, tells_number, tells_text,
};
use crate::production::terminal::{
    terminal_job_response, validate_frozen_terminal_envelope, DecodedResponseV2,
    FrozenEnvelopeEvidenceV1, TerminalJobResponseV1,
};
use crate::production::failures::TerminalCommandKindV1;
use crate::store::{
    CommandV1, PersistedDomainResultV1, PersistedGraphTerminalOperationV2,
    PersistedGraphTerminalSessionProjectionV2, PersistedResponseContextV1,
    PersistedSessionLifecycleV1, PersistedTerminalReceiptV1, PersistedTerminalResultV1,
};
use vstd::prelude::*;

verus! {

/// Whether members tell a text where there is one, and no text otherwise.
pub open spec fn tells_text_if_any(members: Members, name: Seq<char>, text: Option<String>) -> bool {
    match text {
        Some(text) => tells_text(members, name, text@),
        None => !(json::member(members, name) matches Some(JsonTreeV1::Text(_))),
    }
}

/// Whether members tell under a name what a record tells under it.
pub open spec fn repeats_member(members: Members, record: Members, name: Seq<char>) -> bool {
    json::member(members, name) == json::member(record, name)
}

/// Whether members tell the state of a session.
pub open spec fn tells_state(
    members: Members,
    lifecycle: PersistedSessionLifecycleV1,
) -> bool {
    match lifecycle {
        PersistedSessionLifecycleV1::Running => tells_text(members, "session_state"@, "running"@),
        PersistedSessionLifecycleV1::Completed => tells_text(
            members,
            "session_state"@,
            "completed"@,
        ),
        PersistedSessionLifecycleV1::Cancelled => tells_text(
            members,
            "session_state"@,
            "cancelled"@,
        ),
    }
}

/// Whether members tell of a transition of a graph session, as the session records it.
pub open spec fn tells_operation(
    graph: PersistedGraphTerminalSessionProjectionV2,
    members: Members,
) -> bool {
    match graph.operation {
        Some(
            PersistedGraphTerminalOperationV2::Complete {
                from_graph_node_id,
                from_attempt_id,
                to_graph_node_id,
                to_attempt_id,
            },
        ) => tells_state(members, graph.lifecycle) && tells_text(
            members,
            "transition"@,
            "complete"@,
        ) && tells_text(members, "from_graph_node_id"@, from_graph_node_id@) && tells_text(
            members,
            "from_attempt_id"@,
            from_attempt_id@,
        ) && tells_text_if_any(members, "to_graph_node_id"@, to_graph_node_id)
            && tells_text_if_any(members, "to_attempt_id"@, to_attempt_id),
        Some(
            PersistedGraphTerminalOperationV2::Skip {
                from_graph_node_id,
                from_attempt_id,
                to_graph_node_id,
                to_attempt_id,
                reason,
            },
        ) => tells_state(members, graph.lifecycle) && tells_text(members, "transition"@, "skip"@)
            && tells_text(members, "from_graph_node_id"@, from_graph_node_id@) && tells_text(
            members,
            "from_attempt_id"@,
            from_attempt_id@,
        ) && tells_text_if_any(members, "to_graph_node_id"@, to_graph_node_id)
            && tells_text_if_any(members, "to_attempt_id"@, to_attempt_id) && tells_text_if_any(
            members,
            "reason"@,
            reason,
        ),
        Some(
            PersistedGraphTerminalOperationV2::Retry {
                graph_node_id,
                from_attempt_id,
                to_attempt_id,
                reason,
            },
        ) => graph.lifecycle is Running && tells_state(members, graph.lifecycle) && tells_text(
            members,
            "transition"@,
            "retry"@,
        ) && tells_text(members, "from_graph_node_id"@, graph_node_id@) && tells_text(
            members,
            "to_graph_node_id"@,
            graph_node_id@,
        ) && tells_text(members, "from_attempt_id"@, from_attempt_id@) && tells_text(
            members,
            "to_attempt_id"@,
            to_attempt_id@,
        ) && tells_text(members, "reason"@, reason@),
        Some(
            PersistedGraphTerminalOperationV2::Block {
                graph_node_id,
                attempt_id,
                blocker_id,
                reason,
            },
        ) => graph.lifecycle is Running && tells_state(members, graph.lifecycle) && tells_text(
            members,
            "transition"@,
            "block"@,
        ) && tells_text(members, "from_graph_node_id"@, graph_node_id@) && tells_text(
            members,
            "from_attempt_id"@,
            attempt_id@,
        ) && tells_text(members, "blocker_id"@, blocker_id@) && tells_text(
            members,
            "reason"@,
            reason@,
        ),
        Some(
            PersistedGraphTerminalOperationV2::Unblock {
                graph_node_id,
                attempt_id,
                all,
                blocker_ids,
            },
        ) => graph.lifecycle is Running && tells_state(members, graph.lifecycle) && tells_text(
            members,
            "transition"@,
            "unblock"@,
        ) && tells_text(members, "from_graph_node_id"@, graph_node_id@) && tells_text(
            members,
            "from_attempt_id"@,
            attempt_id@,
        ) && (if all {
            tells_bool(members, "all"@, true) && json::member(members, "blocker_id"@) is None
        } else {
            blocker_ids@.len() == 1 && tells_text(members, "blocker_id"@, blocker_ids@[0]@)
                && json::member(members, "all"@) is None
        }),
        Some(PersistedGraphTerminalOperationV2::Cancel { graph_node_id, attempt_id }) =>
            graph.lifecycle is Cancelled && tells_state(members, graph.lifecycle) && tells_text(
                members,
                "transition"@,
                "cancel"@,
            ) && tells_text(members, "from_graph_node_id"@, graph_node_id@) && tells_text(
                members,
                "from_attempt_id"@,
                attempt_id@,
            ) && json::member(members, "reason"@) is None,
        Some(PersistedGraphTerminalOperationV2::Reset { session_id }) => graph.session_id@
            == session_id@ && tells_text(members, "transition"@, "reset"@) && tells_bool(
            members,
            "reset"@,
            true,
        ) && json::member(members, "session_state"@) is None,
        _ => false,
    }
}

proof fn schemas_differ()
    ensures
        "podway.session-start-result/v2"@.len() == 30,
        "podway.decision-result/v1"@.len() == 25,
        "podway.rework-result/v1"@.len() == 23,
        "podway.stage-transition-result/v2"@.len() == 33,
        "podway.goal-definition-result/v1"@.len() == 32,
        "podway.criterion-assessment-result/v1"@.len() == 37,
        "podway.goal-revision-result/v1"@.len() == 30,
        "podway.session-start-result/v2"@ != "podway.goal-revision-result/v1"@,
{
    reveal_strlit("podway.session-start-result/v2");
    reveal_strlit("podway.decision-result/v1");
    reveal_strlit("podway.rework-result/v1");
    reveal_strlit("podway.stage-transition-result/v2");
    reveal_strlit("podway.goal-definition-result/v1");
    reveal_strlit("podway.criterion-assessment-result/v1");
    reveal_strlit("podway.goal-revision-result/v1");
    assert("podway.session-start-result/v2"@[7] != "podway.goal-revision-result/v1"@[7]);
}

/// A kept transition of a graph session is accepted exactly if it tells the operation, the state and the
/// revision that its receipt holds.
pub proof fn a_kept_transition_tells_its_operation(
    receipt: PersistedTerminalReceiptV1,
    graph: PersistedGraphTerminalSessionProjectionV2,
    result: serde_json::Map<String, serde_json::Value>,
    accepted: bool,
    session_id: String,
    revision_before: u64,
    revision_after: u64,
    changed: bool,
)
    requires
        call_ensures(frozen_v2_result_matches, (&receipt, &result), accepted),
        receipt.graph_session_projection == Some(graph),
        receipt.result == PersistedTerminalResultV1::Success(
            (PersistedDomainResultV1::SessionChanged {
                session_id,
                revision_before,
                revision_after,
                changed,
            }),
        ),
        tells_text(json::json_members(result), "schema"@, "podway.stage-transition-result/v2"@),
    ensures
        accepted <==> tells_number(json::json_members(result), "revision"@, revision_after)
            && tells_operation(graph, json::json_members(result)),
{
    schemas_differ();
}

/// A kept transition of no graph session is accepted exactly if it tells the transition that its command
/// asks for, the revision, and the state of the session, or that there is none left.
pub proof fn a_kept_plain_transition_tells_its_command(
    receipt: PersistedTerminalReceiptV1,
    command: CommandV1,
    result: serde_json::Map<String, serde_json::Value>,
    accepted: bool,
    session_id: String,
    revision_before: u64,
    revision_after: u64,
    changed: bool,
)
    requires
        call_ensures(frozen_v2_result_matches, (&receipt, &result), accepted),
        receipt.graph_session_projection is None,
        receipt.lookup_command == Some(command),
        receipt.result == PersistedTerminalResultV1::Success(
            (PersistedDomainResultV1::SessionChanged {
                session_id,
                revision_before,
                revision_after,
                changed,
            }),
        ),
        tells_text(json::json_members(result), "schema"@, "podway.stage-transition-result/v2"@),
    ensures
        ({
            let members = json::json_members(result);
            accepted <==> {
                &&& tells_number(members, "revision"@, revision_after)
                &&& command is SessionComplete ==> tells_text(members, "transition"@, "complete"@)
                &&& command is SessionSkip ==> tells_text(members, "transition"@, "skip"@)
                &&& command is SessionRetry ==> tells_text(members, "transition"@, "retry"@)
                &&& command is SessionBlock ==> tells_text(members, "transition"@, "block"@)
                &&& command is SessionUnblock ==> tells_text(members, "transition"@, "unblock"@)
                &&& command is SessionCancel ==> tells_text(members, "transition"@, "cancel"@)
                &&& command is SessionReset ==> tells_text(members, "transition"@, "reset"@)
                &&& !(command is SessionComplete || command is SessionSkip || command is SessionRetry
                    || command is SessionBlock || command is SessionUnblock
                    || command is SessionCancel || command is SessionReset) ==> !(json::member(
                    members,
                    "transition"@,
                ) matches Some(JsonTreeV1::Text(_)))
                &&& command is SessionReset ==> receipt.session_projection is None && tells_bool(
                    members,
                    "reset"@,
                    true,
                )
                &&& !(command is SessionReset) ==> (receipt.session_projection matches Some(session)
                    && tells_state(members, session.lifecycle) && session.revision_after
                    == revision_after)
            }
        }),
{
    schemas_differ();
}

/// A kept start is accepted exactly if it tells the session and the revision that its receipt tells, and
/// either the digest that the session was started with, or all that the start of a graph session
/// determines.
pub proof fn a_kept_start_tells_its_session(
    receipt: PersistedTerminalReceiptV1,
    result: serde_json::Map<String, serde_json::Value>,
    accepted: bool,
    session_id: String,
    revision_before: u64,
    revision_after: u64,
    changed: bool,
)
    requires
        call_ensures(frozen_v2_result_matches, (&receipt, &result), accepted),
        receipt.result == PersistedTerminalResultV1::Success(
            (PersistedDomainResultV1::SessionChanged {
                session_id,
                revision_before,
                revision_after,
                changed,
            }),
        ),
        tells_text(json::json_members(result), "schema"@, "podway.session-start-result/v2"@),
    ensures
        ({
            let members = json::json_members(result);
            accepted <==> tells_text(members, "session_id"@, session_id@) && tells_number(
                members,
                "revision"@,
                revision_after,
            ) && ((receipt.session_projection matches Some(session) && session.session_id@
                == session_id@ && tells_text_if_any(
                members,
                "procedure_digest"@,
                session.procedure_digest,
            )) || (receipt.graph_session_projection matches Some(graph) && graph.session_id@
                == session_id@ && tells_text(
                members,
                "procedure_digest"@,
                graph.procedure_digest@,
            ) && tells_text(members, "entry_graph_node_id"@, graph.entry_graph_node_id@)
                && tells_bool(members, "goal_tracking"@, graph.goal_tracking) && tells_bool(
                members,
                "goal_defined"@,
                graph.goal_defined,
            )))
        }),
{
    schemas_differ();
}

/// A kept decision is accepted exactly if it repeats the decision that its receipt records.
pub proof fn a_kept_decision_repeats_its_record(
    receipt: PersistedTerminalReceiptV1,
    result: serde_json::Map<String, serde_json::Value>,
    accepted: bool,
    session_id: String,
    revision_before: u64,
    revision_after: u64,
    changed: bool,
)
    requires
        call_ensures(frozen_v2_result_matches, (&receipt, &result), accepted),
        receipt.result == PersistedTerminalResultV1::Success(
            (PersistedDomainResultV1::SessionChanged {
                session_id,
                revision_before,
                revision_after,
                changed,
            }),
        ),
        tells_text(json::json_members(result), "schema"@, "podway.decision-result/v1"@),
    ensures
        ({
            let members = json::json_members(result);
            accepted <==> (receipt.graph_session_projection matches Some(graph) && (
            graph.operation matches Some(
                PersistedGraphTerminalOperationV2::Decide { record, target_attempt_id },
            ) && (json::json_tree(record) matches JsonTreeV1::Record(decision)
                && graph.lifecycle is Running && graph.revision_after == revision_after
                && tells_number(members, "revision"@, revision_after) && tells_text(
                members,
                "session_state"@,
                "running"@,
            ) && json::member(members, "record"@) == Some(json::json_tree(record))
                && repeats_member(members, decision, "graph_node_id"@) && repeats_member(
                members,
                decision,
                "attempt_id"@,
            ) && repeats_member(members, decision, "attempt_number"@) && repeats_member(
                members,
                decision,
                "option_id"@,
            ) && repeats_member(members, decision, "effect"@) && repeats_member(
                members,
                decision,
                "target_graph_node_id"@,
            ) && tells_text(members, "target_attempt_id"@, target_attempt_id@))))
        }),
{
    schemas_differ();
}

/// A kept rework is accepted exactly if it repeats the rework that its receipt records, and tells
/// nothing beyond it.
pub proof fn a_kept_rework_repeats_its_record(
    receipt: PersistedTerminalReceiptV1,
    result: serde_json::Map<String, serde_json::Value>,
    accepted: bool,
    session_id: String,
    revision_before: u64,
    revision_after: u64,
    changed: bool,
)
    requires
        call_ensures(frozen_v2_result_matches, (&receipt, &result), accepted),
        receipt.result == PersistedTerminalResultV1::Success(
            (PersistedDomainResultV1::SessionChanged {
                session_id,
                revision_before,
                revision_after,
                changed,
            }),
        ),
        tells_text(json::json_members(result), "schema"@, "podway.rework-result/v1"@),
    ensures
        ({
            let members = json::json_members(result);
            accepted <==> (receipt.graph_session_projection matches Some(graph) && (
            graph.operation matches Some(PersistedGraphTerminalOperationV2::Rework { record }) && (
            json::json_tree(record) matches JsonTreeV1::Record(rework) && graph.lifecycle is Running
                && graph.revision_after == revision_after && members.dom().len() == 8
                && tells_number(members, "revision"@, revision_after) && repeats_member(
                members,
                rework,
                "from_graph_node_id"@,
            ) && repeats_member(members, rework, "to_graph_node_id"@) && repeats_member(
                members,
                rework,
                "target_attempt_id"@,
            ) && repeats_member(members, rework, "reason"@) && repeats_member(
                members,
                rework,
                "reactivated"@,
            ))))
        }),
{
    schemas_differ();
}

/// A kept goal is accepted exactly if it repeats every member of the goal that its receipt records as
/// defined or revised, whichever its schema says, and tells the revision.
pub proof fn a_kept_goal_repeats_its_record(
    receipt: PersistedTerminalReceiptV1,
    graph: PersistedGraphTerminalSessionProjectionV2,
    record: serde_json::Value,
    goal: Members,
    result: serde_json::Map<String, serde_json::Value>,
    accepted: bool,
    revised: bool,
    session_id: String,
    revision_before: u64,
    revision_after: u64,
    changed: bool,
)
    requires
        call_ensures(frozen_v2_result_matches, (&receipt, &result), accepted),
        receipt.result == PersistedTerminalResultV1::Success(
            (PersistedDomainResultV1::SessionChanged {
                session_id,
                revision_before,
                revision_after,
                changed,
            }),
        ),
        receipt.graph_session_projection == Some(graph),
        tells_text(
            json::json_members(result),
            "schema"@,
            if revised {
                "podway.goal-revision-result/v1"@
            } else {
                "podway.goal-definition-result/v1"@
            },
        ),
    ensures
        accepted ==> (graph.operation matches Some(operation) && (if revised {
            operation is GoalRevise
        } else {
            operation is GoalDefine
        })),
        graph.operation == Some(
            if revised {
                PersistedGraphTerminalOperationV2::GoalRevise { record }
            } else {
                PersistedGraphTerminalOperationV2::GoalDefine { record }
            },
        ) && json::json_tree(record) == JsonTreeV1::Record(goal) ==> (accepted <==> tells_number(
            json::json_members(result),
            "revision"@,
            revision_after,
        ) && forall|name: Seq<char>| #[trigger]
            goal.dom().contains(name) ==> repeats_member(
                json::json_members(result),
                goal,
                name,
            )),
{
    schemas_differ();
    assert((forall|name: Seq<char>| #[trigger]
        goal.dom().contains(name) ==> repeats_member(json::json_members(result), goal, name))
        <==> crate::production::frozen::repeats(json::json_members(result), goal));
}

/// Whether a shown citation names what a stored one names.
pub open spec fn names_the_same(stored: JsonTreeV1, shown: JsonTreeV1) -> bool {
    stored matches JsonTreeV1::Record(citation) && {
        ||| tells_text(citation, "kind"@, "evidence"@) && json::tree_member(
            shown,
            "reference_graph_node_id"@,
        ) == json::member(citation, "graph_node_id"@)
        ||| tells_text(citation, "kind"@, "item"@) && json::tree_member(shown, "local_item_id"@)
            == json::member(citation, "item_id"@)
    }
}

/// A kept assessment is accepted only if it repeats the assessment that its receipt records, and cites
/// the same, one by one.
pub proof fn a_kept_assessment_repeats_its_record(
    receipt: PersistedTerminalReceiptV1,
    graph: PersistedGraphTerminalSessionProjectionV2,
    record: serde_json::Value,
    assessment: Members,
    stored: Members,
    public: Members,
    stored_citations: Seq<JsonTreeV1>,
    public_citations: Seq<JsonTreeV1>,
    result: serde_json::Map<String, serde_json::Value>,
    accepted: bool,
    session_id: String,
    revision_before: u64,
    revision_after: u64,
    changed: bool,
)
    requires
        call_ensures(frozen_v2_result_matches, (&receipt, &result), accepted),
        receipt.result == PersistedTerminalResultV1::Success(
            (PersistedDomainResultV1::SessionChanged {
                session_id,
                revision_before,
                revision_after,
                changed,
            }),
        ),
        receipt.graph_session_projection == Some(graph),
        graph.operation == Some(
            (PersistedGraphTerminalOperationV2::GoalAssessCriterion { record }),
        ),
        json::json_tree(record) == JsonTreeV1::Record(assessment),
        json::member(assessment, "result"@) == Some(JsonTreeV1::Record(stored)),
        json::member(stored, "citations"@) == Some(JsonTreeV1::List(stored_citations)),
        json::member(json::json_members(result), "result"@) == Some(JsonTreeV1::Record(public)),
        json::member(public, "citations"@) == Some(JsonTreeV1::List(public_citations)),
        tells_text(
            json::json_members(result),
            "schema"@,
            "podway.criterion-assessment-result/v1"@,
        ),
    ensures
        ({
            let members = json::json_members(result);
            accepted <==> {
                &&& tells_number(members, "revision"@, revision_after)
                &&& repeats_member(members, assessment, "graph_node_id"@)
                &&& repeats_member(members, assessment, "attempt_id"@)
                &&& repeats_member(members, assessment, "goal_revision"@)
                &&& repeats_member(members, assessment, "mode"@)
                &&& repeats_member(members, assessment, "complete"@)
                &&& repeats_member(members, assessment, "determined_outcome"@)
                &&& repeats_member(public, stored, "criterion_id"@)
                &&& repeats_member(public, stored, "status"@)
                &&& repeats_member(public, stored, "reason"@)
                &&& public_citations.len() == stored_citations.len()
                &&& forall|i: int|
                    0 <= i < stored_citations.len() ==> names_the_same(
                        #[trigger] stored_citations[i],
                        public_citations[i],
                    )
            }
        }),
{
    schemas_differ();
    reveal_strlit("evidence");
    reveal_strlit("item");
    assert("evidence"@.len() == 8 && "item"@.len() == 4);
    assert forall|i: int| 0 <= i < stored_citations.len() implies (names_the_same(
        #[trigger] stored_citations[i],
        public_citations[i],
    ) <==> crate::production::frozen::citation_agrees(
        stored_citations[i],
        public_citations[i],
    )) by {}
}

/// A kept change of an item is accepted exactly if it tells the item, whether it changed and the revision
/// and, where a graph session records it, the node, the attempt and the digest that the session does.
pub proof fn a_kept_item_tells_its_change(
    receipt: PersistedTerminalReceiptV1,
    result: serde_json::Map<String, serde_json::Value>,
    accepted: bool,
    session_id: String,
    item_id: String,
    revision_before: u64,
    revision_after: u64,
    changed: bool,
)
    requires
        call_ensures(frozen_v2_result_matches, (&receipt, &result), accepted),
        receipt.result == PersistedTerminalResultV1::Success(
            (PersistedDomainResultV1::ItemChanged {
                session_id,
                item_id,
                revision_before,
                revision_after,
                changed,
            }),
        ),
    ensures
        ({
            let members = json::json_members(result);
            accepted <==> {
                &&& tells_text(members, "schema"@, "podway.item-mutation-result/v2"@)
                &&& tells_text(members, "item_id"@, item_id@)
                &&& tells_number(members, "revision"@, revision_after)
                &&& tells_bool(members, "changed"@, changed)
                &&& receipt.graph_session_projection matches Some(graph) ==> (
                graph.operation matches Some(
                    PersistedGraphTerminalOperationV2::ItemMutation {
                        graph_node_id,
                        attempt_id,
                        attempt_number,
                        item_id: recorded,
                        value_digest,
                    },
                ) && recorded@ == item_id@ && tells_text(members, "graph_node_id"@, graph_node_id@)
                    && tells_text(members, "attempt_id"@, attempt_id@) && tells_number(
                    members,
                    "attempt_number"@,
                    attempt_number,
                ) && tells_text_if_any(members, "value_digest"@, value_digest))
            }
        }),
{
}

/// Nothing is accepted for a job that did not change a session or an item, nor for a result whose schema
/// is none of those that there are for a changed session.
pub proof fn only_changes_are_kept(
    receipt: PersistedTerminalReceiptV1,
    result: serde_json::Map<String, serde_json::Value>,
    accepted: bool,
)
    requires
        call_ensures(frozen_v2_result_matches, (&receipt, &result), accepted),
    ensures
        accepted ==> (receipt.result matches PersistedTerminalResultV1::Success(success) && (
        success is SessionChanged || success is ItemChanged)),
        accepted && (receipt.result matches PersistedTerminalResultV1::Success(success)
            && success is SessionChanged) ==> ({
            let members = json::json_members(result);
            ||| tells_text(members, "schema"@, "podway.session-start-result/v2"@)
            ||| tells_text(members, "schema"@, "podway.decision-result/v1"@)
            ||| tells_text(members, "schema"@, "podway.rework-result/v1"@)
            ||| tells_text(members, "schema"@, "podway.stage-transition-result/v2"@)
            ||| tells_text(members, "schema"@, "podway.goal-definition-result/v1"@)
            ||| tells_text(members, "schema"@, "podway.criterion-assessment-result/v1"@)
            ||| tells_text(members, "schema"@, "podway.goal-revision-result/v1"@)
        }),
{
}

/// Whether a kept response names the request, the command and the workspace that its receipt names.
pub open spec fn names_its_request(context: PersistedResponseContextV1, members: Members) -> bool {
    &&& tells_text(members, "request_id"@, context.request_id@)
    &&& tells_text(members, "command"@, context.command@)
    &&& json::member(members, "workspace"@) matches Some(JsonTreeV1::Record(workspace)) && {
        &&& tells_text(workspace, "uuid"@, context.workspace_uuid@)
        &&& tells_text(workspace, "root"@, context.workspace_root@)
        &&& tells_number(
            workspace,
            "latest_workspace_sequence"@,
            context.workspace_sequence,
        )
    }
}

/// A kept response is accepted only for the request and the workspace that its receipt names, and only
/// if its job can be shown. One of the first version is accepted exactly if it tells the job too. One of
/// the second has to be read back as an output that tells the command, the job and its end, and that the
/// job was admitted and succeeded. There are no others but errors.
pub proof fn a_kept_response_is_that_of_its_job(
    receipt: PersistedTerminalReceiptV1,
    envelope: serde_json::Value,
    members: Members,
    evidence: FrozenEnvelopeEvidenceV1,
    verdict: Result<(), DispatchFailureV1>,
)
    requires
        call_ensures(validate_frozen_terminal_envelope, (&receipt, &envelope, evidence), verdict),
        json::json_tree(envelope) == JsonTreeV1::Record(members),
    ensures
        verdict is Ok ==> (receipt.response_context matches Some(context) && names_its_request(
            context,
            members,
        )) && is_shown(receipt) && (tells_text(members, "schema"@, "podway.output/v1"@)
            || tells_text(members, "schema"@, "podway.output/v2"@) || tells_text(
            members,
            "schema"@,
            "podway.error/v1"@,
        )),
        tells_text(members, "schema"@, "podway.output/v1"@) && verdict is Ok ==> json::member(
            members,
            "job"@,
        ) == Some(json::json_tree(evidence.job_document)),
        tells_text(members, "schema"@, "podway.output/v2"@) && verdict is Ok ==> (
        evidence.decoded matches DecodedResponseV2::OutputV2 { command, job, generated_at, result }
            && {
            &&& receipt.lookup_command matches Some(expected) && command@
                == receipts::command_name(expected)@
            &&& job matches Some(job) && shows_job(receipt, job)
            &&& receipt.job_projection matches Some(projection) && generated_at@
                == civil_time::timestamp(projection.finished_at as nat)
            &&& receipt.result is Success
            &&& tells_admission_of(receipt, json::json_members(result))
        }),
        tells_text(members, "schema"@, "podway.error/v1"@) && verdict is Ok ==> receipt.result
            is Failure && evidence.decoded is Error && evidence.expected_error is Ok,
{
    reveal_strlit("podway.output/v1");
    reveal_strlit("podway.output/v2");
    reveal_strlit("podway.error/v1");
    assert("podway.output/v1"@.len() == 16 && "podway.output/v2"@.len() == 16
        && "podway.error/v1"@.len() == 15);
    assert("podway.output/v1"@[15] != "podway.output/v2"@[15]);
    reveal_strlit("uuid");
    reveal_strlit("root");
    reveal_strlit("latest_workspace_sequence");
    assert("uuid"@.len() == 4 && "root"@.len() == 4 && "latest_workspace_sequence"@.len() == 25);
    assert("uuid"@[0] != "root"@[0]);
    match receipt.job_projection {
        Some(projection) => {
            civil_time::an_instant_has_a_timestamp_until_the_year_ten_thousand(
                projection.submitted_at as nat,
            );
            civil_time::an_instant_has_a_timestamp_until_the_year_ten_thousand(
                projection.finished_at as nat,
            );
            match projection.claimed_at {
                Some(claimed_at) => {
                    civil_time::an_instant_has_a_timestamp_until_the_year_ten_thousand(
                        claimed_at as nat,
                    );
                },
                None => {},
            }
        },
        None => {},
    }
}

/// A job that keeps a response is answered with it, letter for letter, exactly if it is accepted, and
/// with nothing else.
pub proof fn a_kept_response_is_answered_as_it_is(
    receipt: PersistedTerminalReceiptV1,
    command: TerminalCommandKindV1,
    envelope: serde_json::Value,
    evidence: FrozenEnvelopeEvidenceV1,
    verdict: Result<(), DispatchFailureV1>,
    response: Result<TerminalJobResponseV1, DispatchFailureV1>,
)
    requires
        call_ensures(validate_frozen_terminal_envelope, (&receipt, &envelope, evidence), verdict),
        call_ensures(terminal_job_response, (&receipt, command, evidence), response),
        receipt.public_terminal_envelope == Some(envelope),
    ensures
        response matches Ok(response) ==> verdict is Ok && response
            == TerminalJobResponseV1::Document(envelope),
        verdict is Ok && receipt.graph_session_projection is None && !(receipt.result is Success)
            && receipt.session_projection is None ==> response is Ok,
        verdict is Ok && (receipt.graph_session_projection matches Some(graph) && (
        graph.operation is None || graph.operation matches Some(
            PersistedGraphTerminalOperationV2::Complete { .. },
        )) && (receipt.result matches PersistedTerminalResultV1::Success(success)
            && success is SessionChanged)) ==> response is Ok,
{
}

} // verus!
