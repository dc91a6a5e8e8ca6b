//! What is sealed into a receipt is accepted when it is read back.

use crate::dispatch::DispatchFailureV1;
use crate::json;
use crate::production::failures;
use crate::production::frozen;
use crate::production::frozen::Members;
use crate::production::graph_envelope;
use crate::production::graph_envelope::{GraphTerminalEnvelopeV2, OutputEnvelopeInputV2};
use crate::production::receipts;
use crate::production::terminal;
use crate::production::terminal::{DecodedResponseV2, FrozenEnvelopeEvidenceV1};
use crate::store::{
    PersistedDomainResultV1, PersistedGraphTerminalOperationV2,
    PersistedGraphTerminalSessionProjectionV2, PersistedTerminalReceiptV1,
    PersistedTerminalResultV1,
};
use vstd::prelude::*;

verus! {

/// Whether the graph session of a receipt and the result of its job tell of the same change: of the
/// same revision, and of the same session where the response to the job names it.
pub open spec fn graph_receipt_is_coherent(
    receipt: PersistedTerminalReceiptV1,
    graph: PersistedGraphTerminalSessionProjectionV2,
) -> bool {
    &&& receipt.graph_session_projection == Some(graph)
    &&& match receipt.result {
        PersistedTerminalResultV1::Success(
            PersistedDomainResultV1::SessionChanged { session_id, revision_after, .. },
        ) => revision_after == graph.revision_after && (graph.operation is None ==> session_id@
            == graph.session_id@),
        PersistedTerminalResultV1::Success(
            PersistedDomainResultV1::ItemChanged { item_id, revision_after, .. },
        ) => revision_after == graph.revision_after && (graph.operation matches Some(
            PersistedGraphTerminalOperationV2::ItemMutation { item_id: mutated, .. },
        ) ==> mutated@ == item_id@),
        _ => false,
    }
    &&& match graph.operation {
        Some(PersistedGraphTerminalOperationV2::Reset { session_id }) => session_id@
            == graph.session_id@,
        Some(PersistedGraphTerminalOperationV2::GoalDefine { record }) => json::record_of(
            json::json_tree(record),
        ) matches Some(goal) && keeps_goal(
            receipt,
            graph.revision_after,
            "podway.goal-definition-result/v1"@,
            goal,
        ),
        Some(PersistedGraphTerminalOperationV2::GoalRevise { record }) => json::record_of(
            json::json_tree(record),
        ) matches Some(goal) && keeps_goal(
            receipt,
            graph.revision_after,
            "podway.goal-revision-result/v1"@,
            goal,
        ),
        _ => true,
    }
}

/// Whether a goal does not contradict the schema, the admission or the revision that its result
/// tells under the goal's own members.
pub open spec fn keeps_goal(
    receipt: PersistedTerminalReceiptV1,
    revision: u64,
    schema: Seq<char>,
    goal: Members,
) -> bool {
    &&& goal.dom().contains("schema"@) ==> goal["schema"@] == json::JsonTreeV1::Text(schema)
    &&& goal.dom().contains("admission"@) ==> goal["admission"@] == json::JsonTreeV1::Record(
        graph_envelope::admission_members(receipt),
    )
    &&& goal.dom().contains("revision"@) ==> goal["revision"@] == json::JsonTreeV1::Unsigned(
        revision,
    )
}

/// Whether a document is a response of the second version, written out: it says which request and
/// which command it answers, and for which workspace.
pub open spec fn is_written_output(
    document: json::JsonTreeV1,
    output: OutputEnvelopeInputV2,
) -> bool {
    document matches json::JsonTreeV1::Record(members) && output.workspace matches Some(workspace)
        && {
        &&& frozen::says_text(members, "schema"@, "podway.output/v2"@)
        &&& frozen::says_text(members, "request_id"@, output.request_id@)
        &&& frozen::says_text(members, "command"@, output.command@)
        &&& json::member(members, "workspace"@) == Some(
            json::JsonTreeV1::Record(
                graph_envelope::with_unsigned(
                    graph_envelope::with_text(
                        graph_envelope::with_text(
                            json::no_members(),
                            "uuid"@,
                            workspace.uuid@,
                        ),
                        "root"@,
                        workspace.root@,
                    ),
                    "latest_workspace_sequence"@,
                    workspace.latest_workspace_sequence,
                ),
            ),
        )
    }
}

/// What a response reads back as.
pub open spec fn read_back(output: OutputEnvelopeInputV2) -> DecodedResponseV2 {
    DecodedResponseV2::OutputV2 {
        command: output.command,
        job: output.job,
        generated_at: output.generated_at,
        result: output.result,
    }
}

proof fn admission_is_told(receipt: PersistedTerminalReceiptV1)
    ensures
        frozen::says_bool(graph_envelope::admission_members(receipt), "admitted"@, true),
        frozen::says_text(
            graph_envelope::admission_members(receipt),
            "job_id"@,
            receipt.job.job_id@,
        ),
        frozen::says_unsigned(
            graph_envelope::admission_members(receipt),
            "workspace_sequence"@,
            receipt.job.identity_sequence,
        ),
{
    reveal_strlit("admitted");
    reveal_strlit("job_id");
    reveal_strlit("workspace_sequence");
    assert("admitted"@.len() == 8
        && "job_id"@.len() == 6
        && "workspace_sequence"@.len() == 18);
}

/// Whether a result tells of the admission of its receipt's job.
pub open spec fn tells_admission(receipt: PersistedTerminalReceiptV1, members: Members) -> bool {
    json::member(members, "admission"@) == Some(
        json::JsonTreeV1::Record(graph_envelope::admission_members(receipt)),
    )
}

proof fn start_is_accepted(
    receipt: PersistedTerminalReceiptV1,
    graph: PersistedGraphTerminalSessionProjectionV2,
)
    requires
        graph_receipt_is_coherent(receipt, graph),
        graph.operation is None,
        receipt.result matches PersistedTerminalResultV1::Success(
            PersistedDomainResultV1::SessionChanged { .. },
        ),
    ensures
        frozen::frozen_result_agrees(receipt, graph_envelope::start_members(receipt, graph)),
        tells_admission(receipt, graph_envelope::start_members(receipt, graph)),
{
    reveal_strlit("schema");
    reveal_strlit("procedure_schema");
    reveal_strlit("procedure_digest");
    reveal_strlit("dry_run");
    reveal_strlit("goal_tracking");
    reveal_strlit("goal_defined");
    reveal_strlit("admission");
    reveal_strlit("session_id");
    reveal_strlit("revision");
    reveal_strlit("entry_graph_node_id");
    assert("schema"@.len() == 6
        && "procedure_schema"@.len() == 16
        && "procedure_digest"@.len() == 16
        && "dry_run"@.len() == 7
        && "goal_tracking"@.len() == 13
        && "goal_defined"@.len() == 12
        && "admission"@.len() == 9
        && "session_id"@.len() == 10
        && "revision"@.len() == 8
        && "entry_graph_node_id"@.len() == 19);
    assert("procedure_schema"@[10] != "procedure_digest"@[10]);
}

proof fn decision_is_accepted(
    receipt: PersistedTerminalReceiptV1,
    graph: PersistedGraphTerminalSessionProjectionV2,
    members: Members,
)
    requires
        graph_receipt_is_coherent(receipt, graph),
        receipt.result matches PersistedTerminalResultV1::Success(
            PersistedDomainResultV1::SessionChanged { .. },
        ),
        graph.operation matches Some(operation) && operation is Decide
            && graph_envelope::operation_is_sound(receipt, graph, operation)
            && graph_envelope::operation_members(receipt, graph, operation) == Some(members),
    ensures
        frozen::frozen_result_agrees(receipt, members),
        tells_admission(receipt, members),
{
    reveal_strlit("podway.decision-result/v1");
    reveal_strlit("podway.session-start-result/v2");
    reveal_strlit("schema");
    reveal_strlit("admission");
    reveal_strlit("graph_node_id");
    reveal_strlit("attempt_id");
    reveal_strlit("attempt_number");
    reveal_strlit("option_id");
    reveal_strlit("effect");
    reveal_strlit("target_graph_node_id");
    reveal_strlit("target_attempt_id");
    reveal_strlit("revision");
    reveal_strlit("session_state");
    reveal_strlit("record");
    assert("podway.decision-result/v1"@.len() == 25
        && "podway.session-start-result/v2"@.len() == 30
        && "schema"@.len() == 6
        && "admission"@.len() == 9
        && "graph_node_id"@.len() == 13
        && "attempt_id"@.len() == 10
        && "attempt_number"@.len() == 14
        && "option_id"@.len() == 9
        && "effect"@.len() == 6
        && "target_graph_node_id"@.len() == 20
        && "target_attempt_id"@.len() == 17
        && "revision"@.len() == 8
        && "session_state"@.len() == 13
        && "record"@.len() == 6);
    assert("schema"@[0] != "effect"@[0]);
    assert("schema"@[0] != "record"@[0]);
    assert("admission"@[0] != "option_id"@[0]);
    assert("graph_node_id"@[0] != "session_state"@[0]);
    assert("effect"@[0] != "record"@[0]);
    let names = graph_envelope::decision_names();
    assert(names[0] == "graph_node_id"@ && names[1] == "attempt_id"@ && names[2]
        == "attempt_number"@ && names[3] == "option_id"@ && names[4] == "effect"@ && names[5]
        == "target_graph_node_id"@);
}

proof fn rework_is_accepted(
    receipt: PersistedTerminalReceiptV1,
    graph: PersistedGraphTerminalSessionProjectionV2,
    members: Members,
)
    requires
        graph_receipt_is_coherent(receipt, graph),
        receipt.result matches PersistedTerminalResultV1::Success(
            PersistedDomainResultV1::SessionChanged { .. },
        ),
        graph.operation matches Some(operation) && operation is Rework
            && graph_envelope::operation_is_sound(receipt, graph, operation)
            && graph_envelope::operation_members(receipt, graph, operation) == Some(members),
    ensures
        frozen::frozen_result_agrees(receipt, members),
        tells_admission(receipt, members),
{
    reveal_strlit("podway.rework-result/v1");
    reveal_strlit("podway.decision-result/v1");
    reveal_strlit("podway.session-start-result/v2");
    reveal_strlit("schema");
    reveal_strlit("admission");
    reveal_strlit("from_graph_node_id");
    reveal_strlit("to_graph_node_id");
    reveal_strlit("target_attempt_id");
    reveal_strlit("reason");
    reveal_strlit("reactivated");
    reveal_strlit("revision");
    assert("podway.rework-result/v1"@.len() == 23
        && "podway.decision-result/v1"@.len() == 25
        && "podway.session-start-result/v2"@.len() == 30
        && "schema"@.len() == 6
        && "admission"@.len() == 9
        && "from_graph_node_id"@.len() == 18
        && "to_graph_node_id"@.len() == 16
        && "target_attempt_id"@.len() == 17
        && "reason"@.len() == 6
        && "reactivated"@.len() == 11
        && "revision"@.len() == 8);
    assert("schema"@[0] != "reason"@[0]);
    let names = graph_envelope::rework_names();
    assert(names[0] == "from_graph_node_id"@ && names[1] == "to_graph_node_id"@ && names[2]
        == "target_attempt_id"@ && names[3] == "reason"@ && names[4] == "reactivated"@);
    assert(json::no_members().dom().finite() && json::no_members().dom().len() == 0);
}

proof fn goal_is_accepted(
    receipt: PersistedTerminalReceiptV1,
    graph: PersistedGraphTerminalSessionProjectionV2,
    members: Members,
)
    requires
        graph_receipt_is_coherent(receipt, graph),
        receipt.result matches PersistedTerminalResultV1::Success(
            PersistedDomainResultV1::SessionChanged { .. },
        ),
        graph.operation matches Some(operation) && (operation is GoalDefine
            || operation is GoalRevise) && graph_envelope::operation_members(
            receipt,
            graph,
            operation,
        ) == Some(members),
    ensures
        frozen::frozen_result_agrees(receipt, members),
        tells_admission(receipt, members),
{
    reveal_strlit("schema");
    reveal_strlit("admission");
    reveal_strlit("revision");
    reveal_strlit("podway.session-start-result/v2");
    reveal_strlit("podway.decision-result/v1");
    reveal_strlit("podway.rework-result/v1");
    reveal_strlit("podway.stage-transition-result/v2");
    reveal_strlit("podway.goal-definition-result/v1");
    reveal_strlit("podway.criterion-assessment-result/v1");
    reveal_strlit("podway.goal-revision-result/v1");
    assert("schema"@.len() == 6
        && "admission"@.len() == 9
        && "revision"@.len() == 8
        && "podway.session-start-result/v2"@.len() == 30
        && "podway.decision-result/v1"@.len() == 25
        && "podway.rework-result/v1"@.len() == 23
        && "podway.stage-transition-result/v2"@.len() == 33
        && "podway.goal-definition-result/v1"@.len() == 32
        && "podway.criterion-assessment-result/v1"@.len() == 37
        && "podway.goal-revision-result/v1"@.len() == 30);
    assert("podway.session-start-result/v2"@[7] != "podway.goal-revision-result/v1"@[7]);
}

proof fn assessment_is_accepted(
    receipt: PersistedTerminalReceiptV1,
    graph: PersistedGraphTerminalSessionProjectionV2,
    members: Members,
)
    requires
        graph_receipt_is_coherent(receipt, graph),
        receipt.result matches PersistedTerminalResultV1::Success(
            PersistedDomainResultV1::SessionChanged { .. },
        ),
        graph.operation matches Some(operation) && operation is GoalAssessCriterion
            && graph_envelope::operation_is_sound(receipt, graph, operation)
            && graph_envelope::operation_members(receipt, graph, operation) == Some(members),
    ensures
        frozen::frozen_result_agrees(receipt, members),
        tells_admission(receipt, members),
{
    reveal_strlit("podway.session-start-result/v2");
    reveal_strlit("podway.decision-result/v1");
    reveal_strlit("podway.rework-result/v1");
    reveal_strlit("podway.stage-transition-result/v2");
    reveal_strlit("podway.goal-definition-result/v1");
    reveal_strlit("podway.criterion-assessment-result/v1");
    reveal_strlit("schema");
    reveal_strlit("admission");
    reveal_strlit("graph_node_id");
    reveal_strlit("attempt_id");
    reveal_strlit("goal_revision");
    reveal_strlit("mode");
    reveal_strlit("result");
    reveal_strlit("complete");
    reveal_strlit("revision");
    reveal_strlit("determined_outcome");
    reveal_strlit("citations");
    reveal_strlit("criterion_id");
    reveal_strlit("status");
    reveal_strlit("reason");
    assert("podway.session-start-result/v2"@.len() == 30
        && "podway.decision-result/v1"@.len() == 25
        && "podway.rework-result/v1"@.len() == 23
        && "podway.stage-transition-result/v2"@.len() == 33
        && "podway.goal-definition-result/v1"@.len() == 32
        && "podway.criterion-assessment-result/v1"@.len() == 37
        && "schema"@.len() == 6
        && "admission"@.len() == 9
        && "graph_node_id"@.len() == 13
        && "attempt_id"@.len() == 10
        && "goal_revision"@.len() == 13
        && "mode"@.len() == 4
        && "result"@.len() == 6
        && "complete"@.len() == 8
        && "revision"@.len() == 8
        && "determined_outcome"@.len() == 18
        && "citations"@.len() == 9
        && "criterion_id"@.len() == 12
        && "status"@.len() == 6
        && "reason"@.len() == 6);
    assert("schema"@[0] != "result"@[0]);
    assert("schema"@[1] != "status"@[1]);
    assert("schema"@[0] != "reason"@[0]);
    assert("admission"@[0] != "citations"@[0]);
    assert("graph_node_id"@[1] != "goal_revision"@[1]);
    assert("result"@[0] != "status"@[0]);
    assert("result"@[2] != "reason"@[2]);
    assert("complete"@[0] != "revision"@[0]);
    assert("status"@[0] != "reason"@[0]);
    let names = graph_envelope::assessment_names();
    assert(names[0] == "graph_node_id"@ && names[1] == "attempt_id"@ && names[2]
        == "goal_revision"@ && names[3] == "mode"@ && names[4] == "complete"@);
    let record = graph.operation->Some_0->GoalAssessCriterion_record;
    let assessment = json::record_of(json::json_tree(record))->Some_0;
    let part = graph_envelope::assessment_part(assessment)->Some_0;
    let stored = json::list_of(json::member(part, "citations"@))->Some_0;
    let shown = graph_envelope::public_citations(stored)->Some_0;
    assert forall|i: int| 0 <= i < stored.len() implies frozen::citation_agrees(
        #[trigger] stored[i],
        shown[i],
    ) by {
        assert(failures::public_citation(stored[i]) is Some);
    }
}

proof fn transition_is_accepted(
    receipt: PersistedTerminalReceiptV1,
    graph: PersistedGraphTerminalSessionProjectionV2,
    members: Members,
)
    requires
        graph_receipt_is_coherent(receipt, graph),
        receipt.result matches PersistedTerminalResultV1::Success(
            PersistedDomainResultV1::SessionChanged { .. },
        ),
        graph.operation matches Some(operation) && (operation is Complete || operation is Skip
            || operation is Retry || operation is Block || operation is Unblock
            || operation is Cancel || operation is Reset) && graph_envelope::operation_is_sound(
            receipt,
            graph,
            operation,
        ) && graph_envelope::operation_members(receipt, graph, operation) == Some(members),
    ensures
        frozen::frozen_result_agrees(receipt, members),
        tells_admission(receipt, members),
{
    reveal_strlit("podway.session-start-result/v2");
    reveal_strlit("podway.decision-result/v1");
    reveal_strlit("podway.rework-result/v1");
    reveal_strlit("podway.stage-transition-result/v2");
    reveal_strlit("schema");
    reveal_strlit("admission");
    reveal_strlit("transition");
    reveal_strlit("from_graph_node_id");
    reveal_strlit("from_attempt_id");
    reveal_strlit("to_graph_node_id");
    reveal_strlit("to_attempt_id");
    reveal_strlit("reason");
    reveal_strlit("blocker_id");
    reveal_strlit("all");
    reveal_strlit("reset");
    reveal_strlit("revision");
    reveal_strlit("session_state");
    assert("podway.session-start-result/v2"@.len() == 30
        && "podway.decision-result/v1"@.len() == 25
        && "podway.rework-result/v1"@.len() == 23
        && "podway.stage-transition-result/v2"@.len() == 33
        && "schema"@.len() == 6
        && "admission"@.len() == 9
        && "transition"@.len() == 10
        && "from_graph_node_id"@.len() == 18
        && "from_attempt_id"@.len() == 15
        && "to_graph_node_id"@.len() == 16
        && "to_attempt_id"@.len() == 13
        && "reason"@.len() == 6
        && "blocker_id"@.len() == 10
        && "all"@.len() == 3
        && "reset"@.len() == 5
        && "revision"@.len() == 8
        && "session_state"@.len() == 13);
    assert("schema"@[0] != "reason"@[0]);
    assert("transition"@[0] != "blocker_id"@[0]);
    assert("to_attempt_id"@[0] != "session_state"@[0]);
}

proof fn item_mutation_is_accepted(
    receipt: PersistedTerminalReceiptV1,
    graph: PersistedGraphTerminalSessionProjectionV2,
    members: Members,
)
    requires
        graph_receipt_is_coherent(receipt, graph),
        graph.operation matches Some(operation) && operation is ItemMutation
            && graph_envelope::operation_is_sound(receipt, graph, operation)
            && graph_envelope::operation_members(receipt, graph, operation) == Some(members),
    ensures
        frozen::frozen_result_agrees(receipt, members),
        tells_admission(receipt, members),
{
    reveal_strlit("schema");
    reveal_strlit("admission");
    reveal_strlit("changed");
    reveal_strlit("graph_node_id");
    reveal_strlit("attempt_id");
    reveal_strlit("attempt_number");
    reveal_strlit("item_id");
    reveal_strlit("revision");
    reveal_strlit("value_digest");
    assert("schema"@.len() == 6
        && "admission"@.len() == 9
        && "changed"@.len() == 7
        && "graph_node_id"@.len() == 13
        && "attempt_id"@.len() == 10
        && "attempt_number"@.len() == 14
        && "item_id"@.len() == 7
        && "revision"@.len() == 8
        && "value_digest"@.len() == 12);
    assert("changed"@[0] != "item_id"@[0]);
}

/// A response that is sealed into the receipt of a graph session's job is accepted when the receipt
/// is read back, for every operation that a graph session records: if the receipt is coherent, and
/// the response was made for the command that the receipt knows, then holding the written response
/// against the receipt refuses nothing.
pub proof fn a_sealed_response_is_accepted(
    receipt: PersistedTerminalReceiptV1,
    graph: PersistedGraphTerminalSessionProjectionV2,
    output: OutputEnvelopeInputV2,
    document: json::JsonTreeV1,
    evidence: FrozenEnvelopeEvidenceV1,
)
    requires
        graph_receipt_is_coherent(receipt, graph),
        terminal::receipt_projection_agrees(receipt, failures::TerminalCommandKindV1::Other),
        receipt.lookup_command matches Some(command) && output.command@ == receipts::command_name(
            command,
        )@,
        graph_envelope::is_graph_envelope(
            receipt,
            Ok::<GraphTerminalEnvelopeV2, DispatchFailureV1>(
                GraphTerminalEnvelopeV2::Output(output),
            ),
        ),
        is_written_output(document, output),
        evidence.decoded == read_back(output),
    ensures
        terminal::frozen_verdict(receipt, document, evidence) == Ok::<(), DispatchFailureV1>(()),
{
    let members = json::json_members(output.result);
    admission_is_told(receipt);
    match graph.operation {
        None => {
            start_is_accepted(receipt, graph);
        },
        Some(operation) => {
            if operation is Decide {
                decision_is_accepted(receipt, graph, members);
            } else if operation is Rework {
                rework_is_accepted(receipt, graph, members);
            } else if operation is GoalDefine || operation is GoalRevise {
                goal_is_accepted(receipt, graph, members);
            } else if operation is GoalAssessCriterion {
                assessment_is_accepted(receipt, graph, members);
            } else if operation is ItemMutation {
                item_mutation_is_accepted(receipt, graph, members);
            } else if !(operation is Failure) {
                transition_is_accepted(receipt, graph, members);
            }
        },
    }
    reveal_strlit("podway.output/v1");
    reveal_strlit("podway.output/v2");
    assert("podway.output/v1"@[15] != "podway.output/v2"@[15]);
}

} // verus!
