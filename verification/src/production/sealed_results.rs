//! What the sealed response of a graph session's job tells, by what the job's receipt holds.

use crate::civil_time;
use crate::dispatch::JobOutputV1;
use crate::json;
use crate::json::JsonTreeV1;
use crate::production::failures;
use crate::production::frozen::Members;
use crate::production::graph_envelope;
use crate::production::graph_envelope::{GraphTerminalEnvelopeV2, OutputEnvelopeInputV2};
use crate::production::receipts;
use crate::production::terminal::{
    seal_terminal_receipt_v1, FrozenEnvelopeEvidenceV1, SealedTerminalResponseV1,
};
use crate::store::{
    PersistedDomainResultV1, PersistedGraphTerminalOperationV2,
    PersistedGraphTerminalSessionProjectionV2, PersistedTerminalReceiptV1,
    PersistedTerminalResultV1, StoreErrorV1,
};
use vstd::prelude::*;

verus! {

/// The last millisecond of the year 9999.
pub const LAST_MILLISECOND: u64 = 253402300799999;

/// Whether the job of a receipt can be shown to the request that asked for it: the receipt knows the
/// request, and how and when its job ended, by instants that have a timestamp.
pub open spec fn is_answerable(receipt: PersistedTerminalReceiptV1) -> bool {
    receipt.response_context is Some && (receipt.job_projection matches Some(projection) && {
        &&& projection.submitted_at <= LAST_MILLISECOND
        &&& projection.claimed_at matches Some(claimed_at) ==> claimed_at <= LAST_MILLISECOND
        &&& projection.finished_at <= LAST_MILLISECOND
    })
}

/// Whether a job is shown as its receipt holds it.
pub open spec fn shows_job(receipt: PersistedTerminalReceiptV1, job: JobOutputV1) -> bool {
    receipt.job_projection matches Some(projection) && {
        &&& job.id@ == receipt.job.job_id@
        &&& job.sequence == receipt.job.identity_sequence
        &&& job.state is Succeeded <==> projection.state is Succeeded
        &&& job.state is Failed <==> projection.state is Failed
        &&& job.state is Cancelled <==> projection.state is Cancelled
        &&& job.submitted_at@ == civil_time::timestamp(projection.submitted_at as nat)
        &&& match (job.claimed_at, projection.claimed_at) {
            (Some(shown), Some(claimed_at)) => shown@ == civil_time::timestamp(claimed_at as nat),
            (None, None) => true,
            _ => false,
        }
        &&& job.finished_at matches Some(shown) && shown@ == civil_time::timestamp(
            projection.finished_at as nat,
        )
    }
}

/// Whether a response answers the request of a receipt, for its workspace, with its job, dated by the
/// end of the job.
pub open spec fn answers_request(
    receipt: PersistedTerminalReceiptV1,
    output: OutputEnvelopeInputV2,
) -> bool {
    receipt.response_context matches Some(context) && {
        &&& output.request_id@ == context.request_id@
        &&& output.command@ == context.command@
        &&& output.workspace matches Some(workspace) && workspace.uuid@ == context.workspace_uuid@
            && workspace.root@ == context.workspace_root@ && workspace.latest_workspace_sequence
            == context.workspace_sequence
        &&& output.job matches Some(job) && shows_job(receipt, job) && (job.finished_at matches Some(
            finished_at,
        ) && output.generated_at@ == finished_at@)
        &&& output.session is None
    }
}

/// Whether members tell a text under a name.
pub open spec fn tells_text(members: Members, name: Seq<char>, text: Seq<char>) -> bool {
    json::member(members, name) == Some(JsonTreeV1::Text(text))
}

/// Whether members tell a text under a name where there is one, and nothing under it otherwise.
pub open spec fn tells_optional(members: Members, name: Seq<char>, text: Option<String>) -> bool {
    match text {
        Some(text) => tells_text(members, name, text@),
        None => json::member(members, name) is None,
    }
}

/// Whether members tell a number under a name.
pub open spec fn tells_number(members: Members, name: Seq<char>, number: u64) -> bool {
    json::member(members, name) == Some(JsonTreeV1::Unsigned(number))
}

/// Whether members tell a truth value under a name.
pub open spec fn tells_bool(members: Members, name: Seq<char>, value: bool) -> bool {
    json::member(members, name) == Some(JsonTreeV1::Bool(value))
}

/// Whether members tell that the job of a receipt was admitted, and where in its workspace.
pub open spec fn tells_admission_of(
    receipt: PersistedTerminalReceiptV1,
    members: Members,
) -> bool {
    json::member(members, "admission"@) matches Some(JsonTreeV1::Record(admission)) && {
        &&& tells_bool(admission, "admitted"@, true)
        &&& tells_text(admission, "job_id"@, receipt.job.job_id@)
        &&& tells_number(admission, "workspace_sequence"@, receipt.job.identity_sequence)
    }
}

/// Whether a response was sealed that answers the request of a receipt and tells the given members.
pub open spec fn is_sealed_with(
    receipt: PersistedTerminalReceiptV1,
    sealed: Result<SealedTerminalResponseV1, StoreErrorV1>,
    members: Members,
) -> bool {
    sealed matches Ok(SealedTerminalResponseV1::Graph(GraphTerminalEnvelopeV2::Output(output)))
        && answers_request(receipt, output) && json::json_members(output.result) == members
        && tells_admission_of(receipt, members)
}

/// The members of the result that was sealed.
pub open spec fn sealed_members(sealed: Result<SealedTerminalResponseV1, StoreErrorV1>) -> Members {
    match sealed {
        Ok(SealedTerminalResponseV1::Graph(GraphTerminalEnvelopeV2::Output(output))) =>
            json::json_members(output.result),
        _ => json::no_members(),
    }
}

proof fn an_answerable_job_is_shown(receipt: PersistedTerminalReceiptV1)
    ensures
        is_answerable(receipt) <==> receipt.response_context is Some
            && receipts::terminal_output_failure(receipt) is None,
{
    match receipt.job_projection {
        Some(projection) => {
            civil_time::an_instant_has_a_timestamp_until_the_year_ten_thousand(
                projection.submitted_at as nat,
            );
            civil_time::an_instant_has_a_timestamp_until_the_year_ten_thousand(
                projection.finished_at as nat,
            );
            match projection.claimed_at {
                Some(claimed_at) => {
                    civil_time::an_instant_has_a_timestamp_until_the_year_ten_thousand(
                        claimed_at as nat,
                    );
                },
                None => {},
            }
        },
        None => {},
    }
}

proof fn what_is_sealed(
    receipt: PersistedTerminalReceiptV1,
    graph: PersistedGraphTerminalSessionProjectionV2,
    evidence: FrozenEnvelopeEvidenceV1,
    sealed: Result<SealedTerminalResponseV1, StoreErrorV1>,
)
    requires
        call_ensures(seal_terminal_receipt_v1, (&receipt, evidence), sealed),
        is_answerable(receipt),
        receipt.graph_session_projection == Some(graph),
        graph.operation matches Some(operation) ==> !(operation is Failure),
    ensures
        match graph.operation {
            None => is_sealed_graph(receipt, sealed, graph_envelope::start_members(receipt, graph)),
            Some(operation) => if graph_envelope::operation_is_sound(receipt, graph, operation) {
                match graph_envelope::operation_members(receipt, graph, operation) {
                    Some(members) => is_sealed_graph(receipt, sealed, members),
                    None => sealed is Err,
                }
            } else {
                sealed is Err
            },
        },
{
    an_answerable_job_is_shown(receipt);
}

spec fn is_sealed_graph(
    receipt: PersistedTerminalReceiptV1,
    sealed: Result<SealedTerminalResponseV1, StoreErrorV1>,
    members: Members,
) -> bool {
    sealed matches Ok(SealedTerminalResponseV1::Graph(GraphTerminalEnvelopeV2::Output(output)))
        && answers_request(receipt, output) && json::json_members(output.result) == members
}

proof fn admission_members_tell(receipt: PersistedTerminalReceiptV1)
    ensures
        tells_bool(graph_envelope::admission_members(receipt), "admitted"@, true),
        tells_text(
            graph_envelope::admission_members(receipt),
            "job_id"@,
            receipt.job.job_id@,
        ),
        tells_number(
            graph_envelope::admission_members(receipt),
            "workspace_sequence"@,
            receipt.job.identity_sequence,
        ),
{
    reveal_strlit("admitted");
    reveal_strlit("job_id");
    reveal_strlit("workspace_sequence");
    assert("admitted"@.len() == 8
        && "job_id"@.len() == 6
        && "workspace_sequence"@.len() == 18);
}

/// What every transition tells: its name, where it starts from, the revision and the state of the
/// session, and that the job was admitted.
pub open spec fn tells_transition(
    receipt: PersistedTerminalReceiptV1,
    graph: PersistedGraphTerminalSessionProjectionV2,
    members: Members,
    transition: Seq<char>,
    from_graph_node_id: Seq<char>,
    from_attempt_id: Seq<char>,
    session_state: Seq<char>,
) -> bool {
    &&& tells_text(members, "schema"@, "podway.stage-transition-result/v2"@)
    &&& tells_text(members, "transition"@, transition)
    &&& tells_text(members, "from_graph_node_id"@, from_graph_node_id)
    &&& tells_text(members, "from_attempt_id"@, from_attempt_id)
    &&& tells_number(members, "revision"@, graph.revision_after)
    &&& tells_text(members, "session_state"@, session_state)
    &&& tells_admission_of(receipt, members)
}

proof fn transition_literals()
    ensures
        "schema"@.len() == 6,
        "admission"@.len() == 9,
        "transition"@.len() == 10,
        "from_graph_node_id"@.len() == 18,
        "from_attempt_id"@.len() == 15,
        "to_graph_node_id"@.len() == 16,
        "to_attempt_id"@.len() == 13,
        "reason"@.len() == 6,
        "blocker_id"@.len() == 10,
        "all"@.len() == 3,
        "reset"@.len() == 5,
        "revision"@.len() == 8,
        "session_state"@.len() == 13,
        "schema"@ != "reason"@,
        "transition"@ != "blocker_id"@,
        "to_attempt_id"@ != "session_state"@,
{
    reveal_strlit("schema");
    reveal_strlit("admission");
    reveal_strlit("transition");
    reveal_strlit("from_graph_node_id");
    reveal_strlit("from_attempt_id");
    reveal_strlit("to_graph_node_id");
    reveal_strlit("to_attempt_id");
    reveal_strlit("reason");
    reveal_strlit("blocker_id");
    reveal_strlit("all");
    reveal_strlit("reset");
    reveal_strlit("revision");
    reveal_strlit("session_state");
    assert("schema"@[0] != "reason"@[0]);
    assert("transition"@[0] != "blocker_id"@[0]);
    assert("to_attempt_id"@[0] != "session_state"@[0]);
}

/// The completion of a node is sealed exactly if the session goes on at a successor that is named in
/// full, or is completed and names none: the last node of a session too. What is sealed tells where it
/// came from, where it leads to if it leads anywhere, and that the session is running or completed.
pub proof fn a_completed_node_is_sealed(
    receipt: PersistedTerminalReceiptV1,
    graph: PersistedGraphTerminalSessionProjectionV2,
    from_graph_node_id: String,
    from_attempt_id: String,
    to_graph_node_id: Option<String>,
    to_attempt_id: Option<String>,
    evidence: FrozenEnvelopeEvidenceV1,
    sealed: Result<SealedTerminalResponseV1, StoreErrorV1>,
)
    requires
        call_ensures(seal_terminal_receipt_v1, (&receipt, evidence), sealed),
        is_answerable(receipt),
        receipt.graph_session_projection == Some(graph),
        graph.operation == Some(
            (PersistedGraphTerminalOperationV2::Complete {
                from_graph_node_id,
                from_attempt_id,
                to_graph_node_id,
                to_attempt_id,
            }),
        ),
    ensures
        sealed is Ok <==> {
            ||| graph.lifecycle is Running && to_graph_node_id is Some && to_attempt_id is Some
            ||| graph.lifecycle is Completed && to_graph_node_id is None && to_attempt_id is None
        },
        sealed is Ok ==> ({
            let members = sealed_members(sealed);
            &&& is_sealed_with(receipt, sealed, members)
            &&& tells_transition(
                receipt,
                graph,
                members,
                "complete"@,
                from_graph_node_id@,
                from_attempt_id@,
                if graph.lifecycle is Running {
                    "running"@
                } else {
                    "completed"@
                },
            )
            &&& tells_optional(members, "to_graph_node_id"@, to_graph_node_id)
            &&& tells_optional(members, "to_attempt_id"@, to_attempt_id)
            &&& json::member(members, "reason"@) is None
        }),
{
    what_is_sealed(receipt, graph, evidence, sealed);
    admission_members_tell(receipt);
    transition_literals();
}

/// A skipped node is sealed as a completed one is, with the reason where one was given.
pub proof fn a_skipped_node_is_sealed(
    receipt: PersistedTerminalReceiptV1,
    graph: PersistedGraphTerminalSessionProjectionV2,
    from_graph_node_id: String,
    from_attempt_id: String,
    to_graph_node_id: Option<String>,
    to_attempt_id: Option<String>,
    reason: Option<String>,
    evidence: FrozenEnvelopeEvidenceV1,
    sealed: Result<SealedTerminalResponseV1, StoreErrorV1>,
)
    requires
        call_ensures(seal_terminal_receipt_v1, (&receipt, evidence), sealed),
        is_answerable(receipt),
        receipt.graph_session_projection == Some(graph),
        graph.operation == Some(
            (PersistedGraphTerminalOperationV2::Skip {
                from_graph_node_id,
                from_attempt_id,
                to_graph_node_id,
                to_attempt_id,
                reason,
            }),
        ),
    ensures
        sealed is Ok <==> {
            ||| graph.lifecycle is Running && to_graph_node_id is Some && to_attempt_id is Some
            ||| graph.lifecycle is Completed && to_graph_node_id is None && to_attempt_id is None
        },
        sealed is Ok ==> ({
            let members = sealed_members(sealed);
            &&& is_sealed_with(receipt, sealed, members)
            &&& tells_transition(
                receipt,
                graph,
                members,
                "skip"@,
                from_graph_node_id@,
                from_attempt_id@,
                if graph.lifecycle is Running {
                    "running"@
                } else {
                    "completed"@
                },
            )
            &&& tells_optional(members, "to_graph_node_id"@, to_graph_node_id)
            &&& tells_optional(members, "to_attempt_id"@, to_attempt_id)
            &&& tells_optional(members, "reason"@, reason)
        }),
{
    what_is_sealed(receipt, graph, evidence, sealed);
    admission_members_tell(receipt);
    transition_literals();
}

/// A retry is sealed exactly if the session is running and the attempt is another one. It leads from
/// one attempt at a node to another at the same node, for its reason.
pub proof fn a_retry_is_sealed(
    receipt: PersistedTerminalReceiptV1,
    graph: PersistedGraphTerminalSessionProjectionV2,
    graph_node_id: String,
    from_attempt_id: String,
    to_attempt_id: String,
    reason: String,
    evidence: FrozenEnvelopeEvidenceV1,
    sealed: Result<SealedTerminalResponseV1, StoreErrorV1>,
)
    requires
        call_ensures(seal_terminal_receipt_v1, (&receipt, evidence), sealed),
        is_answerable(receipt),
        receipt.graph_session_projection == Some(graph),
        graph.operation == Some(
            (PersistedGraphTerminalOperationV2::Retry {
                graph_node_id,
                from_attempt_id,
                to_attempt_id,
                reason,
            }),
        ),
    ensures
        sealed is Ok <==> graph.lifecycle is Running && from_attempt_id@ != to_attempt_id@,
        sealed is Ok ==> ({
            let members = sealed_members(sealed);
            &&& is_sealed_with(receipt, sealed, members)
            &&& tells_transition(
                receipt,
                graph,
                members,
                "retry"@,
                graph_node_id@,
                from_attempt_id@,
                "running"@,
            )
            &&& tells_text(members, "to_graph_node_id"@, graph_node_id@)
            &&& tells_text(members, "to_attempt_id"@, to_attempt_id@)
            &&& tells_text(members, "reason"@, reason@)
        }),
{
    what_is_sealed(receipt, graph, evidence, sealed);
    admission_members_tell(receipt);
    transition_literals();
}

/// A block is sealed exactly if the session is running, with its blocker and its reason.
pub proof fn a_block_is_sealed(
    receipt: PersistedTerminalReceiptV1,
    graph: PersistedGraphTerminalSessionProjectionV2,
    graph_node_id: String,
    attempt_id: String,
    blocker_id: String,
    reason: String,
    evidence: FrozenEnvelopeEvidenceV1,
    sealed: Result<SealedTerminalResponseV1, StoreErrorV1>,
)
    requires
        call_ensures(seal_terminal_receipt_v1, (&receipt, evidence), sealed),
        is_answerable(receipt),
        receipt.graph_session_projection == Some(graph),
        graph.operation == Some(
            (PersistedGraphTerminalOperationV2::Block {
                graph_node_id,
                attempt_id,
                blocker_id,
                reason,
            }),
        ),
    ensures
        sealed is Ok <==> graph.lifecycle is Running,
        sealed is Ok ==> ({
            let members = sealed_members(sealed);
            &&& is_sealed_with(receipt, sealed, members)
            &&& tells_transition(
                receipt,
                graph,
                members,
                "block"@,
                graph_node_id@,
                attempt_id@,
                "running"@,
            )
            &&& tells_text(members, "blocker_id"@, blocker_id@)
            &&& tells_text(members, "reason"@, reason@)
        }),
{
    what_is_sealed(receipt, graph, evidence, sealed);
    admission_members_tell(receipt);
    transition_literals();
}

/// An unblock is sealed exactly if the session is running and it unblocked everything or a single
/// blocker, and tells which of the two.
pub proof fn an_unblock_is_sealed(
    receipt: PersistedTerminalReceiptV1,
    graph: PersistedGraphTerminalSessionProjectionV2,
    graph_node_id: String,
    attempt_id: String,
    all: bool,
    blocker_ids: Vec<String>,
    evidence: FrozenEnvelopeEvidenceV1,
    sealed: Result<SealedTerminalResponseV1, StoreErrorV1>,
)
    requires
        call_ensures(seal_terminal_receipt_v1, (&receipt, evidence), sealed),
        is_answerable(receipt),
        receipt.graph_session_projection == Some(graph),
        graph.operation == Some(
            (PersistedGraphTerminalOperationV2::Unblock {
                graph_node_id,
                attempt_id,
                all,
                blocker_ids,
            }),
        ),
    ensures
        sealed is Ok <==> graph.lifecycle is Running && (all || blocker_ids@.len() == 1),
        sealed is Ok ==> ({
            let members = sealed_members(sealed);
            &&& is_sealed_with(receipt, sealed, members)
            &&& tells_transition(
                receipt,
                graph,
                members,
                "unblock"@,
                graph_node_id@,
                attempt_id@,
                "running"@,
            )
            &&& if all {
                tells_bool(members, "all"@, true) && json::member(members, "blocker_id"@) is None
            } else {
                tells_text(members, "blocker_id"@, blocker_ids@[0]@) && json::member(
                    members,
                    "all"@,
                ) is None
            }
        }),
{
    what_is_sealed(receipt, graph, evidence, sealed);
    admission_members_tell(receipt);
    transition_literals();
}

/// A cancelled session is sealed exactly if it is cancelled, and tells no reason.
pub proof fn a_cancelled_session_is_sealed(
    receipt: PersistedTerminalReceiptV1,
    graph: PersistedGraphTerminalSessionProjectionV2,
    graph_node_id: String,
    attempt_id: String,
    evidence: FrozenEnvelopeEvidenceV1,
    sealed: Result<SealedTerminalResponseV1, StoreErrorV1>,
)
    requires
        call_ensures(seal_terminal_receipt_v1, (&receipt, evidence), sealed),
        is_answerable(receipt),
        receipt.graph_session_projection == Some(graph),
        graph.operation == Some(
            (PersistedGraphTerminalOperationV2::Cancel { graph_node_id, attempt_id }),
        ),
    ensures
        sealed is Ok <==> graph.lifecycle is Cancelled,
        sealed is Ok ==> ({
            let members = sealed_members(sealed);
            &&& is_sealed_with(receipt, sealed, members)
            &&& tells_transition(
                receipt,
                graph,
                members,
                "cancel"@,
                graph_node_id@,
                attempt_id@,
                "cancelled"@,
            )
            &&& json::member(members, "reason"@) is None
        }),
{
    what_is_sealed(receipt, graph, evidence, sealed);
    admission_members_tell(receipt);
    transition_literals();
}

/// A reset of a session is always sealed, and tells no state that is left.
pub proof fn a_reset_session_is_sealed(
    receipt: PersistedTerminalReceiptV1,
    graph: PersistedGraphTerminalSessionProjectionV2,
    session_id: String,
    evidence: FrozenEnvelopeEvidenceV1,
    sealed: Result<SealedTerminalResponseV1, StoreErrorV1>,
)
    requires
        call_ensures(seal_terminal_receipt_v1, (&receipt, evidence), sealed),
        is_answerable(receipt),
        receipt.graph_session_projection == Some(graph),
        graph.operation == Some((PersistedGraphTerminalOperationV2::Reset { session_id })),
    ensures
        ({
            let members = sealed_members(sealed);
            &&& is_sealed_with(receipt, sealed, members)
            &&& tells_text(members, "schema"@, "podway.stage-transition-result/v2"@)
            &&& tells_text(members, "transition"@, "reset"@)
            &&& tells_bool(members, "reset"@, true)
            &&& tells_number(members, "revision"@, graph.revision_after)
            &&& json::member(members, "session_state"@) is None
        }),
{
    what_is_sealed(receipt, graph, evidence, sealed);
    admission_members_tell(receipt);
    transition_literals();
}

/// A changed item is sealed exactly if its job changed an item or left one as it was, and tells which,
/// and the node, the attempt and the item that the operation names.
pub proof fn a_changed_item_is_sealed(
    receipt: PersistedTerminalReceiptV1,
    graph: PersistedGraphTerminalSessionProjectionV2,
    graph_node_id: String,
    attempt_id: String,
    attempt_number: u64,
    item_id: String,
    value_digest: Option<String>,
    evidence: FrozenEnvelopeEvidenceV1,
    sealed: Result<SealedTerminalResponseV1, StoreErrorV1>,
)
    requires
        call_ensures(seal_terminal_receipt_v1, (&receipt, evidence), sealed),
        is_answerable(receipt),
        receipt.graph_session_projection == Some(graph),
        graph.operation == Some(
            (PersistedGraphTerminalOperationV2::ItemMutation {
                graph_node_id,
                attempt_id,
                attempt_number,
                item_id,
                value_digest,
            }),
        ),
    ensures
        sealed is Ok <==> (receipt.result matches PersistedTerminalResultV1::Success(
            PersistedDomainResultV1::ItemChanged { .. },
        )),
        receipt.result matches PersistedTerminalResultV1::Success(
            PersistedDomainResultV1::ItemChanged { changed, .. },
        ) ==> ({
            let members = sealed_members(sealed);
            &&& is_sealed_with(receipt, sealed, members)
            &&& tells_text(members, "schema"@, "podway.item-mutation-result/v2"@)
            &&& tells_bool(members, "changed"@, changed)
            &&& tells_text(members, "graph_node_id"@, graph_node_id@)
            &&& tells_text(members, "attempt_id"@, attempt_id@)
            &&& tells_number(members, "attempt_number"@, attempt_number)
            &&& tells_text(members, "item_id"@, item_id@)
            &&& tells_number(members, "revision"@, graph.revision_after)
            &&& tells_optional(members, "value_digest"@, value_digest)
        }),
{
    what_is_sealed(receipt, graph, evidence, sealed);
    admission_members_tell(receipt);
    reveal_strlit("schema");
    reveal_strlit("admission");
    reveal_strlit("changed");
    reveal_strlit("graph_node_id");
    reveal_strlit("attempt_id");
    reveal_strlit("attempt_number");
    reveal_strlit("item_id");
    reveal_strlit("revision");
    reveal_strlit("value_digest");
    assert("schema"@.len() == 6 && "admission"@.len() == 9 && "changed"@.len() == 7
        && "graph_node_id"@.len() == 13 && "attempt_id"@.len() == 10 && "attempt_number"@.len()
        == 14 && "item_id"@.len() == 7 && "revision"@.len() == 8 && "value_digest"@.len() == 12);
    assert("changed"@[0] != "item_id"@[0]);
}

/// The start of a session is always sealed, and tells the session, its procedure, its entry and its
/// goal as they are.
pub proof fn a_started_session_is_sealed(
    receipt: PersistedTerminalReceiptV1,
    graph: PersistedGraphTerminalSessionProjectionV2,
    evidence: FrozenEnvelopeEvidenceV1,
    sealed: Result<SealedTerminalResponseV1, StoreErrorV1>,
)
    requires
        call_ensures(seal_terminal_receipt_v1, (&receipt, evidence), sealed),
        is_answerable(receipt),
        receipt.graph_session_projection == Some(graph),
        graph.operation is None,
    ensures
        ({
            let members = sealed_members(sealed);
            &&& is_sealed_with(receipt, sealed, members)
            &&& tells_text(members, "schema"@, "podway.session-start-result/v2"@)
            &&& tells_text(members, "procedure_schema"@, "podway.procedure/v2"@)
            &&& tells_text(members, "procedure_digest"@, graph.procedure_digest@)
            &&& tells_bool(members, "dry_run"@, false)
            &&& tells_bool(members, "goal_tracking"@, graph.goal_tracking)
            &&& tells_bool(members, "goal_defined"@, graph.goal_defined)
            &&& tells_text(members, "session_id"@, graph.session_id@)
            &&& tells_number(members, "revision"@, graph.revision_after)
            &&& tells_text(members, "entry_graph_node_id"@, graph.entry_graph_node_id@)
        }),
{
    what_is_sealed(receipt, graph, evidence, sealed);
    admission_members_tell(receipt);
    reveal_strlit("schema");
    reveal_strlit("procedure_schema");
    reveal_strlit("procedure_digest");
    reveal_strlit("dry_run");
    reveal_strlit("goal_tracking");
    reveal_strlit("goal_defined");
    reveal_strlit("admission");
    reveal_strlit("session_id");
    reveal_strlit("revision");
    reveal_strlit("entry_graph_node_id");
    assert("schema"@.len() == 6 && "procedure_schema"@.len() == 16 && "procedure_digest"@.len()
        == 16 && "dry_run"@.len() == 7 && "goal_tracking"@.len() == 13 && "goal_defined"@.len()
        == 12 && "admission"@.len() == 9 && "session_id"@.len() == 10 && "revision"@.len() == 8
        && "entry_graph_node_id"@.len() == 19);
    assert("procedure_schema"@[10] != "procedure_digest"@[10]);
}

/// A decision is sealed exactly if the session is running and the record of the decision names its
/// node, its attempt, its option, its effect and its target. What is sealed repeats these and the record,
/// and tells the attempt that it leads to.
pub proof fn a_decision_is_sealed(
    receipt: PersistedTerminalReceiptV1,
    graph: PersistedGraphTerminalSessionProjectionV2,
    record: serde_json::Value,
    target_attempt_id: String,
    evidence: FrozenEnvelopeEvidenceV1,
    sealed: Result<SealedTerminalResponseV1, StoreErrorV1>,
)
    requires
        call_ensures(seal_terminal_receipt_v1, (&receipt, evidence), sealed),
        is_answerable(receipt),
        receipt.graph_session_projection == Some(graph),
        graph.operation == Some(
            (PersistedGraphTerminalOperationV2::Decide { record, target_attempt_id }),
        ),
    ensures
        sealed is Ok <==> graph.lifecycle is Running && (json::json_tree(record) matches
            JsonTreeV1::Record(decision) && decision.dom().contains("graph_node_id"@)
            && decision.dom().contains("attempt_id"@) && decision.dom().contains("attempt_number"@)
            && decision.dom().contains("option_id"@) && decision.dom().contains("effect"@)
            && decision.dom().contains("target_graph_node_id"@)),
        sealed is Ok ==> ({
            let members = sealed_members(sealed);
            json::json_tree(record) matches JsonTreeV1::Record(decision) && {
                &&& is_sealed_with(receipt, sealed, members)
                &&& tells_text(members, "schema"@, "podway.decision-result/v1"@)
                &&& json::member(members, "graph_node_id"@) == json::member(
                    decision,
                    "graph_node_id"@,
                )
                &&& json::member(members, "attempt_id"@) == json::member(decision, "attempt_id"@)
                &&& json::member(members, "attempt_number"@) == json::member(
                    decision,
                    "attempt_number"@,
                )
                &&& json::member(members, "option_id"@) == json::member(decision, "option_id"@)
                &&& json::member(members, "effect"@) == json::member(decision, "effect"@)
                &&& json::member(members, "target_graph_node_id"@) == json::member(
                    decision,
                    "target_graph_node_id"@,
                )
                &&& tells_text(members, "target_attempt_id"@, target_attempt_id@)
                &&& tells_number(members, "revision"@, graph.revision_after)
                &&& tells_text(members, "session_state"@, "running"@)
                &&& json::member(members, "record"@) == Some(json::json_tree(record))
            }
        }),
{
    what_is_sealed(receipt, graph, evidence, sealed);
    admission_members_tell(receipt);
    reveal_strlit("schema");
    reveal_strlit("admission");
    reveal_strlit("graph_node_id");
    reveal_strlit("attempt_id");
    reveal_strlit("attempt_number");
    reveal_strlit("option_id");
    reveal_strlit("effect");
    reveal_strlit("target_graph_node_id");
    reveal_strlit("target_attempt_id");
    reveal_strlit("revision");
    reveal_strlit("session_state");
    reveal_strlit("record");
    assert("schema"@.len() == 6 && "admission"@.len() == 9 && "graph_node_id"@.len() == 13
        && "attempt_id"@.len() == 10 && "attempt_number"@.len() == 14 && "option_id"@.len() == 9
        && "effect"@.len() == 6 && "target_graph_node_id"@.len() == 20 && "target_attempt_id"@.len()
        == 17 && "revision"@.len() == 8 && "session_state"@.len() == 13 && "record"@.len() == 6);
    assert("schema"@[0] != "effect"@[0]);
    assert("schema"@[0] != "record"@[0]);
    assert("admission"@[0] != "option_id"@[0]);
    assert("graph_node_id"@[0] != "session_state"@[0]);
    assert("effect"@[0] != "record"@[0]);
    let names = graph_envelope::decision_names();
    assert(names.len() == 6 && names[0] == "graph_node_id"@ && names[1] == "attempt_id"@ && names[2]
        == "attempt_number"@ && names[3] == "option_id"@ && names[4] == "effect"@ && names[5]
        == "target_graph_node_id"@);
}

/// A rework is sealed exactly if the session is running and the record of the rework names where it
/// starts, where it leads to, its reason and whether it reactivated the session. What is sealed repeats
/// these.
pub proof fn a_rework_is_sealed(
    receipt: PersistedTerminalReceiptV1,
    graph: PersistedGraphTerminalSessionProjectionV2,
    record: serde_json::Value,
    evidence: FrozenEnvelopeEvidenceV1,
    sealed: Result<SealedTerminalResponseV1, StoreErrorV1>,
)
    requires
        call_ensures(seal_terminal_receipt_v1, (&receipt, evidence), sealed),
        is_answerable(receipt),
        receipt.graph_session_projection == Some(graph),
        graph.operation == Some((PersistedGraphTerminalOperationV2::Rework { record })),
    ensures
        sealed is Ok <==> graph.lifecycle is Running && (json::json_tree(record) matches
            JsonTreeV1::Record(rework) && rework.dom().contains("from_graph_node_id"@)
            && rework.dom().contains("to_graph_node_id"@) && rework.dom().contains(
            "target_attempt_id"@,
        ) && rework.dom().contains("reason"@) && rework.dom().contains("reactivated"@)),
        sealed is Ok ==> ({
            let members = sealed_members(sealed);
            json::json_tree(record) matches JsonTreeV1::Record(rework) && {
                &&& is_sealed_with(receipt, sealed, members)
                &&& tells_text(members, "schema"@, "podway.rework-result/v1"@)
                &&& json::member(members, "from_graph_node_id"@) == json::member(
                    rework,
                    "from_graph_node_id"@,
                )
                &&& json::member(members, "to_graph_node_id"@) == json::member(
                    rework,
                    "to_graph_node_id"@,
                )
                &&& json::member(members, "target_attempt_id"@) == json::member(
                    rework,
                    "target_attempt_id"@,
                )
                &&& json::member(members, "reason"@) == json::member(rework, "reason"@)
                &&& json::member(members, "reactivated"@) == json::member(rework, "reactivated"@)
                &&& tells_number(members, "revision"@, graph.revision_after)
            }
        }),
{
    what_is_sealed(receipt, graph, evidence, sealed);
    admission_members_tell(receipt);
    reveal_strlit("schema");
    reveal_strlit("admission");
    reveal_strlit("from_graph_node_id");
    reveal_strlit("to_graph_node_id");
    reveal_strlit("target_attempt_id");
    reveal_strlit("reason");
    reveal_strlit("reactivated");
    reveal_strlit("revision");
    assert("schema"@.len() == 6 && "admission"@.len() == 9 && "from_graph_node_id"@.len() == 18
        && "to_graph_node_id"@.len() == 16 && "target_attempt_id"@.len() == 17 && "reason"@.len()
        == 6 && "reactivated"@.len() == 11 && "revision"@.len() == 8);
    assert("schema"@[0] != "reason"@[0]);
    let names = graph_envelope::rework_names();
    assert(names.len() == 5 && names[0] == "from_graph_node_id"@ && names[1]
        == "to_graph_node_id"@ && names[2] == "target_attempt_id"@ && names[3] == "reason"@
        && names[4] == "reactivated"@);
}

/// A goal that was defined or revised is sealed exactly if its record is one of members. What is sealed
/// tells every member of the goal but for the schema, the admission and the revision of the result.
pub proof fn a_goal_is_sealed(
    receipt: PersistedTerminalReceiptV1,
    graph: PersistedGraphTerminalSessionProjectionV2,
    record: serde_json::Value,
    evidence: FrozenEnvelopeEvidenceV1,
    sealed: Result<SealedTerminalResponseV1, StoreErrorV1>,
)
    requires
        call_ensures(seal_terminal_receipt_v1, (&receipt, evidence), sealed),
        is_answerable(receipt),
        receipt.graph_session_projection == Some(graph),
        graph.operation == Some((PersistedGraphTerminalOperationV2::GoalDefine { record }))
            || graph.operation == Some((PersistedGraphTerminalOperationV2::GoalRevise { record })),
    ensures
        sealed is Ok <==> json::json_tree(record) is Record,
        json::json_tree(record) matches JsonTreeV1::Record(goal) ==> ({
            let members = sealed_members(sealed);
            &&& is_sealed_with(receipt, sealed, members)
            &&& tells_text(
                members,
                "schema"@,
                if graph.operation->0 is GoalDefine {
                    "podway.goal-definition-result/v1"@
                } else {
                    "podway.goal-revision-result/v1"@
                },
            )
            &&& tells_number(members, "revision"@, graph.revision_after)
            &&& forall|name: Seq<char>|
                name != "schema"@ && name != "admission"@ && name != "revision"@ ==> #[trigger]
                    json::member(members, name) == json::member(goal, name)
        }),
{
    what_is_sealed(receipt, graph, evidence, sealed);
    admission_members_tell(receipt);
    reveal_strlit("schema");
    reveal_strlit("admission");
    reveal_strlit("revision");
    assert("schema"@.len() == 6 && "admission"@.len() == 9 && "revision"@.len() == 8);
}

/// The response to a job that a graph session refused is an error for that refusal, to the request that
/// asked, about the job.
pub proof fn a_refusal_is_sealed(
    receipt: PersistedTerminalReceiptV1,
    graph: PersistedGraphTerminalSessionProjectionV2,
    error: crate::store::PersistedGraphMutationFailureV2,
    evidence: FrozenEnvelopeEvidenceV1,
    sealed: Result<SealedTerminalResponseV1, StoreErrorV1>,
)
    requires
        call_ensures(seal_terminal_receipt_v1, (&receipt, evidence), sealed),
        is_answerable(receipt),
        receipt.graph_session_projection == Some(graph),
        graph.operation == Some((PersistedGraphTerminalOperationV2::Failure { error })),
    ensures
        sealed matches Ok(
            SealedTerminalResponseV1::Graph(
                GraphTerminalEnvelopeV2::Error { context, job, failure },
            ),
        ) && {
            &&& shows_job(receipt, job)
            &&& receipt.response_context matches Some(asked) && context.request_id@
                == asked.request_id@ && context.command@ == asked.command@
                && context.workspace.uuid@ == asked.workspace_uuid@ && context.workspace.root@
                == asked.workspace_root@ && context.workspace.latest_workspace_sequence
                == asked.workspace_sequence
            &&& job.finished_at matches Some(finished_at) && context.generated_at@ == finished_at@
            &&& failures::is_graph_failure(error, failure)
        },
{
    an_answerable_job_is_shown(receipt);
}

/// A receipt that does not know the request that asked, or how and when its job ended, is not sealed.
pub proof fn what_cannot_be_answered_is_not_sealed(
    receipt: PersistedTerminalReceiptV1,
    evidence: FrozenEnvelopeEvidenceV1,
    sealed: Result<SealedTerminalResponseV1, StoreErrorV1>,
)
    requires
        call_ensures(seal_terminal_receipt_v1, (&receipt, evidence), sealed),
        receipt.graph_session_projection is Some,
        !is_answerable(receipt),
    ensures
        sealed is Err,
{
    an_answerable_job_is_shown(receipt);
}

/// Whether a citation says what it cites: another node by its id, or an item by its id.
pub open spec fn says_what_it_cites(citation: JsonTreeV1) -> bool {
    citation matches JsonTreeV1::Record(members) && {
        ||| tells_text(members, "kind"@, "evidence"@) && members.dom().contains("graph_node_id"@)
        ||| tells_text(members, "kind"@, "item"@) && members.dom().contains("item_id"@)
    }
}

/// Whether a citation is shown as it is stored: the node or the item that it cites, under the name
/// that tells which of the two it is, and nothing else.
pub open spec fn shows_citation(stored: JsonTreeV1, shown: JsonTreeV1) -> bool {
    stored matches JsonTreeV1::Record(members) && (shown matches JsonTreeV1::Record(public) && {
        ||| {
            &&& tells_text(members, "kind"@, "evidence"@)
            &&& json::member(public, "reference_graph_node_id"@) == json::member(
                members,
                "graph_node_id"@,
            )
            &&& public.dom() == set!["reference_graph_node_id"@]
        }
        ||| {
            &&& tells_text(members, "kind"@, "item"@)
            &&& json::member(public, "local_item_id"@) == json::member(members, "item_id"@)
            &&& public.dom() == set!["local_item_id"@]
        }
    })
}

/// An assessment of a criterion is sealed exactly if it names its node, its attempt, its goal's
/// revision, its mode and whether it completes the goal, and holds a result each of whose citations
/// says what it cites. What is sealed repeats these, and the result with its citations as they are
/// shown.
pub proof fn an_assessment_is_sealed(
    receipt: PersistedTerminalReceiptV1,
    graph: PersistedGraphTerminalSessionProjectionV2,
    record: serde_json::Value,
    assessment: Members,
    part: Members,
    stored: Seq<JsonTreeV1>,
    evidence: FrozenEnvelopeEvidenceV1,
    sealed: Result<SealedTerminalResponseV1, StoreErrorV1>,
)
    requires
        call_ensures(seal_terminal_receipt_v1, (&receipt, evidence), sealed),
        is_answerable(receipt),
        receipt.graph_session_projection == Some(graph),
        graph.operation == Some(
            (PersistedGraphTerminalOperationV2::GoalAssessCriterion { record }),
        ),
        json::json_tree(record) == JsonTreeV1::Record(assessment),
        json::member(assessment, "result"@) == Some(JsonTreeV1::Record(part)),
        json::member(part, "citations"@) == Some(JsonTreeV1::List(stored)),
    ensures
        sealed is Ok <==> assessment.dom().contains("graph_node_id"@) && assessment.dom().contains(
            "attempt_id"@,
        ) && assessment.dom().contains("goal_revision"@) && assessment.dom().contains("mode"@)
            && assessment.dom().contains("complete"@) && forall|i: int|
            0 <= i < stored.len() ==> says_what_it_cites(#[trigger] stored[i]),
        sealed is Ok ==> ({
            let members = sealed_members(sealed);
            &&& is_sealed_with(receipt, sealed, members)
            &&& tells_text(members, "schema"@, "podway.criterion-assessment-result/v1"@)
            &&& json::member(members, "graph_node_id"@) == json::member(
                assessment,
                "graph_node_id"@,
            )
            &&& json::member(members, "attempt_id"@) == json::member(assessment, "attempt_id"@)
            &&& json::member(members, "goal_revision"@) == json::member(
                assessment,
                "goal_revision"@,
            )
            &&& json::member(members, "mode"@) == json::member(assessment, "mode"@)
            &&& json::member(members, "complete"@) == json::member(assessment, "complete"@)
            &&& json::member(members, "determined_outcome"@) == json::member(
                assessment,
                "determined_outcome"@,
            )
            &&& tells_number(members, "revision"@, graph.revision_after)
            &&& json::member(members, "result"@) matches Some(JsonTreeV1::Record(shown)) && {
                &&& forall|name: Seq<char>|
                    name != "citations"@ ==> #[trigger] json::member(shown, name) == json::member(
                        part,
                        name,
                    )
                &&& json::member(shown, "citations"@) matches Some(JsonTreeV1::List(citations))
                    && citations.len() == stored.len() && forall|i: int|
                    0 <= i < stored.len() ==> shows_citation(stored[i], #[trigger] citations[i])
            }
        }),
{
    what_is_sealed(receipt, graph, evidence, sealed);
    admission_members_tell(receipt);
    reveal_strlit("schema");
    reveal_strlit("admission");
    reveal_strlit("graph_node_id");
    reveal_strlit("attempt_id");
    reveal_strlit("goal_revision");
    reveal_strlit("mode");
    reveal_strlit("result");
    reveal_strlit("complete");
    reveal_strlit("revision");
    reveal_strlit("determined_outcome");
    assert("schema"@.len() == 6 && "admission"@.len() == 9 && "graph_node_id"@.len() == 13
        && "attempt_id"@.len() == 10 && "goal_revision"@.len() == 13 && "mode"@.len() == 4
        && "result"@.len() == 6 && "complete"@.len() == 8 && "revision"@.len() == 8
        && "determined_outcome"@.len() == 18);
    assert("schema"@[0] != "result"@[0]);
    assert("graph_node_id"@[1] != "goal_revision"@[1]);
    assert("complete"@[0] != "revision"@[0]);
    reveal_strlit("evidence");
    reveal_strlit("item");
    assert("evidence"@.len() == 8 && "item"@.len() == 4);
    let names = graph_envelope::assessment_names();
    assert(names.len() == 5 && names[0] == "graph_node_id"@ && names[1] == "attempt_id"@ && names[2]
        == "goal_revision"@ && names[3] == "mode"@ && names[4] == "complete"@);
    assert forall|i: int| 0 <= i < stored.len() implies (says_what_it_cites(#[trigger] stored[i])
        <==> failures::public_citation(stored[i]) is Some) && (failures::public_citation(
        stored[i],
    ) matches Some(shown) ==> shows_citation(stored[i], shown)) by {
        match failures::public_citation(stored[i]) {
            Some(JsonTreeV1::Record(public)) => {
                assert(public.dom() =~= set!["reference_graph_node_id"@] || public.dom()
                    =~= set!["local_item_id"@]);
            },
            _ => {},
        }
    }
}

} // verus!
