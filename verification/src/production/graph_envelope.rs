//! The response that is sealed into the receipt of a graph session's job.

use crate::dispatch::{DispatchFailureV1, JobOutputV1, SessionOutputV1, WorkspaceOutputV1};
use crate::json;
use crate::json::{
    json_array, json_as_array, json_as_object, json_bool, json_map_get,
    json_map_insert, json_map_new, json_object, json_text, json_unsigned,
};
use crate::production::failures;
use crate::production::failures::{
    map_graph_mutation_failure_v2, publish_citation, terminal_replay_integrity_failure,
};
use crate::production::frozen;
use crate::production::frozen::{lifecycle_name, Members};
use crate::production::receipts;
use crate::production::receipts::{
    job_output_from_terminal_receipt, rfc3339_millis, terminal_response_context,
    TerminalResponseContextV1,
};
use crate::store::{
    PersistedDomainResultV1, PersistedGraphTerminalOperationV2,
    PersistedGraphTerminalSessionProjectionV2, PersistedSessionLifecycleV1,
    PersistedTerminalReceiptV1, PersistedTerminalResultV1,
};
use vstd::prelude::*;

verus! {

/// What a response of the second output version is made from. It carries no warnings.
#[derive(Clone, Debug, PartialEq, Eq)]
pub struct OutputEnvelopeInputV2 {
    pub request_id: String,
    pub command: String,
    pub generated_at: String,
    pub workspace: Option<WorkspaceOutputV1>,
    pub job: Option<JobOutputV1>,
    pub session: Option<SessionOutputV1>,
    pub result: serde_json::Map<String, serde_json::Value>,
}

/// The response to a graph session's job.
#[derive(Clone, Debug, PartialEq, Eq)]
pub enum GraphTerminalEnvelopeV2 {
    Output(OutputEnvelopeInputV2),
    Error {
        context: TerminalResponseContextV1,
        job: JobOutputV1,
        failure: DispatchFailureV1,
    },
}

/// The members with a text added.
pub open spec fn with_text(members: Members, name: Seq<char>, value: Seq<char>) -> Members {
    members.insert(name, json::JsonTreeV1::Text(value))
}

/// The members with a text added, if there is one.
pub open spec fn with_optional_text(
    members: Members,
    name: Seq<char>,
    value: Option<String>,
) -> Members {
    match value {
        Some(value) => with_text(members, name, value@),
        None => members,
    }
}

/// The members with an unsigned integer added.
pub open spec fn with_unsigned(members: Members, name: Seq<char>, value: u64) -> Members {
    members.insert(name, json::JsonTreeV1::Unsigned(value))
}

/// The members with a truth value added.
pub open spec fn with_bool(members: Members, name: Seq<char>, value: bool) -> Members {
    members.insert(name, json::JsonTreeV1::Bool(value))
}

/// The members with one of a record's members added.
pub open spec fn with_member_of(members: Members, record: Members, name: Seq<char>) -> Members {
    members.insert(name, record[name])
}

/// The account of an admitted job.
pub open spec fn admission_members(receipt: PersistedTerminalReceiptV1) -> Members {
    with_unsigned(
        with_text(
            with_bool(json::no_members(), "admitted"@, true),
            "job_id"@,
            receipt.job.job_id@,
        ),
        "workspace_sequence"@,
        receipt.job.identity_sequence,
    )
}

/// The members with the account of the admitted job added.
pub open spec fn with_admission(
    members: Members,
    receipt: PersistedTerminalReceiptV1,
) -> Members {
    members.insert("admission"@, json::JsonTreeV1::Record(admission_members(receipt)))
}

/// The members with the schema of a result added.
pub open spec fn of_schema(schema: Seq<char>) -> Members {
    with_text(json::no_members(), "schema"@, schema)
}

/// Whether a record has each of the given members.
pub open spec fn has_members(record: Members, names: Seq<Seq<char>>) -> bool {
    forall|i: int| 0 <= i < names.len() ==> record.dom().contains(#[trigger] names[i])
}

pub(crate) fn put_text(
    object: &mut serde_json::Map<String, serde_json::Value>,
    name: &str,
    value: &str,
)
    ensures
        json::json_members(*final(object)) == with_text(
            json::json_members(*old(object)),
            name@,
            value@,
        ),
{
    json_map_insert(object, name, json_text(value));
}

pub(crate) fn put_optional_text(
    object: &mut serde_json::Map<String, serde_json::Value>,
    name: &str,
    value: &Option<String>,
)
    ensures
        json::json_members(*final(object)) == with_optional_text(
            json::json_members(*old(object)),
            name@,
            *value,
        ),
{
    match value {
        Some(value) => put_text(object, name, value),
        None => {},
    }
}

pub(crate) fn put_unsigned(
    object: &mut serde_json::Map<String, serde_json::Value>,
    name: &str,
    value: u64,
)
    ensures
        json::json_members(*final(object)) == with_unsigned(
            json::json_members(*old(object)),
            name@,
            value,
        ),
{
    json_map_insert(object, name, json_unsigned(value));
}

pub(crate) fn put_bool(
    object: &mut serde_json::Map<String, serde_json::Value>,
    name: &str,
    value: bool,
)
    ensures
        json::json_members(*final(object)) == with_bool(
            json::json_members(*old(object)),
            name@,
            value,
        ),
{
    json_map_insert(object, name, json_bool(value));
}

/// Adds the member of the given name that a record has. Returns whether it has one; an object to
/// which nothing could be added stays as it is.
pub(crate) fn put_member_of(
    object: &mut serde_json::Map<String, serde_json::Value>,
    record: &serde_json::Map<String, serde_json::Value>,
    name: &str,
) -> (found: bool)
    ensures
        found == json::json_members(*record).dom().contains(name@),
        json::json_members(*final(object)) == if found {
            with_member_of(json::json_members(*old(object)), json::json_members(*record), name@)
        } else {
            json::json_members(*old(object))
        },
{
    match json_map_get(record, name) {
        Some(value) => {
            json_map_insert(object, name, value.clone());
            true
        },
        None => false,
    }
}

/// The account of an admitted job, for the receipt of a job that can be shown.
pub fn graph_admission_value_v2(receipt: &PersistedTerminalReceiptV1) -> (result: Result<
    serde_json::Value,
    DispatchFailureV1,
>)
    ensures
        match result {
            Ok(value) => receipts::terminal_output_failure(*receipt) is None && json::json_tree(
                value,
            ) == json::JsonTreeV1::Record(admission_members(*receipt)),
            Err(failure) => receipts::terminal_output_failure(*receipt) == Some(failure),
        },
{
    let job = match job_output_from_terminal_receipt(receipt) {
        Ok(job) => job,
        Err(failure) => {
            return Err(failure);
        },
    };
    let mut admission = json_map_new();
    put_bool(&mut admission, "admitted", true);
    put_text(&mut admission, "job_id", &job.id);
    put_unsigned(&mut admission, "workspace_sequence", job.sequence);
    Ok(json_object(admission))
}

fn put_admission(
    object: &mut serde_json::Map<String, serde_json::Value>,
    receipt: &PersistedTerminalReceiptV1,
) -> (result: Result<(), DispatchFailureV1>)
    ensures
        match result {
            Ok(()) => receipts::terminal_output_failure(*receipt) is None && json::json_members(
                *final(object),
            ) == with_admission(json::json_members(*old(object)), *receipt),
            Err(failure) => receipts::terminal_output_failure(*receipt) == Some(failure),
        },
{
    match graph_admission_value_v2(receipt) {
        Ok(admission) => {
            json_map_insert(object, "admission", admission);
            Ok(())
        },
        Err(failure) => Err(failure),
    }
}

fn object_of_schema(schema: &str) -> (object: serde_json::Map<String, serde_json::Value>)
    ensures
        json::json_members(object) == of_schema(schema@),
{
    let mut object = json_map_new();
    put_text(&mut object, "schema", schema);
    object
}

/// The citations of an assessment as a response shows them, if each can be shown.
pub open spec fn public_citations(stored: Seq<json::JsonTreeV1>) -> Option<Seq<json::JsonTreeV1>> {
    if forall|i: int| 0 <= i < stored.len() ==> failures::public_citation(
        #[trigger] stored[i],
    ) is Some {
        Some(
            Seq::new(
                stored.len(),
                |i: int|
                    match failures::public_citation(stored[i]) {
                        Some(shown) => shown,
                        None => stored[i],
                    },
            ),
        )
    } else {
        None
    }
}

fn publish_citations(stored: &Vec<serde_json::Value>) -> (published: Option<Vec<serde_json::Value>>)
    ensures
        match published {
            Some(published) => public_citations(json::json_trees(stored@)) == Some(
                json::json_trees(published@),
            ),
            None => public_citations(json::json_trees(stored@)) is None,
        },
{
    let ghost trees = json::json_trees(stored@);
    let mut published: Vec<serde_json::Value> = Vec::new();
    let mut position: usize = 0;
    while position < stored.len()
        invariant
            position <= stored.len(),
            trees == json::json_trees(stored@),
            published@.len() == position,
            forall|i: int|
                0 <= i < position ==> failures::public_citation(#[trigger] trees[i]) == Some(
                    json::json_tree(published@[i]),
                ),
        decreases stored.len() - position,
    {
        match publish_citation(&stored[position]) {
            Some(shown) => {
                published.push(shown);
            },
            None => {
                assert(failures::public_citation(trees[position as int]) is None);
                return None;
            },
        }
        position = position + 1;
    }
    proof {
        assert(public_citations(trees)->Some_0 =~= json::json_trees(published@));
    }
    Some(published)
}

/// The members of an assessment's own result.
pub open spec fn assessment_part(assessment: Members) -> Option<Members> {
    match json::member(assessment, "result"@) {
        Some(json::JsonTreeV1::Record(part)) => Some(part),
        _ => None,
    }
}

/// The citations of an assessment as a response shows them, if the assessment has such citations.
pub open spec fn assessment_citations(assessment: Members) -> Option<Seq<json::JsonTreeV1>> {
    match assessment_part(assessment) {
        Some(part) => match json::list_of(json::member(part, "citations"@)) {
            Some(stored) => public_citations(stored),
            None => None,
        },
        None => None,
    }
}

/// Whether an operation can have ended as its graph session says it did. This is told before the
/// job itself is looked at.
pub open spec fn operation_is_sound(
    receipt: PersistedTerminalReceiptV1,
    graph: PersistedGraphTerminalSessionProjectionV2,
    operation: PersistedGraphTerminalOperationV2,
) -> bool {
    match operation {
        PersistedGraphTerminalOperationV2::Decide { record, .. }
        | PersistedGraphTerminalOperationV2::Rework { record } => graph.lifecycle is Running
            && json::json_tree(record) is Record,
        PersistedGraphTerminalOperationV2::GoalDefine { record }
        | PersistedGraphTerminalOperationV2::GoalRevise { record } => json::json_tree(
            record,
        ) is Record,
        PersistedGraphTerminalOperationV2::GoalAssessCriterion { record } => json::record_of(
            json::json_tree(record),
        ) matches Some(assessment) && assessment_citations(assessment) is Some,
        PersistedGraphTerminalOperationV2::Complete { .. }
        | PersistedGraphTerminalOperationV2::Skip { .. } => !(graph.lifecycle is Cancelled),
        PersistedGraphTerminalOperationV2::Retry { from_attempt_id, to_attempt_id, .. } =>
            graph.lifecycle is Running && from_attempt_id@ != to_attempt_id@,
        PersistedGraphTerminalOperationV2::Block { .. }
        | PersistedGraphTerminalOperationV2::Unblock { .. } => graph.lifecycle is Running,
        PersistedGraphTerminalOperationV2::Cancel { .. } => graph.lifecycle is Cancelled,
        PersistedGraphTerminalOperationV2::Reset { .. } => true,
        PersistedGraphTerminalOperationV2::ItemMutation { .. } => receipt.result matches
            PersistedTerminalResultV1::Success(PersistedDomainResultV1::ItemChanged { .. }),
        PersistedGraphTerminalOperationV2::Failure { .. } => true,
    }
}

/// The members of a decision that its result repeats.
pub open spec fn decision_names() -> Seq<Seq<char>> {
    seq![
        "graph_node_id"@,
        "attempt_id"@,
        "attempt_number"@,
        "option_id"@,
        "effect"@,
        "target_graph_node_id"@,
    ]
}

/// The result of a decision.
pub open spec fn decision_members(
    receipt: PersistedTerminalReceiptV1,
    revision: u64,
    record: serde_json::Value,
    decision: Members,
    target_attempt_id: Seq<char>,
) -> Option<Members> {
    if !has_members(decision, decision_names()) {
        None
    } else {
        let members = with_admission(of_schema("podway.decision-result/v1"@), receipt);
        let members = with_member_of(members, decision, "graph_node_id"@);
        let members = with_member_of(members, decision, "attempt_id"@);
        let members = with_member_of(members, decision, "attempt_number"@);
        let members = with_member_of(members, decision, "option_id"@);
        let members = with_member_of(members, decision, "effect"@);
        let members = with_member_of(members, decision, "target_graph_node_id"@);
        let members = with_text(members, "target_attempt_id"@, target_attempt_id);
        let members = with_unsigned(members, "revision"@, revision);
        let members = with_text(members, "session_state"@, "running"@);
        Some(members.insert("record"@, json::json_tree(record)))
    }
}

fn decision_result(
    receipt: &PersistedTerminalReceiptV1,
    revision: u64,
    record: &serde_json::Value,
    decision: &serde_json::Map<String, serde_json::Value>,
    target_attempt_id: &str,
) -> (result: Result<serde_json::Map<String, serde_json::Value>, DispatchFailureV1>)
    ensures
        is_result_of(
            *receipt,
            decision_members(
                *receipt,
                revision,
                *record,
                json::json_members(*decision),
                target_attempt_id@,
            ),
            result,
        ),
{
    let ghost expected = decision_names();
    assert(expected[0] == "graph_node_id"@ && expected[1] == "attempt_id"@ && expected[2]
        == "attempt_number"@ && expected[3] == "option_id"@ && expected[4] == "effect"@
        && expected[5] == "target_graph_node_id"@);
    let mut result = object_of_schema("podway.decision-result/v1");
    match put_admission(&mut result, receipt) {
        Ok(()) => {},
        Err(failure) => {
            return Err(failure);
        },
    }
    let complete = put_member_of(&mut result, decision, "graph_node_id") && put_member_of(
        &mut result,
        decision,
        "attempt_id",
    ) && put_member_of(&mut result, decision, "attempt_number") && put_member_of(
        &mut result,
        decision,
        "option_id",
    ) && put_member_of(&mut result, decision, "effect") && put_member_of(
        &mut result,
        decision,
        "target_graph_node_id",
    );
    if !complete {
        return Err(terminal_replay_integrity_failure());
    }
    put_text(&mut result, "target_attempt_id", target_attempt_id);
    put_unsigned(&mut result, "revision", revision);
    put_text(&mut result, "session_state", "running");
    json_map_insert(&mut result, "record", record.clone());
    Ok(result)
}

/// The members of a rework that its result repeats.
pub open spec fn rework_names() -> Seq<Seq<char>> {
    seq![
        "from_graph_node_id"@,
        "to_graph_node_id"@,
        "target_attempt_id"@,
        "reason"@,
        "reactivated"@,
    ]
}

/// The result of a rework.
pub open spec fn rework_members(
    receipt: PersistedTerminalReceiptV1,
    revision: u64,
    rework: Members,
) -> Option<Members> {
    if !has_members(rework, rework_names()) {
        None
    } else {
        let members = with_admission(of_schema("podway.rework-result/v1"@), receipt);
        let members = with_member_of(members, rework, "from_graph_node_id"@);
        let members = with_member_of(members, rework, "to_graph_node_id"@);
        let members = with_member_of(members, rework, "target_attempt_id"@);
        let members = with_member_of(members, rework, "reason"@);
        let members = with_member_of(members, rework, "reactivated"@);
        Some(with_unsigned(members, "revision"@, revision))
    }
}

fn rework_result(
    receipt: &PersistedTerminalReceiptV1,
    revision: u64,
    rework: &serde_json::Map<String, serde_json::Value>,
) -> (result: Result<serde_json::Map<String, serde_json::Value>, DispatchFailureV1>)
    ensures
        is_result_of(
            *receipt,
            rework_members(*receipt, revision, json::json_members(*rework)),
            result,
        ),
{
    let ghost expected = rework_names();
    assert(expected[0] == "from_graph_node_id"@ && expected[1] == "to_graph_node_id"@
        && expected[2] == "target_attempt_id"@ && expected[3] == "reason"@ && expected[4]
        == "reactivated"@);
    let mut result = object_of_schema("podway.rework-result/v1");
    match put_admission(&mut result, receipt) {
        Ok(()) => {},
        Err(failure) => {
            return Err(failure);
        },
    }
    let complete = put_member_of(&mut result, rework, "from_graph_node_id") && put_member_of(
        &mut result,
        rework,
        "to_graph_node_id",
    ) && put_member_of(&mut result, rework, "target_attempt_id") && put_member_of(
        &mut result,
        rework,
        "reason",
    ) && put_member_of(&mut result, rework, "reactivated");
    if !complete {
        return Err(terminal_replay_integrity_failure());
    }
    put_unsigned(&mut result, "revision", revision);
    Ok(result)
}

/// The result of a goal that was defined or revised: the goal itself, under the schema, the
/// admission and the revision of the result.
pub open spec fn goal_members(
    receipt: PersistedTerminalReceiptV1,
    revision: u64,
    schema: Seq<char>,
    goal: Members,
) -> Members {
    with_unsigned(
        with_admission(with_text(goal, "schema"@, schema), receipt),
        "revision"@,
        revision,
    )
}

fn goal_result(
    receipt: &PersistedTerminalReceiptV1,
    revision: u64,
    schema: &str,
    goal: &serde_json::Map<String, serde_json::Value>,
) -> (result: Result<serde_json::Map<String, serde_json::Value>, DispatchFailureV1>)
    ensures
        is_result_of(
            *receipt,
            Some(goal_members(*receipt, revision, schema@, json::json_members(*goal))),
            result,
        ),
{
    let mut result = goal.clone();
    put_text(&mut result, "schema", schema);
    match put_admission(&mut result, receipt) {
        Ok(()) => {},
        Err(failure) => {
            return Err(failure);
        },
    }
    put_unsigned(&mut result, "revision", revision);
    Ok(result)
}

/// The members of an assessment that its result repeats.
pub open spec fn assessment_names() -> Seq<Seq<char>> {
    seq!["graph_node_id"@, "attempt_id"@, "goal_revision"@, "mode"@, "complete"@]
}

/// The result of an assessment whose citations are shown as given.
pub open spec fn assessment_members(
    receipt: PersistedTerminalReceiptV1,
    revision: u64,
    assessment: Members,
    part: Members,
    citations: Seq<json::JsonTreeV1>,
) -> Option<Members> {
    if !has_members(assessment, assessment_names()) {
        None
    } else {
        let members = with_admission(of_schema("podway.criterion-assessment-result/v1"@), receipt);
        let members = with_member_of(members, assessment, "graph_node_id"@);
        let members = with_member_of(members, assessment, "attempt_id"@);
        let members = with_member_of(members, assessment, "goal_revision"@);
        let members = with_member_of(members, assessment, "mode"@);
        let members = members.insert(
            "result"@,
            json::JsonTreeV1::Record(
                part.insert("citations"@, json::JsonTreeV1::List(citations)),
            ),
        );
        let members = with_member_of(members, assessment, "complete"@);
        let members = with_unsigned(members, "revision"@, revision);
        Some(
            if assessment.dom().contains("determined_outcome"@) {
                with_member_of(members, assessment, "determined_outcome"@)
            } else {
                members
            },
        )
    }
}

fn assessment_result(
    receipt: &PersistedTerminalReceiptV1,
    revision: u64,
    assessment: &serde_json::Map<String, serde_json::Value>,
    part: &serde_json::Map<String, serde_json::Value>,
    citations: Vec<serde_json::Value>,
) -> (result: Result<serde_json::Map<String, serde_json::Value>, DispatchFailureV1>)
    ensures
        is_result_of(
            *receipt,
            assessment_members(
                *receipt,
                revision,
                json::json_members(*assessment),
                json::json_members(*part),
                json::json_trees(citations@),
            ),
            result,
        ),
{
    let ghost expected = assessment_names();
    assert(expected[0] == "graph_node_id"@ && expected[1] == "attempt_id"@ && expected[2]
        == "goal_revision"@ && expected[3] == "mode"@ && expected[4] == "complete"@);
    let mut public_part = part.clone();
    json_map_insert(&mut public_part, "citations", json_array(citations));
    let mut result = object_of_schema("podway.criterion-assessment-result/v1");
    match put_admission(&mut result, receipt) {
        Ok(()) => {},
        Err(failure) => {
            return Err(failure);
        },
    }
    let identified = put_member_of(&mut result, assessment, "graph_node_id") && put_member_of(
        &mut result,
        assessment,
        "attempt_id",
    ) && put_member_of(&mut result, assessment, "goal_revision") && put_member_of(
        &mut result,
        assessment,
        "mode",
    );
    json_map_insert(&mut result, "result", json_object(public_part));
    if !identified || !put_member_of(&mut result, assessment, "complete") {
        return Err(terminal_replay_integrity_failure());
    }
    put_unsigned(&mut result, "revision", revision);
    let _ = put_member_of(&mut result, assessment, "determined_outcome");
    Ok(result)
}

/// What every result of a transition out of an attempt tells.
pub open spec fn transition_members(
    receipt: PersistedTerminalReceiptV1,
    graph: PersistedGraphTerminalSessionProjectionV2,
    transition: Seq<char>,
    from_graph_node_id: Seq<char>,
    from_attempt_id: Seq<char>,
) -> Members {
    let members = of_schema("podway.stage-transition-result/v2"@);
    let members = with_text(members, "transition"@, transition);
    let members = with_text(members, "from_graph_node_id"@, from_graph_node_id);
    let members = with_text(members, "from_attempt_id"@, from_attempt_id);
    let members = with_unsigned(members, "revision"@, graph.revision_after);
    let members = with_text(
        members,
        "session_state"@,
        frozen::lifecycle_text(graph.lifecycle)@,
    );
    with_admission(members, receipt)
}

fn transition_result(
    receipt: &PersistedTerminalReceiptV1,
    graph: &PersistedGraphTerminalSessionProjectionV2,
    transition: &str,
    from_graph_node_id: &str,
    from_attempt_id: &str,
) -> (result: Result<serde_json::Map<String, serde_json::Value>, DispatchFailureV1>)
    ensures
        is_result_of(
            *receipt,
            Some(
                transition_members(
                    *receipt,
                    *graph,
                    transition@,
                    from_graph_node_id@,
                    from_attempt_id@,
                ),
            ),
            result,
        ),
{
    let mut result = object_of_schema("podway.stage-transition-result/v2");
    put_text(&mut result, "transition", transition);
    put_text(&mut result, "from_graph_node_id", from_graph_node_id);
    put_text(&mut result, "from_attempt_id", from_attempt_id);
    put_unsigned(&mut result, "revision", graph.revision_after);
    put_text(&mut result, "session_state", lifecycle_name(graph.lifecycle));
    match put_admission(&mut result, receipt) {
        Ok(()) => Ok(result),
        Err(failure) => Err(failure),
    }
}

/// The members of a transition with the attempt that it leads to: one where the session goes on,
/// and none where it is completed.
pub open spec fn with_destination(
    members: Members,
    lifecycle: PersistedSessionLifecycleV1,
    to_graph_node_id: Option<String>,
    to_attempt_id: Option<String>,
) -> Option<Members> {
    match (to_graph_node_id, to_attempt_id) {
        (Some(graph_node_id), Some(attempt_id)) => if lifecycle is Running {
            Some(
                with_text(
                    with_text(members, "to_graph_node_id"@, graph_node_id@),
                    "to_attempt_id"@,
                    attempt_id@,
                ),
            )
        } else {
            None
        },
        (None, None) => if lifecycle is Completed {
            Some(members)
        } else {
            None
        },
        _ => None,
    }
}

fn put_destination(
    object: &mut serde_json::Map<String, serde_json::Value>,
    lifecycle: PersistedSessionLifecycleV1,
    to_graph_node_id: &Option<String>,
    to_attempt_id: &Option<String>,
) -> (sound: bool)
    ensures
        sound == with_destination(
            json::json_members(*old(object)),
            lifecycle,
            *to_graph_node_id,
            *to_attempt_id,
        ) is Some,
        sound ==> with_destination(
            json::json_members(*old(object)),
            lifecycle,
            *to_graph_node_id,
            *to_attempt_id,
        ) == Some(json::json_members(*final(object))),
{
    match (to_graph_node_id, to_attempt_id) {
        (Some(graph_node_id), Some(attempt_id)) => {
            if lifecycle != PersistedSessionLifecycleV1::Running {
                return false;
            }
            put_text(object, "to_graph_node_id", graph_node_id);
            put_text(object, "to_attempt_id", attempt_id);
            true
        },
        (None, None) => lifecycle == PersistedSessionLifecycleV1::Completed,
        _ => false,
    }
}

/// The result of an operation that is sound, if the operation has one.
pub open spec fn operation_members(
    receipt: PersistedTerminalReceiptV1,
    graph: PersistedGraphTerminalSessionProjectionV2,
    operation: PersistedGraphTerminalOperationV2,
) -> Option<Members> {
    let revision = graph.revision_after;
    match operation {
        PersistedGraphTerminalOperationV2::Decide { record, target_attempt_id } =>
            match json::record_of(json::json_tree(record)) {
                Some(decision) => decision_members(
                    receipt,
                    revision,
                    record,
                    decision,
                    target_attempt_id@,
                ),
                None => None,
            },
        PersistedGraphTerminalOperationV2::Rework { record } => match json::record_of(
            json::json_tree(record),
        ) {
            Some(rework) => rework_members(receipt, revision, rework),
            None => None,
        },
        PersistedGraphTerminalOperationV2::GoalDefine { record } => match json::record_of(
            json::json_tree(record),
        ) {
            Some(goal) => Some(
                goal_members(receipt, revision, "podway.goal-definition-result/v1"@, goal),
            ),
            None => None,
        },
        PersistedGraphTerminalOperationV2::GoalRevise { record } => match json::record_of(
            json::json_tree(record),
        ) {
            Some(goal) => Some(
                goal_members(receipt, revision, "podway.goal-revision-result/v1"@, goal),
            ),
            None => None,
        },
        PersistedGraphTerminalOperationV2::GoalAssessCriterion { record } => match json::record_of(
            json::json_tree(record),
        ) {
            Some(assessment) => match (
                assessment_part(assessment),
                assessment_citations(assessment),
            ) {
                (Some(part), Some(citations)) => assessment_members(
                    receipt,
                    revision,
                    assessment,
                    part,
                    citations,
                ),
                _ => None,
            },
            None => None,
        },
        PersistedGraphTerminalOperationV2::Complete {
            from_graph_node_id,
            from_attempt_id,
            to_graph_node_id,
            to_attempt_id,
        } => with_destination(
            transition_members(
                receipt,
                graph,
                "complete"@,
                from_graph_node_id@,
                from_attempt_id@,
            ),
            graph.lifecycle,
            to_graph_node_id,
            to_attempt_id,
        ),
        PersistedGraphTerminalOperationV2::Skip {
            from_graph_node_id,
            from_attempt_id,
            to_graph_node_id,
            to_attempt_id,
            reason,
        } => match with_destination(
            transition_members(receipt, graph, "skip"@, from_graph_node_id@, from_attempt_id@),
            graph.lifecycle,
            to_graph_node_id,
            to_attempt_id,
        ) {
            Some(members) => Some(with_optional_text(members, "reason"@, reason)),
            None => None,
        },
        PersistedGraphTerminalOperationV2::Retry {
            graph_node_id,
            from_attempt_id,
            to_attempt_id,
            reason,
        } => {
            let members = transition_members(
                receipt,
                graph,
                "retry"@,
                graph_node_id@,
                from_attempt_id@,
            );
            let members = with_text(members, "to_graph_node_id"@, graph_node_id@);
            let members = with_text(members, "to_attempt_id"@, to_attempt_id@);
            Some(with_text(members, "reason"@, reason@))
        },
        PersistedGraphTerminalOperationV2::Block {
            graph_node_id,
            attempt_id,
            blocker_id,
            reason,
        } => {
            let members = transition_members(
                receipt,
                graph,
                "block"@,
                graph_node_id@,
                attempt_id@,
            );
            let members = with_text(members, "blocker_id"@, blocker_id@);
            Some(with_text(members, "reason"@, reason@))
        },
        PersistedGraphTerminalOperationV2::Unblock {
            graph_node_id,
            attempt_id,
            all,
            blocker_ids,
        } => {
            let members = transition_members(
                receipt,
                graph,
                "unblock"@,
                graph_node_id@,
                attempt_id@,
            );
            if all {
                Some(with_bool(members, "all"@, true))
            } else if blocker_ids@.len() == 1 {
                Some(with_text(members, "blocker_id"@, blocker_ids@[0]@))
            } else {
                None
            }
        },
        PersistedGraphTerminalOperationV2::Cancel { graph_node_id, attempt_id } => Some(
            transition_members(receipt, graph, "cancel"@, graph_node_id@, attempt_id@),
        ),
        PersistedGraphTerminalOperationV2::Reset { .. } => {
            let members = of_schema("podway.stage-transition-result/v2"@);
            let members = with_text(members, "transition"@, "reset"@);
            let members = with_bool(members, "reset"@, true);
            let members = with_unsigned(members, "revision"@, revision);
            Some(with_admission(members, receipt))
        },
        PersistedGraphTerminalOperationV2::ItemMutation {
            graph_node_id,
            attempt_id,
            attempt_number,
            item_id,
            value_digest,
        } => match receipt.result {
            PersistedTerminalResultV1::Success(
                PersistedDomainResultV1::ItemChanged { changed, .. },
            ) => {
                let members = of_schema("podway.item-mutation-result/v2"@);
                let members = with_bool(members, "changed"@, changed);
                let members = with_text(members, "graph_node_id"@, graph_node_id@);
                let members = with_text(members, "attempt_id"@, attempt_id@);
                let members = with_unsigned(members, "attempt_number"@, attempt_number);
                let members = with_text(members, "item_id"@, item_id@);
                let members = with_unsigned(members, "revision"@, revision);
                let members = with_admission(members, receipt);
                Some(with_optional_text(members, "value_digest"@, value_digest))
            },
            _ => None,
        },
        PersistedGraphTerminalOperationV2::Failure { .. } => None,
    }
}

/// Whether a result is the given one. Where the job itself cannot be shown the result says why, and
/// where there is no such result the receipt contradicts itself.
pub open spec fn is_result_of(
    receipt: PersistedTerminalReceiptV1,
    members: Option<Members>,
    result: Result<serde_json::Map<String, serde_json::Value>, DispatchFailureV1>,
) -> bool {
    match result {
        Ok(result) => receipts::terminal_output_failure(receipt) is None && members == Some(
            json::json_members(result),
        ),
        Err(failure) => match receipts::terminal_output_failure(receipt) {
            Some(cause) => failure == cause,
            None => members is None && failure == failures::integrity_failure(),
        },
    }
}

/// Whether a result is the one of an operation of a graph session.
pub open spec fn is_operation_result(
    receipt: PersistedTerminalReceiptV1,
    graph: PersistedGraphTerminalSessionProjectionV2,
    operation: PersistedGraphTerminalOperationV2,
    result: Result<serde_json::Map<String, serde_json::Value>, DispatchFailureV1>,
) -> bool {
    if !operation_is_sound(receipt, graph, operation) {
        result matches Err(failure) && failure == failures::integrity_failure()
    } else {
        is_result_of(receipt, operation_members(receipt, graph, operation), result)
    }
}

fn assessment_operation_result(
    receipt: &PersistedTerminalReceiptV1,
    graph: &PersistedGraphTerminalSessionProjectionV2,
    record: &serde_json::Value,
) -> (result: Result<serde_json::Map<String, serde_json::Value>, DispatchFailureV1>)
    ensures
        is_operation_result(
            *receipt,
            *graph,
            PersistedGraphTerminalOperationV2::GoalAssessCriterion { record: *record },
            result,
        ),
{
    let assessment = match json_as_object(record) {
        Some(assessment) => assessment,
        None => {
            return Err(terminal_replay_integrity_failure());
        },
    };
    let part = match json_map_get(assessment, "result") {
        Some(value) => match json_as_object(value) {
            Some(part) => part,
            None => {
                return Err(terminal_replay_integrity_failure());
            },
        },
        None => {
            return Err(terminal_replay_integrity_failure());
        },
    };
    let stored = match json_map_get(part, "citations") {
        Some(value) => match json_as_array(value) {
            Some(stored) => stored,
            None => {
                return Err(terminal_replay_integrity_failure());
            },
        },
        None => {
            return Err(terminal_replay_integrity_failure());
        },
    };
    match publish_citations(stored) {
        Some(citations) => assessment_result(
            receipt,
            graph.revision_after,
            assessment,
            part,
            citations,
        ),
        None => Err(terminal_replay_integrity_failure()),
    }
}

fn item_operation_result(
    receipt: &PersistedTerminalReceiptV1,
    graph: &PersistedGraphTerminalSessionProjectionV2,
    graph_node_id: &String,
    attempt_id: &String,
    attempt_number: u64,
    item_id: &String,
    value_digest: &Option<String>,
) -> (result: Result<serde_json::Map<String, serde_json::Value>, DispatchFailureV1>)
    ensures
        is_operation_result(
            *receipt,
            *graph,
            (PersistedGraphTerminalOperationV2::ItemMutation {
                graph_node_id: *graph_node_id,
                attempt_id: *attempt_id,
                attempt_number,
                item_id: *item_id,
                value_digest: *value_digest,
            }),
            result,
        ),
{
    let changed = match &receipt.result {
        PersistedTerminalResultV1::Success(
            PersistedDomainResultV1::ItemChanged { changed, .. },
        ) => *changed,
        _ => {
            return Err(terminal_replay_integrity_failure());
        },
    };
    let mut result = object_of_schema("podway.item-mutation-result/v2");
    put_bool(&mut result, "changed", changed);
    put_text(&mut result, "graph_node_id", graph_node_id);
    put_text(&mut result, "attempt_id", attempt_id);
    put_unsigned(&mut result, "attempt_number", attempt_number);
    put_text(&mut result, "item_id", item_id);
    put_unsigned(&mut result, "revision", graph.revision_after);
    match put_admission(&mut result, receipt) {
        Ok(()) => {},
        Err(failure) => {
            return Err(failure);
        },
    }
    put_optional_text(&mut result, "value_digest", value_digest);
    Ok(result)
}

fn reset_operation_result(
    receipt: &PersistedTerminalReceiptV1,
    graph: &PersistedGraphTerminalSessionProjectionV2,
    session_id: &String,
) -> (result: Result<serde_json::Map<String, serde_json::Value>, DispatchFailureV1>)
    ensures
        is_operation_result(
            *receipt,
            *graph,
            PersistedGraphTerminalOperationV2::Reset { session_id: *session_id },
            result,
        ),
{
    let mut result = object_of_schema("podway.stage-transition-result/v2");
    put_text(&mut result, "transition", "reset");
    put_bool(&mut result, "reset", true);
    put_unsigned(&mut result, "revision", graph.revision_after);
    match put_admission(&mut result, receipt) {
        Ok(()) => Ok(result),
        Err(failure) => Err(failure),
    }
}

/// The result of an operation of a graph session.
fn operation_result(
    receipt: &PersistedTerminalReceiptV1,
    graph: &PersistedGraphTerminalSessionProjectionV2,
    operation: &PersistedGraphTerminalOperationV2,
) -> (result: Result<serde_json::Map<String, serde_json::Value>, DispatchFailureV1>)
    requires
        !(operation is Failure),
    ensures
        is_operation_result(*receipt, *graph, *operation, result),
{
    let running = graph.lifecycle == PersistedSessionLifecycleV1::Running;
    let cancelled = graph.lifecycle == PersistedSessionLifecycleV1::Cancelled;
    match operation {
        PersistedGraphTerminalOperationV2::Decide { record, target_attempt_id } =>
            match json_as_object(record) {
                Some(decision) if running => decision_result(
                    receipt,
                    graph.revision_after,
                    record,
                    decision,
                    target_attempt_id,
                ),
                _ => Err(terminal_replay_integrity_failure()),
            },
        PersistedGraphTerminalOperationV2::Rework { record } => match json_as_object(record) {
            Some(rework) if running => rework_result(receipt, graph.revision_after, rework),
            _ => Err(terminal_replay_integrity_failure()),
        },
        PersistedGraphTerminalOperationV2::GoalDefine { record } => match json_as_object(record) {
            Some(goal) => goal_result(
                receipt,
                graph.revision_after,
                "podway.goal-definition-result/v1",
                goal,
            ),
            None => Err(terminal_replay_integrity_failure()),
        },
        PersistedGraphTerminalOperationV2::GoalRevise { record } => match json_as_object(record) {
            Some(goal) => goal_result(
                receipt,
                graph.revision_after,
                "podway.goal-revision-result/v1",
                goal,
            ),
            None => Err(terminal_replay_integrity_failure()),
        },
        PersistedGraphTerminalOperationV2::GoalAssessCriterion { record } =>
            assessment_operation_result(receipt, graph, record),
        PersistedGraphTerminalOperationV2::Complete {
            from_graph_node_id,
            from_attempt_id,
            to_graph_node_id,
            to_attempt_id,
        } => {
            if cancelled {
                return Err(terminal_replay_integrity_failure());
            }
            match transition_result(
                receipt,
                graph,
                "complete",
                from_graph_node_id,
                from_attempt_id,
            ) {
                Ok(mut result) => if put_destination(
                    &mut result,
                    graph.lifecycle,
                    to_graph_node_id,
                    to_attempt_id,
                ) {
                    Ok(result)
                } else {
                    Err(terminal_replay_integrity_failure())
                },
                Err(failure) => Err(failure),
            }
        },
        PersistedGraphTerminalOperationV2::Skip {
            from_graph_node_id,
            from_attempt_id,
            to_graph_node_id,
            to_attempt_id,
            reason,
        } => {
            if cancelled {
                return Err(terminal_replay_integrity_failure());
            }
            match transition_result(receipt, graph, "skip", from_graph_node_id, from_attempt_id) {
                Ok(mut result) => if put_destination(
                    &mut result,
                    graph.lifecycle,
                    to_graph_node_id,
                    to_attempt_id,
                ) {
                    put_optional_text(&mut result, "reason", reason);
                    Ok(result)
                } else {
                    Err(terminal_replay_integrity_failure())
                },
                Err(failure) => Err(failure),
            }
        },
        PersistedGraphTerminalOperationV2::Retry {
            graph_node_id,
            from_attempt_id,
            to_attempt_id,
            reason,
        } => {
            if !running || *from_attempt_id == *to_attempt_id {
                return Err(terminal_replay_integrity_failure());
            }
            match transition_result(receipt, graph, "retry", graph_node_id, from_attempt_id) {
                Ok(mut result) => {
                    put_text(&mut result, "to_graph_node_id", graph_node_id);
                    put_text(&mut result, "to_attempt_id", to_attempt_id);
                    put_text(&mut result, "reason", reason);
                    Ok(result)
                },
                Err(failure) => Err(failure),
            }
        },
        PersistedGraphTerminalOperationV2::Block {
            graph_node_id,
            attempt_id,
            blocker_id,
            reason,
        } => {
            if !running {
                return Err(terminal_replay_integrity_failure());
            }
            match transition_result(receipt, graph, "block", graph_node_id, attempt_id) {
                Ok(mut result) => {
                    put_text(&mut result, "blocker_id", blocker_id);
                    put_text(&mut result, "reason", reason);
                    Ok(result)
                },
                Err(failure) => Err(failure),
            }
        },
        PersistedGraphTerminalOperationV2::Unblock {
            graph_node_id,
            attempt_id,
            all,
            blocker_ids,
        } => {
            if !running {
                return Err(terminal_replay_integrity_failure());
            }
            match transition_result(receipt, graph, "unblock", graph_node_id, attempt_id) {
                Ok(mut result) => if *all {
                    put_bool(&mut result, "all", true);
                    Ok(result)
                } else if blocker_ids.len() == 1 {
                    put_text(&mut result, "blocker_id", &blocker_ids[0]);
                    Ok(result)
                } else {
                    Err(terminal_replay_integrity_failure())
                },
                Err(failure) => Err(failure),
            }
        },
        PersistedGraphTerminalOperationV2::Cancel { graph_node_id, attempt_id } => {
            if !cancelled {
                return Err(terminal_replay_integrity_failure());
            }
            transition_result(receipt, graph, "cancel", graph_node_id, attempt_id)
        },
        PersistedGraphTerminalOperationV2::Reset { session_id } => reset_operation_result(
            receipt,
            graph,
            session_id,
        ),
        PersistedGraphTerminalOperationV2::ItemMutation {
            graph_node_id,
            attempt_id,
            attempt_number,
            item_id,
            value_digest,
        } => item_operation_result(
            receipt,
            graph,
            graph_node_id,
            attempt_id,
            *attempt_number,
            item_id,
            value_digest,
        ),
        PersistedGraphTerminalOperationV2::Failure { .. } => Err(
            terminal_replay_integrity_failure(),
        ),
    }
}

/// The result of the start of a graph session.
pub open spec fn start_members(
    receipt: PersistedTerminalReceiptV1,
    graph: PersistedGraphTerminalSessionProjectionV2,
) -> Members {
    let members = of_schema("podway.session-start-result/v2"@);
    let members = with_text(members, "procedure_schema"@, "podway.procedure/v2"@);
    let members = with_text(members, "procedure_digest"@, graph.procedure_digest@);
    let members = with_bool(members, "dry_run"@, false);
    let members = with_bool(members, "goal_tracking"@, graph.goal_tracking);
    let members = with_bool(members, "goal_defined"@, graph.goal_defined);
    let members = with_admission(members, receipt);
    let members = with_text(members, "session_id"@, graph.session_id@);
    let members = with_unsigned(members, "revision"@, graph.revision_after);
    with_text(members, "entry_graph_node_id"@, graph.entry_graph_node_id@)
}

/// Whether a response carries a result and is the one that the receipt's context and job call for.
pub open spec fn is_output_with(
    receipt: PersistedTerminalReceiptV1,
    members: Members,
    output: OutputEnvelopeInputV2,
) -> bool {
    &&& receipt.response_context matches Some(context) && receipt.job_projection matches Some(
        projection,
    ) && {
        &&& output.request_id == context.request_id
        &&& output.command == context.command
        &&& output.generated_at@ == crate::civil_time::timestamp(projection.finished_at as nat)
        &&& output.workspace == Some(
            WorkspaceOutputV1 {
                uuid: context.workspace_uuid,
                root: context.workspace_root,
                latest_workspace_sequence: context.workspace_sequence,
            },
        )
    }
    &&& output.job matches Some(job) && receipts::is_terminal_output(receipt, job)
    &&& output.session is None
    &&& json::json_members(output.result) == members
}

/// The response that carries a result, for a job that can be shown.
pub fn graph_success_terminal_envelope_v2(
    receipt: &PersistedTerminalReceiptV1,
    result: serde_json::Map<String, serde_json::Value>,
) -> (envelope: Result<OutputEnvelopeInputV2, DispatchFailureV1>)
    ensures
        match envelope {
            Ok(output) => receipts::terminal_output_failure(*receipt) is None && is_output_with(
                *receipt,
                json::json_members(result),
                output,
            ),
            Err(failure) => if receipt.response_context is None {
                failure == failures::integrity_failure()
            } else {
                receipts::terminal_output_failure(*receipt) == Some(failure)
            },
        },
{
    let context = match &receipt.response_context {
        Some(context) => context,
        None => {
            return Err(terminal_replay_integrity_failure());
        },
    };
    let projection = match &receipt.job_projection {
        Some(projection) => projection,
        None => {
            return Err(terminal_replay_integrity_failure());
        },
    };
    let generated_at: String = match rfc3339_millis(projection.finished_at) {
        Ok(text) => text,
        Err(failure) => {
            return Err(failure);
        },
    };
    let job = match job_output_from_terminal_receipt(receipt) {
        Ok(job) => job,
        Err(failure) => {
            return Err(failure);
        },
    };
    Ok(
        OutputEnvelopeInputV2 {
            request_id: context.request_id.clone(),
            command: context.command.clone(),
            generated_at,
            workspace: Some(
                WorkspaceOutputV1 {
                    uuid: context.workspace_uuid.clone(),
                    root: context.workspace_root.clone(),
                    latest_workspace_sequence: context.workspace_sequence,
                },
            ),
            job: Some(job),
            session: None,
            result,
        },
    )
}

/// The response to the start of a graph session.
pub fn graph_start_terminal_envelope_v2(receipt: &PersistedTerminalReceiptV1) -> (envelope: Result<
    OutputEnvelopeInputV2,
    DispatchFailureV1,
>)
    ensures
        match (envelope, receipt.graph_session_projection) {
            (Ok(output), Some(graph)) => receipts::terminal_output_failure(*receipt) is None
                && is_output_with(*receipt, start_members(*receipt, graph), output),
            (Ok(_), None) => false,
            (Err(failure), Some(_)) => if receipt.response_context is None {
                failure == failures::integrity_failure()
            } else {
                receipts::terminal_output_failure(*receipt) == Some(failure)
            },
            (Err(failure), None) => failure == failures::integrity_failure(),
        },
{
    let graph = match &receipt.graph_session_projection {
        Some(graph) => graph,
        None => {
            return Err(terminal_replay_integrity_failure());
        },
    };
    if receipt.response_context.is_none() {
        return Err(terminal_replay_integrity_failure());
    }
    let mut result = object_of_schema("podway.session-start-result/v2");
    put_text(&mut result, "procedure_schema", "podway.procedure/v2");
    put_text(&mut result, "procedure_digest", &graph.procedure_digest);
    put_bool(&mut result, "dry_run", false);
    put_bool(&mut result, "goal_tracking", graph.goal_tracking);
    put_bool(&mut result, "goal_defined", graph.goal_defined);
    match put_admission(&mut result, receipt) {
        Ok(()) => {},
        Err(failure) => {
            return Err(failure);
        },
    }
    put_text(&mut result, "session_id", &graph.session_id);
    put_unsigned(&mut result, "revision", graph.revision_after);
    put_text(&mut result, "entry_graph_node_id", &graph.entry_graph_node_id);
    graph_success_terminal_envelope_v2(receipt, result)
}

/// Whether a response is the one that a receipt of a graph session calls for.
pub open spec fn is_graph_envelope(
    receipt: PersistedTerminalReceiptV1,
    envelope: Result<GraphTerminalEnvelopeV2, DispatchFailureV1>,
) -> bool {
    match receipt.graph_session_projection {
        None => envelope matches Err(failure) && failure == failures::integrity_failure(),
        Some(graph) => match graph.operation {
            None => is_envelope_with(receipt, start_members(receipt, graph), envelope),
            Some(PersistedGraphTerminalOperationV2::Failure { error }) => is_refusal_envelope(
                receipt,
                error,
                envelope,
            ),
            Some(operation) => if !operation_is_sound(receipt, graph, operation) {
                envelope matches Err(failure) && failure == failures::integrity_failure()
            } else if receipts::terminal_output_failure(receipt) is Some {
                envelope matches Err(failure) && receipts::terminal_output_failure(receipt)
                    == Some(failure)
            } else {
                match operation_members(receipt, graph, operation) {
                    Some(members) => is_envelope_with(receipt, members, envelope),
                    None => envelope matches Err(failure) && failure
                        == failures::integrity_failure(),
                }
            },
        },
    }
}

/// Whether a response carries the given result, or says why the receipt has no such response.
pub open spec fn is_envelope_with(
    receipt: PersistedTerminalReceiptV1,
    members: Members,
    envelope: Result<GraphTerminalEnvelopeV2, DispatchFailureV1>,
) -> bool {
    match envelope {
        Ok(GraphTerminalEnvelopeV2::Output(output)) => receipts::terminal_output_failure(
            receipt,
        ) is None && is_output_with(receipt, members, output),
        Ok(GraphTerminalEnvelopeV2::Error { .. }) => false,
        Err(failure) => if receipt.response_context is None {
            failure == failures::integrity_failure()
        } else {
            receipts::terminal_output_failure(receipt) == Some(failure)
        },
    }
}

/// Whether a response tells why a graph session refused, or says why the receipt has no such
/// response.
pub open spec fn is_refusal_envelope(
    receipt: PersistedTerminalReceiptV1,
    error: crate::store::PersistedGraphMutationFailureV2,
    envelope: Result<GraphTerminalEnvelopeV2, DispatchFailureV1>,
) -> bool {
    match envelope {
        Ok(GraphTerminalEnvelopeV2::Error { context, job, failure }) =>
            receipts::is_response_context(receipt, context) && receipts::terminal_output_failure(
                receipt,
            ) is None && receipts::is_terminal_output(receipt, job)
                && failures::is_graph_failure(error, failure),
        Ok(GraphTerminalEnvelopeV2::Output(_)) => false,
        Err(failure) => if receipt.response_context is None {
            failure == failures::integrity_failure()
        } else {
            receipts::terminal_output_failure(receipt) == Some(failure)
        },
    }
}

/// The response that a receipt of a graph session calls for.
pub fn graph_terminal_envelope_v2(receipt: &PersistedTerminalReceiptV1) -> (envelope: Result<
    GraphTerminalEnvelopeV2,
    DispatchFailureV1,
>)
    ensures
        is_graph_envelope(*receipt, envelope),
{
    let graph = match &receipt.graph_session_projection {
        Some(graph) => graph,
        None => {
            return Err(terminal_replay_integrity_failure());
        },
    };
    match &graph.operation {
        None => match graph_start_terminal_envelope_v2(receipt) {
            Ok(output) => Ok(GraphTerminalEnvelopeV2::Output(output)),
            Err(failure) => Err(failure),
        },
        Some(PersistedGraphTerminalOperationV2::Failure { error }) => {
            let context = match terminal_response_context(receipt) {
                Ok(Some(context)) => context,
                Ok(None) => {
                    return Err(terminal_replay_integrity_failure());
                },
                Err(failure) => {
                    return Err(failure);
                },
            };
            match job_output_from_terminal_receipt(receipt) {
                Ok(job) => Ok(
                    GraphTerminalEnvelopeV2::Error {
                        context,
                        job,
                        failure: map_graph_mutation_failure_v2(error),
                    },
                ),
                Err(failure) => Err(failure),
            }
        },
        Some(operation) => match operation_result(receipt, graph, operation) {
            Ok(result) => match graph_success_terminal_envelope_v2(receipt, result) {
                Ok(output) => Ok(GraphTerminalEnvelopeV2::Output(output)),
                Err(failure) => Err(failure),
            },
            Err(failure) => Err(failure),
        },
    }
}

} // verus!
