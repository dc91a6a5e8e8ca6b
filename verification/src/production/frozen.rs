//! Whether a frozen result still tells what its receipt tells.
//!
//! A terminal receipt keeps the response that was made for its job. Before that response is shown
//! again, its result is held against the receipt: every member that the receipt determines has to
//! be the one that the receipt determines.

use crate::dispatch::DispatchFailureV1;
use crate::json;
use crate::json::{
    json_as_array, json_as_object, json_as_str, json_map_get, json_map_keys,
    json_map_len, json_value_get, member_bool_is, member_text_is, member_text_matches,
    member_unsigned_is, same_member, same_optional_value,
};
use crate::production::failures;
use crate::production::failures::terminal_replay_integrity_failure;
use crate::store::{
    CommandV1, PersistedDomainResultV1, PersistedGraphTerminalOperationV2,
    PersistedGraphTerminalSessionProjectionV2, PersistedSessionLifecycleV1,
    PersistedTerminalReceiptV1, PersistedTerminalResultV1,
};
use crate::text;
use crate::text::same_text;
use vstd::prelude::*;

verus! {

/// The members of a JSON object, by name.
pub type Members = Map<Seq<char>, json::JsonTreeV1>;

/// Whether the member of the given name is the given text.
pub open spec fn says_text(members: Members, name: Seq<char>, expected: Seq<char>) -> bool {
    json::text_of(json::member(members, name)) == Some(expected)
}

/// Whether the member of the given name is the given text, and no text where none is given.
pub open spec fn says_optional_text(
    members: Members,
    name: Seq<char>,
    expected: Option<String>,
) -> bool {
    json::text_of(json::member(members, name)) == text::optional_characters(expected)
}

/// Whether the member of the given name is the given unsigned integer.
pub open spec fn says_unsigned(members: Members, name: Seq<char>, expected: u64) -> bool {
    json::unsigned_of(json::member(members, name)) == Some(expected)
}

/// Whether the member of the given name is the given truth value.
pub open spec fn says_bool(members: Members, name: Seq<char>, expected: bool) -> bool {
    json::bool_of(json::member(members, name)) == Some(expected)
}

/// Whether two objects have the same member of the given name, or both have none.
pub open spec fn agree_on(left: Members, right: Members, name: Seq<char>) -> bool {
    json::member(left, name) == json::member(right, name)
}

/// Whether the first object has every member of the second.
pub open spec fn repeats(members: Members, record: Members) -> bool {
    forall|name: Seq<char>| #[trigger]
        record.dom().contains(name) ==> json::member(members, name) == Some(record[name])
}

/// The public name of a session lifecycle.
pub open spec fn lifecycle_text(lifecycle: PersistedSessionLifecycleV1) -> &'static str {
    match lifecycle {
        PersistedSessionLifecycleV1::Running => "running",
        PersistedSessionLifecycleV1::Completed => "completed",
        PersistedSessionLifecycleV1::Cancelled => "cancelled",
    }
}

/// The public name of a session lifecycle.
pub fn lifecycle_name(lifecycle: PersistedSessionLifecycleV1) -> (name: &'static str)
    ensures
        name == lifecycle_text(lifecycle),
{
    match lifecycle {
        PersistedSessionLifecycleV1::Running => "running",
        PersistedSessionLifecycleV1::Completed => "completed",
        PersistedSessionLifecycleV1::Cancelled => "cancelled",
    }
}

/// The transition that a command asks a stage to make.
pub open spec fn stage_transition(command: CommandV1) -> Option<&'static str> {
    match command {
        CommandV1::SessionComplete => Some("complete"),
        CommandV1::SessionSkip => Some("skip"),
        CommandV1::SessionRetry => Some("retry"),
        CommandV1::SessionBlock => Some("block"),
        CommandV1::SessionUnblock => Some("unblock"),
        CommandV1::SessionCancel => Some("cancel"),
        CommandV1::SessionReset => Some("reset"),
        _ => None,
    }
}

/// The transition that a command asks a stage to make.
pub fn expected_stage_transition_v2(command: CommandV1) -> (transition: Option<&'static str>)
    ensures
        transition == stage_transition(command),
{
    match command {
        CommandV1::SessionComplete => Some("complete"),
        CommandV1::SessionSkip => Some("skip"),
        CommandV1::SessionRetry => Some("retry"),
        CommandV1::SessionBlock => Some("block"),
        CommandV1::SessionUnblock => Some("unblock"),
        CommandV1::SessionCancel => Some("cancel"),
        CommandV1::SessionReset => Some("reset"),
        CommandV1::WorkspaceInitialize
        | CommandV1::WorkspaceResetAll
        | CommandV1::SessionStart
        | CommandV1::SessionStartReplace
        | CommandV1::SessionReturn
        | CommandV1::SessionReopen
        | CommandV1::SessionDecide
        | CommandV1::SessionRework
        | CommandV1::GoalDefine
        | CommandV1::GoalRevise
        | CommandV1::GoalAssessCriterion
        | CommandV1::ItemCheck
        | CommandV1::ItemUncheck
        | CommandV1::ItemSet
        | CommandV1::ItemAdd
        | CommandV1::ItemRemove
        | CommandV1::ItemAttach
        | CommandV1::ItemClear => None,
    }
}

/// The operation that a receipt's graph session records.
pub open spec fn graph_operation(receipt: PersistedTerminalReceiptV1) -> Option<
    PersistedGraphTerminalOperationV2,
> {
    match receipt.graph_session_projection {
        Some(graph) => graph.operation,
        None => None,
    }
}

/// The operation that a receipt's graph session records.
pub fn graph_operation_of(receipt: &PersistedTerminalReceiptV1) -> (operation: Option<
    &PersistedGraphTerminalOperationV2,
>)
    ensures
        match operation {
            Some(operation) => graph_operation(*receipt) == Some(*operation),
            None => graph_operation(*receipt) is None,
        },
{
    match &receipt.graph_session_projection {
        Some(graph) => match &graph.operation {
            Some(operation) => Some(operation),
            None => None,
        },
        None => None,
    }
}

/// Whether a start result tells of the session that the receipt tells of: by its digest alone, or
/// by everything that the start of a graph session determines.
pub open spec fn start_result_agrees(
    receipt: PersistedTerminalReceiptV1,
    session_id: Seq<char>,
    revision_after: u64,
    members: Members,
) -> bool {
    &&& says_text(members, "session_id"@, session_id)
    &&& says_unsigned(members, "revision"@, revision_after)
    &&& {
        ||| receipt.session_projection matches Some(session) && session.session_id@ == session_id
            && says_optional_text(members, "procedure_digest"@, session.procedure_digest)
        ||| receipt.graph_session_projection matches Some(graph) && graph.session_id@ == session_id
            && says_text(members, "procedure_digest"@, graph.procedure_digest@) && says_text(
            members,
            "entry_graph_node_id"@,
            graph.entry_graph_node_id@,
        ) && says_bool(members, "goal_tracking"@, graph.goal_tracking) && says_bool(
            members,
            "goal_defined"@,
            graph.goal_defined,
        )
    }
}

fn start_result_matches(
    receipt: &PersistedTerminalReceiptV1,
    session_id: &String,
    revision_after: u64,
    result: &serde_json::Map<String, serde_json::Value>,
) -> (matches: bool)
    ensures
        matches == start_result_agrees(
            *receipt,
            session_id@,
            revision_after,
            json::json_members(*result),
        ),
{
    let by_session = match &receipt.session_projection {
        Some(session) => session.session_id == *session_id && member_text_matches(
            result,
            "procedure_digest",
            &session.procedure_digest,
        ),
        None => false,
    };
    let by_graph = match &receipt.graph_session_projection {
        Some(graph) => graph.session_id == *session_id && member_text_is(
            result,
            "procedure_digest",
            &graph.procedure_digest,
        ) && member_text_is(result, "entry_graph_node_id", &graph.entry_graph_node_id)
            && member_bool_is(result, "goal_tracking", graph.goal_tracking) && member_bool_is(
            result,
            "goal_defined",
            graph.goal_defined,
        ),
        None => false,
    };
    member_text_is(result, "session_id", session_id) && member_unsigned_is(
        result,
        "revision",
        revision_after,
    ) && (by_session || by_graph)
}

/// Whether a decision result tells of the decision that the receipt records.
pub open spec fn decision_result_agrees(
    receipt: PersistedTerminalReceiptV1,
    revision_after: u64,
    members: Members,
) -> bool {
    receipt.graph_session_projection matches Some(graph) && graph.operation matches Some(
        PersistedGraphTerminalOperationV2::Decide { record, target_attempt_id },
    ) && json::record_of(json::json_tree(record)) matches Some(decision) && {
        &&& graph.lifecycle is Running
        &&& graph.revision_after == revision_after
        &&& says_unsigned(members, "revision"@, revision_after)
        &&& says_text(members, "session_state"@, "running"@)
        &&& json::member(members, "record"@) == Some(json::json_tree(record))
        &&& agree_on(members, decision, "graph_node_id"@)
        &&& agree_on(members, decision, "attempt_id"@)
        &&& agree_on(members, decision, "attempt_number"@)
        &&& agree_on(members, decision, "option_id"@)
        &&& agree_on(members, decision, "effect"@)
        &&& agree_on(members, decision, "target_graph_node_id"@)
        &&& says_text(members, "target_attempt_id"@, target_attempt_id@)
    }
}

fn decision_result_matches(
    receipt: &PersistedTerminalReceiptV1,
    revision_after: u64,
    result: &serde_json::Map<String, serde_json::Value>,
) -> (matches: bool)
    ensures
        matches == decision_result_agrees(*receipt, revision_after, json::json_members(*result)),
{
    let graph = match &receipt.graph_session_projection {
        Some(graph) => graph,
        None => {
            return false;
        },
    };
    let (record, target_attempt_id) = match &graph.operation {
        Some(PersistedGraphTerminalOperationV2::Decide { record, target_attempt_id }) => (
            record,
            target_attempt_id,
        ),
        _ => {
            return false;
        },
    };
    let decision = match json_as_object(record) {
        Some(decision) => decision,
        None => {
            return false;
        },
    };
    let same_record = same_optional_value(json_map_get(result, "record"), Some(record));
    graph.lifecycle == PersistedSessionLifecycleV1::Running && graph.revision_after
        == revision_after && member_unsigned_is(result, "revision", revision_after)
        && member_text_is(result, "session_state", "running") && same_record && same_member(
        result,
        "graph_node_id",
        decision,
        "graph_node_id",
    ) && same_member(result, "attempt_id", decision, "attempt_id") && same_member(
        result,
        "attempt_number",
        decision,
        "attempt_number",
    ) && same_member(result, "option_id", decision, "option_id") && same_member(
        result,
        "effect",
        decision,
        "effect",
    ) && same_member(result, "target_graph_node_id", decision, "target_graph_node_id")
        && member_text_is(result, "target_attempt_id", target_attempt_id)
}

/// Whether a rework result tells of the rework that the receipt records, and of nothing else.
pub open spec fn rework_result_agrees(
    receipt: PersistedTerminalReceiptV1,
    revision_after: u64,
    members: Members,
) -> bool {
    receipt.graph_session_projection matches Some(graph) && graph.operation matches Some(
        PersistedGraphTerminalOperationV2::Rework { record },
    ) && json::record_of(json::json_tree(record)) matches Some(rework) && {
        &&& graph.lifecycle is Running
        &&& graph.revision_after == revision_after
        &&& members.dom().len() == 8
        &&& says_unsigned(members, "revision"@, revision_after)
        &&& agree_on(members, rework, "from_graph_node_id"@)
        &&& agree_on(members, rework, "to_graph_node_id"@)
        &&& agree_on(members, rework, "target_attempt_id"@)
        &&& agree_on(members, rework, "reason"@)
        &&& agree_on(members, rework, "reactivated"@)
    }
}

fn rework_result_matches(
    receipt: &PersistedTerminalReceiptV1,
    revision_after: u64,
    result: &serde_json::Map<String, serde_json::Value>,
) -> (matches: bool)
    ensures
        matches == rework_result_agrees(*receipt, revision_after, json::json_members(*result)),
{
    let graph = match &receipt.graph_session_projection {
        Some(graph) => graph,
        None => {
            return false;
        },
    };
    let record = match &graph.operation {
        Some(PersistedGraphTerminalOperationV2::Rework { record }) => record,
        _ => {
            return false;
        },
    };
    let rework = match json_as_object(record) {
        Some(rework) => rework,
        None => {
            return false;
        },
    };
    graph.lifecycle == PersistedSessionLifecycleV1::Running && graph.revision_after
        == revision_after && json_map_len(result) == 8 && member_unsigned_is(
        result,
        "revision",
        revision_after,
    ) && same_member(result, "from_graph_node_id", rework, "from_graph_node_id") && same_member(
        result,
        "to_graph_node_id",
        rework,
        "to_graph_node_id",
    ) && same_member(result, "target_attempt_id", rework, "target_attempt_id") && same_member(
        result,
        "reason",
        rework,
        "reason",
    ) && same_member(result, "reactivated", rework, "reactivated")
}

/// Whether a transition result tells of the operation that a graph session records. A session
/// that was reset has no state left to tell of.
pub open spec fn graph_transition_agrees(
    graph: PersistedGraphTerminalSessionProjectionV2,
    revision_after: u64,
    members: Members,
) -> bool {
    let state = lifecycle_text(graph.lifecycle)@;
    let common = says_unsigned(members, "revision"@, revision_after) && says_text(
        members,
        "session_state"@,
        state,
    );
    match graph.operation {
        Some(
            PersistedGraphTerminalOperationV2::Complete {
                from_graph_node_id,
                from_attempt_id,
                to_graph_node_id,
                to_attempt_id,
            },
        ) => {
            &&& common
            &&& says_text(members, "transition"@, "complete"@)
            &&& says_text(members, "from_graph_node_id"@, from_graph_node_id@)
            &&& says_text(members, "from_attempt_id"@, from_attempt_id@)
            &&& says_optional_text(members, "to_graph_node_id"@, to_graph_node_id)
            &&& says_optional_text(members, "to_attempt_id"@, to_attempt_id)
        },
        Some(
            PersistedGraphTerminalOperationV2::Skip {
                from_graph_node_id,
                from_attempt_id,
                to_graph_node_id,
                to_attempt_id,
                reason,
            },
        ) => {
            &&& common
            &&& says_text(members, "transition"@, "skip"@)
            &&& says_text(members, "from_graph_node_id"@, from_graph_node_id@)
            &&& says_text(members, "from_attempt_id"@, from_attempt_id@)
            &&& says_optional_text(members, "to_graph_node_id"@, to_graph_node_id)
            &&& says_optional_text(members, "to_attempt_id"@, to_attempt_id)
            &&& says_optional_text(members, "reason"@, reason)
        },
        Some(
            PersistedGraphTerminalOperationV2::Retry {
                graph_node_id,
                from_attempt_id,
                to_attempt_id,
                reason,
            },
        ) => {
            &&& common
            &&& graph.lifecycle is Running
            &&& says_text(members, "transition"@, "retry"@)
            &&& says_text(members, "from_graph_node_id"@, graph_node_id@)
            &&& says_text(members, "to_graph_node_id"@, graph_node_id@)
            &&& says_text(members, "from_attempt_id"@, from_attempt_id@)
            &&& says_text(members, "to_attempt_id"@, to_attempt_id@)
            &&& says_text(members, "reason"@, reason@)
        },
        Some(
            PersistedGraphTerminalOperationV2::Block {
                graph_node_id,
                attempt_id,
                blocker_id,
                reason,
            },
        ) => {
            &&& common
            &&& graph.lifecycle is Running
            &&& says_text(members, "transition"@, "block"@)
            &&& says_text(members, "from_graph_node_id"@, graph_node_id@)
            &&& says_text(members, "from_attempt_id"@, attempt_id@)
            &&& says_text(members, "blocker_id"@, blocker_id@)
            &&& says_text(members, "reason"@, reason@)
        },
        Some(
            PersistedGraphTerminalOperationV2::Unblock {
                graph_node_id,
                attempt_id,
                all,
                blocker_ids,
            },
        ) => {
            &&& common
            &&& graph.lifecycle is Running
            &&& says_text(members, "transition"@, "unblock"@)
            &&& says_text(members, "from_graph_node_id"@, graph_node_id@)
            &&& says_text(members, "from_attempt_id"@, attempt_id@)
            &&& if all {
                &&& says_bool(members, "all"@, true)
                &&& json::member(members, "blocker_id"@) is None
            } else {
                &&& blocker_ids@.len() == 1
                &&& says_text(members, "blocker_id"@, blocker_ids@[0]@)
                &&& json::member(members, "all"@) is None
            }
        },
        Some(PersistedGraphTerminalOperationV2::Cancel { graph_node_id, attempt_id }) => {
            &&& common
            &&& graph.lifecycle is Cancelled
            &&& says_text(members, "transition"@, "cancel"@)
            &&& says_text(members, "from_graph_node_id"@, graph_node_id@)
            &&& says_text(members, "from_attempt_id"@, attempt_id@)
            &&& json::member(members, "reason"@) is None
        },
        Some(PersistedGraphTerminalOperationV2::Reset { session_id }) => {
            &&& graph.session_id@ == session_id@
            &&& says_unsigned(members, "revision"@, revision_after)
            &&& says_text(members, "transition"@, "reset"@)
            &&& says_bool(members, "reset"@, true)
            &&& json::member(members, "session_state"@) is None
        },
        _ => false,
    }
}

fn graph_transition_matches(
    graph: &PersistedGraphTerminalSessionProjectionV2,
    revision_after: u64,
    result: &serde_json::Map<String, serde_json::Value>,
) -> (matches: bool)
    ensures
        matches == graph_transition_agrees(*graph, revision_after, json::json_members(*result)),
{
    let state: &'static str = lifecycle_name(graph.lifecycle);
    let common = member_unsigned_is(result, "revision", revision_after) && member_text_is(
        result,
        "session_state",
        state,
    );
    match &graph.operation {
        Some(
            PersistedGraphTerminalOperationV2::Complete {
                from_graph_node_id,
                from_attempt_id,
                to_graph_node_id,
                to_attempt_id,
            },
        ) => common && member_text_is(result, "transition", "complete") && member_text_is(
            result,
            "from_graph_node_id",
            from_graph_node_id,
        ) && member_text_is(result, "from_attempt_id", from_attempt_id) && member_text_matches(
            result,
            "to_graph_node_id",
            to_graph_node_id,
        ) && member_text_matches(result, "to_attempt_id", to_attempt_id),
        Some(
            PersistedGraphTerminalOperationV2::Skip {
                from_graph_node_id,
                from_attempt_id,
                to_graph_node_id,
                to_attempt_id,
                reason,
            },
        ) => common && member_text_is(result, "transition", "skip") && member_text_is(
            result,
            "from_graph_node_id",
            from_graph_node_id,
        ) && member_text_is(result, "from_attempt_id", from_attempt_id) && member_text_matches(
            result,
            "to_graph_node_id",
            to_graph_node_id,
        ) && member_text_matches(result, "to_attempt_id", to_attempt_id) && member_text_matches(
            result,
            "reason",
            reason,
        ),
        Some(
            PersistedGraphTerminalOperationV2::Retry {
                graph_node_id,
                from_attempt_id,
                to_attempt_id,
                reason,
            },
        ) => common && graph.lifecycle == PersistedSessionLifecycleV1::Running && member_text_is(
            result,
            "transition",
            "retry",
        ) && member_text_is(result, "from_graph_node_id", graph_node_id) && member_text_is(
            result,
            "to_graph_node_id",
            graph_node_id,
        ) && member_text_is(result, "from_attempt_id", from_attempt_id) && member_text_is(
            result,
            "to_attempt_id",
            to_attempt_id,
        ) && member_text_is(result, "reason", reason),
        Some(
            PersistedGraphTerminalOperationV2::Block {
                graph_node_id,
                attempt_id,
                blocker_id,
                reason,
            },
        ) => common && graph.lifecycle == PersistedSessionLifecycleV1::Running && member_text_is(
            result,
            "transition",
            "block",
        ) && member_text_is(result, "from_graph_node_id", graph_node_id) && member_text_is(
            result,
            "from_attempt_id",
            attempt_id,
        ) && member_text_is(result, "blocker_id", blocker_id) && member_text_is(
            result,
            "reason",
            reason,
        ),
        Some(
            PersistedGraphTerminalOperationV2::Unblock {
                graph_node_id,
                attempt_id,
                all,
                blocker_ids,
            },
        ) => {
            let unblocks = common && graph.lifecycle == PersistedSessionLifecycleV1::Running
                && member_text_is(result, "transition", "unblock") && member_text_is(
                result,
                "from_graph_node_id",
                graph_node_id,
            ) && member_text_is(result, "from_attempt_id", attempt_id);
            if *all {
                unblocks && member_bool_is(result, "all", true) && json_map_get(
                    result,
                    "blocker_id",
                ).is_none()
            } else {
                unblocks && blocker_ids.len() == 1 && member_text_is(
                    result,
                    "blocker_id",
                    &blocker_ids[0],
                ) && json_map_get(result, "all").is_none()
            }
        },
        Some(PersistedGraphTerminalOperationV2::Cancel { graph_node_id, attempt_id }) => common
            && graph.lifecycle == PersistedSessionLifecycleV1::Cancelled && member_text_is(
            result,
            "transition",
            "cancel",
        ) && member_text_is(result, "from_graph_node_id", graph_node_id) && member_text_is(
            result,
            "from_attempt_id",
            attempt_id,
        ) && json_map_get(result, "reason").is_none(),
        Some(PersistedGraphTerminalOperationV2::Reset { session_id }) => graph.session_id
            == *session_id && member_unsigned_is(result, "revision", revision_after)
            && member_text_is(result, "transition", "reset") && member_bool_is(
            result,
            "reset",
            true,
        ) && json_map_get(result, "session_state").is_none(),
        _ => false,
    }
}

/// Whether a transition result tells of the command that the receipt was made for, where no graph
/// session records it. After a reset there is no session left to tell of.
pub open spec fn plain_transition_agrees(
    receipt: PersistedTerminalReceiptV1,
    revision_after: u64,
    members: Members,
) -> bool {
    let transition = match receipt.lookup_command {
        Some(command) => stage_transition(command),
        None => None,
    };
    &&& says_unsigned(members, "revision"@, revision_after)
    &&& json::text_of(json::member(members, "transition"@)) == json::optional_text(transition)
    &&& if receipt.lookup_command == Some(CommandV1::SessionReset) {
        &&& receipt.session_projection is None
        &&& says_bool(members, "reset"@, true)
    } else {
        receipt.session_projection matches Some(session) && says_text(
            members,
            "session_state"@,
            lifecycle_text(session.lifecycle)@,
        ) && session.revision_after == revision_after
    }
}

fn plain_transition_matches(
    receipt: &PersistedTerminalReceiptV1,
    revision_after: u64,
    result: &serde_json::Map<String, serde_json::Value>,
) -> (matches: bool)
    ensures
        matches == plain_transition_agrees(*receipt, revision_after, json::json_members(*result)),
{
    let (transition, resets) = match receipt.lookup_command {
        Some(command) => (
            expected_stage_transition_v2(command),
            command == CommandV1::SessionReset,
        ),
        None => (None, false),
    };
    let base_matches = member_unsigned_is(result, "revision", revision_after) && (
    match transition {
        Some(transition) => member_text_is(result, "transition", transition),
        None => match json_map_get(result, "transition") {
            Some(value) => json_as_str(value).is_none(),
            None => true,
        },
    });
    if resets {
        base_matches && receipt.session_projection.is_none() && member_bool_is(
            result,
            "reset",
            true,
        )
    } else {
        match &receipt.session_projection {
            Some(session) => base_matches && member_text_is(
                result,
                "session_state",
                lifecycle_name(session.lifecycle),
            ) && session.revision_after == revision_after,
            None => false,
        }
    }
}

/// Whether an item result tells of the change that the receipt records and, where a graph session
/// records it too, of that session's own account of it.
pub open spec fn item_result_agrees(
    receipt: PersistedTerminalReceiptV1,
    item_id: Seq<char>,
    revision_after: u64,
    changed: bool,
    members: Members,
) -> bool {
    &&& says_text(members, "item_id"@, item_id)
    &&& says_unsigned(members, "revision"@, revision_after)
    &&& says_bool(members, "changed"@, changed)
    &&& match receipt.graph_session_projection {
        None => true,
        Some(graph) => graph.operation matches Some(
            PersistedGraphTerminalOperationV2::ItemMutation {
                graph_node_id,
                attempt_id,
                attempt_number,
                item_id: operation_item_id,
                value_digest,
            },
        ) && {
            &&& operation_item_id@ == item_id
            &&& says_text(members, "graph_node_id"@, graph_node_id@)
            &&& says_text(members, "attempt_id"@, attempt_id@)
            &&& says_unsigned(members, "attempt_number"@, attempt_number)
            &&& says_optional_text(members, "value_digest"@, value_digest)
        },
    }
}

fn item_result_matches(
    receipt: &PersistedTerminalReceiptV1,
    item_id: &String,
    revision_after: u64,
    changed: bool,
    result: &serde_json::Map<String, serde_json::Value>,
) -> (matches: bool)
    ensures
        matches == item_result_agrees(
            *receipt,
            item_id@,
            revision_after,
            changed,
            json::json_members(*result),
        ),
{
    let common = member_text_is(result, "item_id", item_id) && member_unsigned_is(
        result,
        "revision",
        revision_after,
    ) && member_bool_is(result, "changed", changed);
    match &receipt.graph_session_projection {
        None => common,
        Some(graph) => match &graph.operation {
            Some(
                PersistedGraphTerminalOperationV2::ItemMutation {
                    graph_node_id,
                    attempt_id,
                    attempt_number,
                    item_id: operation_item_id,
                    value_digest,
                },
            ) => common && *operation_item_id == *item_id && member_text_is(
                result,
                "graph_node_id",
                graph_node_id,
            ) && member_text_is(result, "attempt_id", attempt_id) && member_unsigned_is(
                result,
                "attempt_number",
                *attempt_number,
            ) && member_text_matches(result, "value_digest", value_digest),
            _ => false,
        },
    }
}

/// Whether an object has every member of another.
fn repeats_record(
    result: &serde_json::Map<String, serde_json::Value>,
    record: &serde_json::Map<String, serde_json::Value>,
) -> (all: bool)
    ensures
        all == repeats(json::json_members(*result), json::json_members(*record)),
{
    let ghost members = json::json_members(*result);
    let ghost expected = json::json_members(*record);
    let names = json_map_keys(record);
    let mut position: usize = 0;
    while position < names.len()
        invariant
            position <= names@.len(),
            members == json::json_members(*result),
            expected == json::json_members(*record),
            forall|name: Seq<char>|
                #![trigger expected.dom().contains(name)]
                expected.dom().contains(name) <==> exists|i: int|
                    0 <= i < names@.len() && #[trigger] names@[i]@ == name,
            forall|i: int|
                0 <= i < position ==> json::member(members, (#[trigger] names@[i])@)
                    == json::member(expected, names@[i]@),
        decreases names.len() - position,
    {
        let name = &names[position];
        if !same_member(result, name, record, name) {
            proof {
                let text = names@[position as int]@;
                assert(expected.dom().contains(text));
            }
            return false;
        }
        position = position + 1;
    }
    true
}

/// Whether a goal result repeats the goal that a graph session records.
pub open spec fn goal_result_agrees(
    record: serde_json::Value,
    revision_after: u64,
    members: Members,
) -> bool {
    json::record_of(json::json_tree(record)) matches Some(goal) && repeats(members, goal)
        && says_unsigned(members, "revision"@, revision_after)
}

fn goal_result_matches(
    record: &serde_json::Value,
    revision_after: u64,
    result: &serde_json::Map<String, serde_json::Value>,
) -> (matches: bool)
    ensures
        matches == goal_result_agrees(*record, revision_after, json::json_members(*result)),
{
    match json_as_object(record) {
        Some(goal) => repeats_record(result, goal) && member_unsigned_is(
            result,
            "revision",
            revision_after,
        ),
        None => false,
    }
}

/// Whether a public citation names what a recorded citation names.
pub open spec fn citation_agrees(stored: json::JsonTreeV1, public: json::JsonTreeV1) -> bool {
    json::record_of(stored) matches Some(citation) && if json::text_of(
        json::member(citation, "kind"@),
    ) == Some("evidence"@) {
        json::tree_member(public, "reference_graph_node_id"@) == json::member(
            citation,
            "graph_node_id"@,
        )
    } else if json::text_of(json::member(citation, "kind"@)) == Some("item"@) {
        json::tree_member(public, "local_item_id"@) == json::member(citation, "item_id"@)
    } else {
        false
    }
}

fn citation_matches(stored: &serde_json::Value, public: &serde_json::Value) -> (matches: bool)
    ensures
        matches == citation_agrees(json::json_tree(*stored), json::json_tree(*public)),
{
    let citation = match json_as_object(stored) {
        Some(citation) => citation,
        None => {
            return false;
        },
    };
    if member_text_is(citation, "kind", "evidence") {
        same_optional_value(
            json_value_get(public, "reference_graph_node_id"),
            json_map_get(citation, "graph_node_id"),
        )
    } else if member_text_is(citation, "kind", "item") {
        same_optional_value(
            json_value_get(public, "local_item_id"),
            json_map_get(citation, "item_id"),
        )
    } else {
        false
    }
}

/// Whether two lists of citations agree one by one.
pub open spec fn citations_agree(
    stored: Seq<json::JsonTreeV1>,
    public: Seq<json::JsonTreeV1>,
) -> bool {
    stored.len() == public.len() && forall|i: int|
        0 <= i < stored.len() ==> citation_agrees(#[trigger] stored[i], public[i])
}

fn citations_match(
    stored: &Vec<serde_json::Value>,
    public: &Vec<serde_json::Value>,
) -> (matches: bool)
    ensures
        matches == citations_agree(json::json_trees(stored@), json::json_trees(public@)),
{
    if stored.len() != public.len() {
        return false;
    }
    let ghost left = json::json_trees(stored@);
    let ghost right = json::json_trees(public@);
    let mut position: usize = 0;
    while position < stored.len()
        invariant
            position <= stored.len(),
            stored.len() == public.len(),
            left == json::json_trees(stored@),
            right == json::json_trees(public@),
            forall|i: int| 0 <= i < position ==> citation_agrees(#[trigger] left[i], right[i]),
        decreases stored.len() - position,
    {
        if !citation_matches(&stored[position], &public[position]) {
            assert(!citation_agrees(left[position as int], right[position as int]));
            return false;
        }
        position = position + 1;
    }
    true
}

/// Whether an assessment result tells of the assessment that a graph session records.
pub open spec fn assessment_result_agrees(
    record: serde_json::Value,
    revision_after: u64,
    members: Members,
) -> bool {
    json::record_of(json::json_tree(record)) matches Some(assessment) && json::member(
        assessment,
        "result"@,
    ) matches Some(json::JsonTreeV1::Record(stored)) && json::member(
        members,
        "result"@,
    ) matches Some(json::JsonTreeV1::Record(public)) && json::list_of(
        json::member(stored, "citations"@),
    ) matches Some(stored_citations) && json::list_of(
        json::member(public, "citations"@),
    ) matches Some(public_citations) && {
        &&& citations_agree(stored_citations, public_citations)
        &&& agree_on(members, assessment, "graph_node_id"@)
        &&& agree_on(members, assessment, "attempt_id"@)
        &&& agree_on(members, assessment, "goal_revision"@)
        &&& agree_on(members, assessment, "mode"@)
        &&& agree_on(members, assessment, "complete"@)
        &&& agree_on(members, assessment, "determined_outcome"@)
        &&& agree_on(public, stored, "criterion_id"@)
        &&& agree_on(public, stored, "status"@)
        &&& agree_on(public, stored, "reason"@)
        &&& says_unsigned(members, "revision"@, revision_after)
    }
}

/// The member of the given name, where it is an object.
fn object_member<'a>(
    object: &'a serde_json::Map<String, serde_json::Value>,
    name: &str,
) -> (found: Option<&'a serde_json::Map<String, serde_json::Value>>)
    ensures
        match found {
            Some(found) => json::member(json::json_members(*object), name@) == Some(
                json::JsonTreeV1::Record(json::json_members(*found)),
            ),
            None => !(json::member(json::json_members(*object), name@) matches Some(
                json::JsonTreeV1::Record(_),
            )),
        },
{
    match json_map_get(object, name) {
        Some(value) => json_as_object(value),
        None => None,
    }
}

/// The member of the given name, where it is an array.
fn array_member<'a>(
    object: &'a serde_json::Map<String, serde_json::Value>,
    name: &str,
) -> (found: Option<&'a Vec<serde_json::Value>>)
    ensures
        match found {
            Some(found) => json::list_of(json::member(json::json_members(*object), name@)) == Some(
                json::json_trees(found@),
            ),
            None => json::list_of(json::member(json::json_members(*object), name@)) is None,
        },
{
    match json_map_get(object, name) {
        Some(value) => json_as_array(value),
        None => None,
    }
}

fn assessment_result_matches(
    record: &serde_json::Value,
    revision_after: u64,
    result: &serde_json::Map<String, serde_json::Value>,
) -> (matches: bool)
    ensures
        matches == assessment_result_agrees(*record, revision_after, json::json_members(*result)),
{
    let assessment = match json_as_object(record) {
        Some(assessment) => assessment,
        None => {
            return false;
        },
    };
    let stored = match object_member(assessment, "result") {
        Some(stored) => stored,
        None => {
            return false;
        },
    };
    let public = match object_member(result, "result") {
        Some(public) => public,
        None => {
            return false;
        },
    };
    let same_citations = match (array_member(stored, "citations"), array_member(
        public,
        "citations",
    )) {
        (Some(stored_citations), Some(public_citations)) => citations_match(
            stored_citations,
            public_citations,
        ),
        _ => false,
    };
    same_citations && same_member(result, "graph_node_id", assessment, "graph_node_id")
        && same_member(result, "attempt_id", assessment, "attempt_id") && same_member(
        result,
        "goal_revision",
        assessment,
        "goal_revision",
    ) && same_member(result, "mode", assessment, "mode") && same_member(
        result,
        "complete",
        assessment,
        "complete",
    ) && same_member(result, "determined_outcome", assessment, "determined_outcome")
        && same_member(public, "criterion_id", stored, "criterion_id") && same_member(
        public,
        "status",
        stored,
        "status",
    ) && same_member(public, "reason", stored, "reason") && member_unsigned_is(
        result,
        "revision",
        revision_after,
    )
}

/// Whether a result of the given schema tells what the receipt of a changed session tells.
pub open spec fn session_result_agrees(
    receipt: PersistedTerminalReceiptV1,
    schema: Seq<char>,
    session_id: Seq<char>,
    revision_after: u64,
    members: Members,
) -> bool {
    if schema == "podway.session-start-result/v2"@ {
        start_result_agrees(receipt, session_id, revision_after, members)
    } else if schema == "podway.decision-result/v1"@ {
        decision_result_agrees(receipt, revision_after, members)
    } else if schema == "podway.rework-result/v1"@ {
        rework_result_agrees(receipt, revision_after, members)
    } else if schema == "podway.stage-transition-result/v2"@ {
        match receipt.graph_session_projection {
            Some(graph) => graph_transition_agrees(graph, revision_after, members),
            None => plain_transition_agrees(receipt, revision_after, members),
        }
    } else if schema == "podway.goal-definition-result/v1"@ {
        graph_operation(receipt) matches Some(
            PersistedGraphTerminalOperationV2::GoalDefine { record },
        ) && goal_result_agrees(record, revision_after, members)
    } else if schema == "podway.criterion-assessment-result/v1"@ {
        graph_operation(receipt) matches Some(
            PersistedGraphTerminalOperationV2::GoalAssessCriterion { record },
        ) && assessment_result_agrees(record, revision_after, members)
    } else if schema == "podway.goal-revision-result/v1"@ {
        graph_operation(receipt) matches Some(
            PersistedGraphTerminalOperationV2::GoalRevise { record },
        ) && goal_result_agrees(record, revision_after, members)
    } else {
        false
    }
}

fn session_result_matches(
    receipt: &PersistedTerminalReceiptV1,
    schema: &str,
    session_id: &String,
    revision_after: u64,
    result: &serde_json::Map<String, serde_json::Value>,
) -> (matches: bool)
    ensures
        matches == session_result_agrees(
            *receipt,
            schema@,
            session_id@,
            revision_after,
            json::json_members(*result),
        ),
{
    if same_text(schema, "podway.session-start-result/v2") {
        start_result_matches(receipt, session_id, revision_after, result)
    } else if same_text(schema, "podway.decision-result/v1") {
        decision_result_matches(receipt, revision_after, result)
    } else if same_text(schema, "podway.rework-result/v1") {
        rework_result_matches(receipt, revision_after, result)
    } else if same_text(schema, "podway.stage-transition-result/v2") {
        match &receipt.graph_session_projection {
            Some(graph) => graph_transition_matches(graph, revision_after, result),
            None => plain_transition_matches(receipt, revision_after, result),
        }
    } else if same_text(schema, "podway.goal-definition-result/v1") {
        match graph_operation_of(receipt) {
            Some(PersistedGraphTerminalOperationV2::GoalDefine { record }) => goal_result_matches(
                record,
                revision_after,
                result,
            ),
            _ => false,
        }
    } else if same_text(schema, "podway.criterion-assessment-result/v1") {
        match graph_operation_of(receipt) {
            Some(PersistedGraphTerminalOperationV2::GoalAssessCriterion { record }) =>
                assessment_result_matches(record, revision_after, result),
            _ => false,
        }
    } else if same_text(schema, "podway.goal-revision-result/v1") {
        match graph_operation_of(receipt) {
            Some(PersistedGraphTerminalOperationV2::GoalRevise { record }) => goal_result_matches(
                record,
                revision_after,
                result,
            ),
            _ => false,
        }
    } else {
        false
    }
}

/// Whether a frozen result tells what its receipt tells.
pub open spec fn frozen_result_agrees(
    receipt: PersistedTerminalReceiptV1,
    members: Members,
) -> bool {
    json::text_of(json::member(members, "schema"@)) matches Some(schema) && match receipt.result {
        PersistedTerminalResultV1::Success(
            PersistedDomainResultV1::SessionChanged { session_id, revision_after, .. },
        ) => session_result_agrees(receipt, schema, session_id@, revision_after, members),
        PersistedTerminalResultV1::Success(
            PersistedDomainResultV1::ItemChanged { item_id, revision_after, changed, .. },
        ) => schema == "podway.item-mutation-result/v2"@ && item_result_agrees(
            receipt,
            item_id@,
            revision_after,
            changed,
            members,
        ),
        _ => false,
    }
}

/// Whether a frozen result tells what its receipt tells.
pub fn frozen_v2_result_matches(
    receipt: &PersistedTerminalReceiptV1,
    result: &serde_json::Map<String, serde_json::Value>,
) -> (matches: bool)
    ensures
        matches == frozen_result_agrees(*receipt, json::json_members(*result)),
{
    let schema = match json_map_get(result, "schema") {
        Some(value) => match json_as_str(value) {
            Some(schema) => schema,
            None => {
                return false;
            },
        },
        None => {
            return false;
        },
    };
    match &receipt.result {
        PersistedTerminalResultV1::Success(
            PersistedDomainResultV1::SessionChanged { session_id, revision_after, .. },
        ) => session_result_matches(receipt, schema, session_id, *revision_after, result),
        PersistedTerminalResultV1::Success(
            PersistedDomainResultV1::ItemChanged { item_id, revision_after, changed, .. },
        ) => same_text(schema, "podway.item-mutation-result/v2") && item_result_matches(
            receipt,
            item_id,
            *revision_after,
            *changed,
            result,
        ),
        _ => false,
    }
}

/// Refuses a frozen result that does not tell what its receipt tells.
pub fn validate_frozen_v2_result_projection(
    receipt: &PersistedTerminalReceiptV1,
    result: &serde_json::Map<String, serde_json::Value>,
) -> (verdict: Result<(), DispatchFailureV1>)
    ensures
        match verdict {
            Ok(()) => frozen_result_agrees(*receipt, json::json_members(*result)),
            Err(failure) => !frozen_result_agrees(*receipt, json::json_members(*result)) && failure
                == failures::integrity_failure(),
        },
{
    if frozen_v2_result_matches(receipt, result) {
        Ok(())
    } else {
        Err(terminal_replay_integrity_failure())
    }
}

} // verus!
