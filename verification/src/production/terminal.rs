//! What is answered for a job that has ended.
//!
//! The answer comes from the job's receipt alone. A receipt that keeps the response made for it is
//! answered with that response, once it has been held against the rest of the receipt. Writing a
//! response out, and reading one back, is left to the caller, who hands in what came of it.

use crate::civil_time;
use crate::dispatch;
use crate::dispatch::{
    DispatchFailureKindV1, DispatchFailureV1, JobOutputV1, SessionLifecycleV1, SessionOutputV1,
};
use crate::json;
use crate::json::{
    json_as_object, json_equal, json_map_get, json_map_insert, json_map_new, json_map_remove,
    json_null, json_object, json_value_get, member_bool_is, member_text_is, member_unsigned_is,
    same_optional_value,
};
use crate::production::failures;
use crate::production::failures::{
    map_graph_mutation_failure_v2, map_terminal_domain_error, terminal_replay_integrity_failure,
    TerminalCommandKindV1,
};
use crate::production::frozen;
use crate::production::frozen::{frozen_v2_result_matches, graph_operation_of, Members};
use crate::production::graph_envelope;
use crate::production::graph_envelope::{
    graph_terminal_envelope_v2, put_bool, put_text, put_unsigned, GraphTerminalEnvelopeV2,
};
use crate::production::receipts;
use crate::production::receipts::{
    durable_command_name, job_output, job_output_from_terminal_receipt, protocol_job_state,
    terminal_command_kind_from_store, terminal_response_context, TerminalResponseContextV1,
};
use crate::store::{
    JobViewV1, PersistedDomainResultV1, PersistedGraphTerminalOperationV2,
    PersistedSessionLifecycleV1, PersistedTerminalReceiptV1, PersistedTerminalResultV1,
    PersistedTerminalSessionProjectionV1, StoreErrorV1, StoreInvariantV1, StoreJobStateV1,
};
use crate::text::{same_optional_text, same_text};
use vstd::prelude::*;

verus! {

/// What a frozen response was read back as.
#[derive(Clone, Debug, PartialEq, Eq)]
pub enum DecodedResponseV2 {
    /// It is no response.
    Rejected,
    /// An output of the second version.
    OutputV2 {
        command: String,
        job: Option<JobOutputV1>,
        generated_at: String,
        result: serde_json::Map<String, serde_json::Value>,
    },
    /// An error, written out once more.
    Error { document: serde_json::Value },
    /// A response of another kind.
    Other,
}

/// What a frozen response is held against besides its receipt.
#[derive(Debug, PartialEq, Eq)]
pub struct FrozenEnvelopeEvidenceV1 {
    /// The receipt's job, written out.
    pub job_document: serde_json::Value,
    /// What the response was read back as.
    pub decoded: DecodedResponseV2,
    /// The error that the receipt calls for, written out, or why it could not be.
    pub expected_error: Result<serde_json::Value, DispatchFailureV1>,
}

/// What a terminal job is answered with.
#[derive(Clone, Debug, PartialEq, Eq)]
pub enum DispatcherTerminalResultV1 {
    Output {
        session: Option<SessionOutputV1>,
        result: serde_json::Map<String, serde_json::Value>,
    },
    Error(DispatchFailureV1),
}

/// The response for a terminal job: a document, or what one is to be made from.
#[derive(Clone, Debug, PartialEq, Eq)]
pub enum TerminalJobResponseV1 {
    Document(serde_json::Value),
    Render {
        context: TerminalResponseContextV1,
        job: JobOutputV1,
        result: DispatcherTerminalResultV1,
    },
}

impl FrozenEnvelopeEvidenceV1 {
    /// The evidence for a receipt that keeps no response.
    pub fn absent() -> (evidence: Self)
        ensures
            evidence.decoded is Rejected,
            json::json_tree(evidence.job_document) is Null,
            evidence.expected_error == Err::<serde_json::Value, DispatchFailureV1>(
                failures::integrity_failure(),
            ),
    {
        FrozenEnvelopeEvidenceV1 {
            job_document: json_null(),
            decoded: DecodedResponseV2::Rejected,
            expected_error: Err(terminal_replay_integrity_failure()),
        }
    }
}

/// A session as a response shows it.
pub open spec fn session_output(persisted: PersistedTerminalSessionProjectionV1) -> SessionOutputV1 {
    SessionOutputV1 {
        id: persisted.session_id,
        title: persisted.task_title,
        lifecycle: match persisted.lifecycle {
            PersistedSessionLifecycleV1::Running => SessionLifecycleV1::Running,
            PersistedSessionLifecycleV1::Completed => SessionLifecycleV1::Completed,
            PersistedSessionLifecycleV1::Cancelled => SessionLifecycleV1::Cancelled,
        },
        revision_before: persisted.revision_before,
        revision_after: persisted.revision_after,
    }
}

/// The session that a success is answered with. Only a command that changed a session has one, and
/// only a reset that cleared the session has none left.
pub open spec fn session_projection_of(
    result: PersistedDomainResultV1,
    persisted: Option<PersistedTerminalSessionProjectionV1>,
    command: TerminalCommandKindV1,
) -> Result<Option<SessionOutputV1>, DispatchFailureV1> {
    let touches_session = result is SessionChanged || result is ItemChanged;
    match persisted {
        Some(persisted) => if touches_session {
            Ok(Some(session_output(persisted)))
        } else {
            Err(failures::integrity_failure())
        },
        None => if !touches_session {
            Ok(None)
        } else if command is SessionReset && (result matches
            PersistedDomainResultV1::SessionChanged {
            changed,
            revision_before,
            revision_after,
            ..
        } && changed && revision_before > 0 && revision_after == 0) {
            Ok(None)
        } else {
            Err(failures::integrity_failure())
        },
    }
}

/// The session that a success is answered with.
pub fn terminal_session_projection(
    result: &PersistedDomainResultV1,
    persisted: &Option<PersistedTerminalSessionProjectionV1>,
    command: TerminalCommandKindV1,
) -> (session: Result<Option<SessionOutputV1>, DispatchFailureV1>)
    ensures
        session == session_projection_of(*result, *persisted, command),
{
    match (result, persisted) {
        (
            PersistedDomainResultV1::SessionChanged { .. }
            | PersistedDomainResultV1::ItemChanged { .. },
            Some(persisted),
        ) => {
            let lifecycle = match persisted.lifecycle {
                PersistedSessionLifecycleV1::Running => SessionLifecycleV1::Running,
                PersistedSessionLifecycleV1::Completed => SessionLifecycleV1::Completed,
                PersistedSessionLifecycleV1::Cancelled => SessionLifecycleV1::Cancelled,
            };
            Ok(
                Some(
                    SessionOutputV1 {
                        id: persisted.session_id.clone(),
                        title: persisted.task_title.clone(),
                        lifecycle,
                        revision_before: persisted.revision_before,
                        revision_after: persisted.revision_after,
                    },
                ),
            )
        },
        (
            PersistedDomainResultV1::SessionChanged {
                revision_before,
                revision_after,
                changed,
                ..
            },
            None,
        ) => if command == TerminalCommandKindV1::SessionReset && *changed && *revision_before > 0
            && *revision_after == 0 {
            Ok(None)
        } else {
            Err(terminal_replay_integrity_failure())
        },
        (PersistedDomainResultV1::ItemChanged { .. }, None) => Err(
            terminal_replay_integrity_failure(),
        ),
        (_, Some(_)) => Err(terminal_replay_integrity_failure()),
        (_, None) => Ok(None),
    }
}

/// Whether what a receipt says of its session fits how its job ended.
pub open spec fn receipt_projection_agrees(
    receipt: PersistedTerminalReceiptV1,
    command: TerminalCommandKindV1,
) -> bool {
    match receipt.graph_session_projection {
        Some(graph) => match graph.operation {
            Some(PersistedGraphTerminalOperationV2::ItemMutation { .. }) => receipt.result matches
                PersistedTerminalResultV1::Success(PersistedDomainResultV1::ItemChanged { .. }),
            Some(PersistedGraphTerminalOperationV2::Failure { .. }) => receipt.result is Failure,
            _ => receipt.result matches PersistedTerminalResultV1::Success(
                PersistedDomainResultV1::SessionChanged { .. },
            ),
        },
        None => match receipt.result {
            PersistedTerminalResultV1::Success(result) => session_projection_of(
                result,
                receipt.session_projection,
                command,
            ) is Ok,
            _ => receipt.session_projection is None,
        },
    }
}

/// Refuses a receipt whose session does not fit how its job ended.
pub fn validate_terminal_receipt_projection(
    receipt: &PersistedTerminalReceiptV1,
    command: TerminalCommandKindV1,
) -> (verdict: Result<(), DispatchFailureV1>)
    ensures
        match verdict {
            Ok(()) => receipt_projection_agrees(*receipt, command),
            Err(failure) => !receipt_projection_agrees(*receipt, command) && failure
                == failures::integrity_failure(),
        },
{
    if let Some(graph) = &receipt.graph_session_projection {
        return match (&graph.operation, &receipt.result) {
            (
                Some(PersistedGraphTerminalOperationV2::ItemMutation { .. }),
                PersistedTerminalResultV1::Success(PersistedDomainResultV1::ItemChanged { .. }),
            ) => Ok(()),
            (
                Some(PersistedGraphTerminalOperationV2::Failure { .. }),
                PersistedTerminalResultV1::Failure(_),
            ) => Ok(()),
            (
                Some(PersistedGraphTerminalOperationV2::ItemMutation { .. }),
                _,
            ) => Err(terminal_replay_integrity_failure()),
            (
                Some(PersistedGraphTerminalOperationV2::Failure { .. }),
                _,
            ) => Err(terminal_replay_integrity_failure()),
            (
                _,
                PersistedTerminalResultV1::Success(PersistedDomainResultV1::SessionChanged { .. }),
            ) => Ok(()),
            _ => Err(terminal_replay_integrity_failure()),
        };
    }
    match &receipt.result {
        PersistedTerminalResultV1::Success(result) => match terminal_session_projection(
            result,
            &receipt.session_projection,
            command,
        ) {
            Ok(_) => Ok(()),
            Err(failure) => Err(failure),
        },
        PersistedTerminalResultV1::Failure(_) | PersistedTerminalResultV1::Cancelled =>
            if receipt.session_projection.is_some() {
                Err(terminal_replay_integrity_failure())
            } else {
                Ok(())
            },
    }
}

/// What a success tells of itself.
pub open spec fn success_members(result: PersistedDomainResultV1) -> Members {
    match result {
        PersistedDomainResultV1::WorkspaceInitialized { revision, .. } =>
            graph_envelope::with_unsigned(
                graph_envelope::with_bool(json::no_members(), "initialized"@, true),
                "revision"@,
                revision,
            ),
        PersistedDomainResultV1::WorkspaceReset { revision, .. } => graph_envelope::with_unsigned(
            graph_envelope::with_bool(json::no_members(), "reset"@, true),
            "revision"@,
            revision,
        ),
        PersistedDomainResultV1::SessionChanged { revision_before, revision_after, changed, .. } =>
            graph_envelope::with_unsigned(
                graph_envelope::with_unsigned(
                    graph_envelope::with_bool(json::no_members(), "changed"@, changed),
                    "revision_before"@,
                    revision_before,
                ),
                "revision_after"@,
                revision_after,
            ),
        PersistedDomainResultV1::ItemChanged {
            item_id,
            revision_before,
            revision_after,
            changed,
            ..
        } => graph_envelope::with_unsigned(
            graph_envelope::with_unsigned(
                graph_envelope::with_text(
                    graph_envelope::with_bool(json::no_members(), "changed"@, changed),
                    "item_id"@,
                    item_id@,
                ),
                "revision_before"@,
                revision_before,
            ),
            "revision_after"@,
            revision_after,
        ),
    }
}

/// What a success tells of itself.
pub fn terminal_success_result_map(
    result: &PersistedDomainResultV1,
) -> (members: serde_json::Map<String, serde_json::Value>)
    ensures
        json::json_members(members) == success_members(*result),
{
    let mut members = json_map_new();
    match result {
        PersistedDomainResultV1::WorkspaceInitialized { revision, .. } => {
            put_bool(&mut members, "initialized", true);
            put_unsigned(&mut members, "revision", *revision);
        },
        PersistedDomainResultV1::WorkspaceReset { revision, .. } => {
            put_bool(&mut members, "reset", true);
            put_unsigned(&mut members, "revision", *revision);
        },
        PersistedDomainResultV1::SessionChanged {
            revision_before,
            revision_after,
            changed,
            ..
        } => {
            put_bool(&mut members, "changed", *changed);
            put_unsigned(&mut members, "revision_before", *revision_before);
            put_unsigned(&mut members, "revision_after", *revision_after);
        },
        PersistedDomainResultV1::ItemChanged {
            item_id,
            revision_before,
            revision_after,
            changed,
            ..
        } => {
            put_bool(&mut members, "changed", *changed);
            put_text(&mut members, "item_id", item_id);
            put_unsigned(&mut members, "revision_before", *revision_before);
            put_unsigned(&mut members, "revision_after", *revision_after);
        },
    }
    members
}

/// The digest of the procedure that a receipt's session was started with.
pub open spec fn started_digest(receipt: PersistedTerminalReceiptV1) -> Option<Seq<char>> {
    match receipt.session_projection {
        Some(session) => crate::text::optional_characters(session.procedure_digest),
        None => None,
    }
}

/// Whether a result is the one that a success is answered with. The answer to a start tells the
/// digest of the procedure, and so needs one.
pub open spec fn is_success_result(
    receipt: PersistedTerminalReceiptV1,
    success: PersistedDomainResultV1,
    command: TerminalCommandKindV1,
    result: Result<DispatcherTerminalResultV1, DispatchFailureV1>,
) -> bool {
    match session_projection_of(success, receipt.session_projection, command) {
        Err(failure) => result == Err::<DispatcherTerminalResultV1, DispatchFailureV1>(failure),
        Ok(session) => if command is Start {
            match started_digest(receipt) {
                None => result matches Err(failure) && failure == failures::integrity_failure(),
                Some(digest) => result matches Ok(
                    DispatcherTerminalResultV1::Output { session: shown, result: members },
                ) && shown == session && json::json_members(members) == graph_envelope::with_text(
                    success_members(success),
                    "procedure_digest"@,
                    digest,
                ),
            }
        } else {
            result matches Ok(
                DispatcherTerminalResultV1::Output { session: shown, result: members },
            ) && shown == session && json::json_members(members) == success_members(success)
        },
    }
}

/// Whether a result is the one that a receipt is answered with. A job that was cancelled was
/// cancelled for maintenance.
pub open spec fn is_terminal_result(
    receipt: PersistedTerminalReceiptV1,
    command: TerminalCommandKindV1,
    result: Result<DispatcherTerminalResultV1, DispatchFailureV1>,
) -> bool {
    if !receipt_projection_agrees(receipt, command) {
        result matches Err(failure) && failure == failures::integrity_failure()
    } else {
        match receipt.result {
            PersistedTerminalResultV1::Success(success) => is_success_result(
                receipt,
                success,
                command,
                result,
            ),
            PersistedTerminalResultV1::Failure(error) => result matches Ok(
                DispatcherTerminalResultV1::Error(failure),
            ) && failure == failures::terminal_domain_failure(error, command),
            PersistedTerminalResultV1::Cancelled => result matches Ok(
                DispatcherTerminalResultV1::Error(failure),
            ) && failure == dispatch::bare_failure(DispatchFailureKindV1::WorkspaceMaintenance),
        }
    }
}

/// What a receipt is answered with.
pub fn terminal_result_for_kind(
    receipt: &PersistedTerminalReceiptV1,
    command: TerminalCommandKindV1,
) -> (result: Result<DispatcherTerminalResultV1, DispatchFailureV1>)
    ensures
        is_terminal_result(*receipt, command, result),
{
    match validate_terminal_receipt_projection(receipt, command) {
        Ok(()) => {},
        Err(failure) => {
            return Err(failure);
        },
    }
    match &receipt.result {
        PersistedTerminalResultV1::Success(success) => {
            let session = match terminal_session_projection(
                success,
                &receipt.session_projection,
                command,
            ) {
                Ok(session) => session,
                Err(failure) => {
                    return Err(failure);
                },
            };
            let mut result = terminal_success_result_map(success);
            if command == TerminalCommandKindV1::Start {
                match &receipt.session_projection {
                    Some(persisted) => match &persisted.procedure_digest {
                        Some(digest) => {
                            put_text(&mut result, "procedure_digest", digest);
                        },
                        None => {
                            return Err(terminal_replay_integrity_failure());
                        },
                    },
                    None => {
                        return Err(terminal_replay_integrity_failure());
                    },
                }
            }
            Ok(DispatcherTerminalResultV1::Output { session, result })
        },
        PersistedTerminalResultV1::Failure(error) => Ok(
            DispatcherTerminalResultV1::Error(map_terminal_domain_error(error, command)),
        ),
        PersistedTerminalResultV1::Cancelled => Ok(
            DispatcherTerminalResultV1::Error(
                DispatchFailureV1::new(DispatchFailureKindV1::WorkspaceMaintenance),
            ),
        ),
    }
}

/// Whether an output that was read back is the one that a receipt freezes.
pub open spec fn frozen_output_agrees(
    receipt: PersistedTerminalReceiptV1,
    decoded: DecodedResponseV2,
) -> bool {
    decoded matches DecodedResponseV2::OutputV2 { command, job, generated_at, result }
        && receipt.lookup_command matches Some(expected) && job matches Some(job)
        && receipt.job_projection matches Some(projection) && json::member(
        json::json_members(result),
        "admission"@,
    ) matches Some(json::JsonTreeV1::Record(admission)) && {
        &&& command@ == receipts::command_name(expected)@
        &&& receipts::is_terminal_output(receipt, job)
        &&& generated_at@ == civil_time::timestamp(projection.finished_at as nat)
        &&& receipt.result is Success
        &&& frozen::says_bool(admission, "admitted"@, true)
        &&& frozen::says_text(admission, "job_id"@, receipt.job.job_id@)
        &&& frozen::says_unsigned(
            admission,
            "workspace_sequence"@,
            receipt.job.identity_sequence,
        )
        &&& frozen::frozen_result_agrees(receipt, json::json_members(result))
    }
}

/// Whether two jobs are shown alike.
pub open spec fn same_output(left: JobOutputV1, right: JobOutputV1) -> bool {
    left.id@ == right.id@ && left.sequence == right.sequence && left.state == right.state
        && left.submitted_at@ == right.submitted_at@ && crate::text::optional_characters(
        left.claimed_at,
    ) == crate::text::optional_characters(right.claimed_at) && crate::text::optional_characters(
        left.finished_at,
    ) == crate::text::optional_characters(right.finished_at)
}

/// Whether two jobs are shown alike.
pub fn same_job_output(left: &JobOutputV1, right: &JobOutputV1) -> (same: bool)
    ensures
        same == same_output(*left, *right),
{
    left.id == right.id && left.sequence == right.sequence && left.state == right.state
        && left.submitted_at == right.submitted_at && same_optional_text(
        &left.claimed_at,
        &right.claimed_at,
    ) && same_optional_text(&left.finished_at, &right.finished_at)
}

/// Whether an output that was read back is the one that a receipt freezes. The job is the one that
/// the receipt stands for.
fn validate_frozen_v2_terminal_envelope(
    receipt: &PersistedTerminalReceiptV1,
    decoded: &DecodedResponseV2,
    expected_job: &JobOutputV1,
) -> (agrees: bool)
    requires
        receipts::is_terminal_output(*receipt, *expected_job),
    ensures
        agrees == frozen_output_agrees(*receipt, *decoded),
{
    let (command, job, generated_at, result) = match decoded {
        DecodedResponseV2::OutputV2 { command, job: Some(job), generated_at, result } => (
            command,
            job,
            generated_at,
            result,
        ),
        _ => {
            return false;
        },
    };
    let expected_command: &'static str = match receipt.lookup_command {
        Some(command) => durable_command_name(command),
        None => {
            return false;
        },
    };
    let ends_as_dated = match &expected_job.finished_at {
        Some(finished_at) => *finished_at == *generated_at,
        None => false,
    };
    let succeeded = match &receipt.result {
        PersistedTerminalResultV1::Success(_) => true,
        _ => false,
    };
    let admission = match json_map_get(result, "admission") {
        Some(value) => match json_as_object(value) {
            Some(admission) => admission,
            None => {
                return false;
            },
        },
        None => {
            return false;
        },
    };
    same_text(command, expected_command) && same_job_output(job, expected_job) && ends_as_dated
        && succeeded && member_bool_is(admission, "admitted", true) && member_text_is(
        admission,
        "job_id",
        &expected_job.id,
    ) && member_unsigned_is(admission, "workspace_sequence", expected_job.sequence)
        && frozen_v2_result_matches(receipt, result)
}

/// Whether a failure is the one that a receipt calls for, or there is none because the receipt
/// contradicts itself.
pub open spec fn is_expected_failure(
    receipt: PersistedTerminalReceiptV1,
    expected: Result<DispatchFailureV1, DispatchFailureV1>,
) -> bool {
    match (receipt.result, frozen::graph_operation(receipt)) {
        (
            PersistedTerminalResultV1::Failure(_),
            Some(PersistedGraphTerminalOperationV2::Failure { error }),
        ) => expected matches Ok(failure) && failures::is_graph_failure(error, failure),
        (PersistedTerminalResultV1::Failure(error), None) => match receipt.lookup_command {
            Some(command) => expected matches Ok(failure) && failure
                == failures::terminal_domain_failure(error, receipts::terminal_kind(command)),
            None => expected matches Err(failure) && failure == failures::integrity_failure(),
        },
        _ => expected matches Err(failure) && failure == failures::integrity_failure(),
    }
}

/// The failure that a receipt calls for.
pub fn expected_terminal_failure(receipt: &PersistedTerminalReceiptV1) -> (expected: Result<
    DispatchFailureV1,
    DispatchFailureV1,
>)
    ensures
        is_expected_failure(*receipt, expected),
{
    let persisted_error = match &receipt.result {
        PersistedTerminalResultV1::Failure(error) => error,
        _ => {
            return Err(terminal_replay_integrity_failure());
        },
    };
    match graph_operation_of(receipt) {
        Some(PersistedGraphTerminalOperationV2::Failure { error }) => Ok(
            map_graph_mutation_failure_v2(error),
        ),
        Some(_) => Err(terminal_replay_integrity_failure()),
        None => match receipt.lookup_command {
            Some(command) => Ok(
                map_terminal_domain_error(
                    persisted_error,
                    terminal_command_kind_from_store(command),
                ),
            ),
            None => Err(terminal_replay_integrity_failure()),
        },
    }
}

/// Whether a receipt calls for an error.
pub open spec fn calls_for_error(receipt: PersistedTerminalReceiptV1) -> bool {
    receipt.result is Failure && match frozen::graph_operation(receipt) {
        Some(operation) => operation is Failure,
        None => receipt.lookup_command is Some,
    }
}

/// A document without its message.
pub open spec fn without_message(tree: json::JsonTreeV1) -> json::JsonTreeV1 {
    match tree {
        json::JsonTreeV1::Record(members) => json::JsonTreeV1::Record(
            members.remove("message"@),
        ),
        _ => tree,
    }
}

fn drop_message(document: &serde_json::Value) -> (rest: serde_json::Value)
    ensures
        json::json_tree(rest) == without_message(json::json_tree(*document)),
{
    match json_as_object(document) {
        Some(object) => {
            let mut rest = object.clone();
            json_map_remove(&mut rest, "message");
            json_object(rest)
        },
        None => document.clone(),
    }
}

/// What comes of holding a frozen error against the error that its receipt calls for. Their
/// messages may differ.
pub open spec fn frozen_error_verdict(
    receipt: PersistedTerminalReceiptV1,
    evidence: FrozenEnvelopeEvidenceV1,
) -> Result<(), DispatchFailureV1> {
    match evidence.decoded {
        DecodedResponseV2::Error { document } => if !calls_for_error(receipt) {
            Err(failures::integrity_failure())
        } else {
            match evidence.expected_error {
                Err(failure) => Err(failure),
                Ok(expected) => if without_message(json::json_tree(document)) == without_message(
                    json::json_tree(expected),
                ) {
                    Ok(())
                } else {
                    Err(failures::integrity_failure())
                },
            }
        },
        _ => Err(failures::integrity_failure()),
    }
}

fn validate_frozen_terminal_error(
    receipt: &PersistedTerminalReceiptV1,
    evidence: FrozenEnvelopeEvidenceV1,
) -> (verdict: Result<(), DispatchFailureV1>)
    ensures
        verdict == frozen_error_verdict(*receipt, evidence),
{
    let document = match &evidence.decoded {
        DecodedResponseV2::Error { document } => document,
        _ => {
            return Err(terminal_replay_integrity_failure());
        },
    };
    match expected_terminal_failure(receipt) {
        Ok(_) => {},
        Err(failure) => {
            return Err(failure);
        },
    }
    let actual = drop_message(document);
    match evidence.expected_error {
        Ok(expected) => if json_equal(&actual, &drop_message(&expected)) {
            Ok(())
        } else {
            Err(terminal_replay_integrity_failure())
        },
        Err(failure) => Err(failure),
    }
}

/// The workspace that a receipt's response names.
pub open spec fn workspace_tree(
    context: crate::store::PersistedResponseContextV1,
) -> json::JsonTreeV1 {
    json::JsonTreeV1::Record(
        graph_envelope::with_unsigned(
            graph_envelope::with_text(
                graph_envelope::with_text(
                    json::no_members(),
                    "uuid"@,
                    context.workspace_uuid@,
                ),
                "root"@,
                context.workspace_root@,
            ),
            "latest_workspace_sequence"@,
            context.workspace_sequence,
        ),
    )
}

/// Whether a frozen response names the request, the command and the workspace of its receipt.
pub open spec fn frozen_header_agrees(
    receipt: PersistedTerminalReceiptV1,
    members: Members,
) -> bool {
    receipt.response_context matches Some(context) && {
        &&& frozen::says_text(members, "request_id"@, context.request_id@)
        &&& frozen::says_text(members, "command"@, context.command@)
        &&& json::member(members, "workspace"@) == Some(workspace_tree(context))
    }
}

/// What comes of holding a frozen response against its receipt.
pub open spec fn frozen_verdict(
    receipt: PersistedTerminalReceiptV1,
    envelope: json::JsonTreeV1,
    evidence: FrozenEnvelopeEvidenceV1,
) -> Result<(), DispatchFailureV1> {
    match envelope {
        json::JsonTreeV1::Record(members) => {
            let schema = json::text_of(json::member(members, "schema"@));
            let is_known = schema == Some("podway.output/v1"@) || schema == Some(
                "podway.output/v2"@,
            ) || schema == Some("podway.error/v1"@);
            if !is_known || !frozen_header_agrees(receipt, members) {
                Err(failures::integrity_failure())
            } else {
                match receipts::terminal_output_failure(receipt) {
                    Some(failure) => Err(failure),
                    None => if schema == Some("podway.output/v1"@) {
                        if json::member(members, "job"@) == Some(
                            json::json_tree(evidence.job_document),
                        ) {
                            Ok(())
                        } else {
                            Err(failures::integrity_failure())
                        }
                    } else if schema == Some("podway.output/v2"@) {
                        if frozen_output_agrees(receipt, evidence.decoded) {
                            Ok(())
                        } else {
                            Err(failures::integrity_failure())
                        }
                    } else {
                        frozen_error_verdict(receipt, evidence)
                    },
                }
            }
        },
        _ => Err(failures::integrity_failure()),
    }
}

/// Refuses a frozen response that does not tell what its receipt tells.
pub fn validate_frozen_terminal_envelope(
    receipt: &PersistedTerminalReceiptV1,
    envelope: &serde_json::Value,
    evidence: FrozenEnvelopeEvidenceV1,
) -> (verdict: Result<(), DispatchFailureV1>)
    ensures
        verdict == frozen_verdict(*receipt, json::json_tree(*envelope), evidence),
{
    let object = match json_as_object(envelope) {
        Some(object) => object,
        None => {
            return Err(terminal_replay_integrity_failure());
        },
    };
    let context = match &receipt.response_context {
        Some(context) => context,
        None => {
            return Err(terminal_replay_integrity_failure());
        },
    };
    let first_version = member_text_is(object, "schema", "podway.output/v1");
    let second_version = member_text_is(object, "schema", "podway.output/v2");
    let error = member_text_is(object, "schema", "podway.error/v1");
    if !(first_version || second_version || error) || !member_text_is(
        object,
        "request_id",
        &context.request_id,
    ) || !member_text_is(object, "command", &context.command) {
        return Err(terminal_replay_integrity_failure());
    }
    let mut expected_workspace = json_map_new();
    put_text(&mut expected_workspace, "uuid", &context.workspace_uuid);
    put_text(&mut expected_workspace, "root", &context.workspace_root);
    put_unsigned(
        &mut expected_workspace,
        "latest_workspace_sequence",
        context.workspace_sequence,
    );
    let expected_workspace = json_object(expected_workspace);
    if !same_optional_value(json_map_get(object, "workspace"), Some(&expected_workspace)) {
        return Err(terminal_replay_integrity_failure());
    }
    let job = match job_output_from_terminal_receipt(receipt) {
        Ok(job) => job,
        Err(failure) => {
            return Err(failure);
        },
    };
    if first_version {
        if same_optional_value(json_map_get(object, "job"), Some(&evidence.job_document)) {
            Ok(())
        } else {
            Err(terminal_replay_integrity_failure())
        }
    } else if second_version {
        if validate_frozen_v2_terminal_envelope(receipt, &evidence.decoded, &job) {
            Ok(())
        } else {
            Err(terminal_replay_integrity_failure())
        }
    } else {
        validate_frozen_terminal_error(receipt, evidence)
    }
}

/// Whether a document says that it is an error.
pub open spec fn says_error(document: json::JsonTreeV1) -> bool {
    document matches json::JsonTreeV1::Record(members) && frozen::says_text(
        members,
        "schema"@,
        "podway.error/v1"@,
    )
}

/// Whether a document was read back as an error that is written out as the document itself.
pub open spec fn is_read_as_error(
    document: json::JsonTreeV1,
    evidence: FrozenEnvelopeEvidenceV1,
) -> bool {
    evidence.decoded matches DecodedResponseV2::Error { document: again } && json::json_tree(again)
        == document
}

/// Of two errors that are held against the same expected error, one of which is accepted, the other
/// is accepted exactly if the two agree but for their messages.
pub proof fn frozen_errors_agree_but_for_their_message(
    receipt: PersistedTerminalReceiptV1,
    accepted: json::JsonTreeV1,
    other: json::JsonTreeV1,
    evidence: FrozenEnvelopeEvidenceV1,
    other_evidence: FrozenEnvelopeEvidenceV1,
)
    requires
        says_error(accepted),
        says_error(other),
        is_read_as_error(accepted, evidence),
        is_read_as_error(other, other_evidence),
        other_evidence.expected_error == evidence.expected_error,
        frozen_verdict(receipt, accepted, evidence) is Ok,
    ensures
        frozen_verdict(receipt, other, other_evidence) == if without_message(other)
            == without_message(accepted) {
            Ok(())
        } else {
            Err(failures::integrity_failure())
        },
{
    reveal_strlit("message");
    reveal_strlit("request_id");
    reveal_strlit("command");
    reveal_strlit("workspace");
    reveal_strlit("podway.output/v1");
    reveal_strlit("podway.output/v2");
    reveal_strlit("podway.error/v1");
    assert("podway.output/v1"@[7] != "podway.error/v1"@[7]);
    assert("podway.output/v2"@[7] != "podway.error/v1"@[7]);
    assert("command"@[0] != "message"@[0]);
    if without_message(other) == without_message(accepted) {
        let members = json::record_of(accepted)->0;
        let other_members = json::record_of(other)->0;
        let rest = members.remove("message"@);
        assert(rest == other_members.remove("message"@));
        assert forall|name: Seq<char>| name != "message"@ implies #[trigger] json::member(
            other_members,
            name,
        ) == json::member(members, name) by {
            assert(rest.dom().contains(name) == members.dom().contains(name));
            assert(rest.dom().contains(name) == other_members.dom().contains(name));
            if rest.dom().contains(name) {
                assert(rest[name] == members[name]);
                assert(rest[name] == other_members[name]);
            }
        }
        assert(json::member(other_members, "request_id"@) == json::member(members, "request_id"@));
        assert(json::member(other_members, "command"@) == json::member(members, "command"@));
        assert(json::member(other_members, "workspace"@) == json::member(members, "workspace"@));
    }
}

/// An error that is accepted stays accepted when its message alone is written anew, as long as it is
/// still read as an error. With any other member written anew it is refused, whatever it is then read
/// as.
pub proof fn a_frozen_error_is_bound_in_all_but_its_message(
    receipt: PersistedTerminalReceiptV1,
    members: Members,
    name: Seq<char>,
    value: json::JsonTreeV1,
    evidence: FrozenEnvelopeEvidenceV1,
    changed_evidence: FrozenEnvelopeEvidenceV1,
)
    requires
        says_error(json::JsonTreeV1::Record(members)),
        says_error(json::JsonTreeV1::Record(members.insert(name, value))),
        is_read_as_error(json::JsonTreeV1::Record(members), evidence),
        changed_evidence.decoded is Error ==> is_read_as_error(
            json::JsonTreeV1::Record(members.insert(name, value)),
            changed_evidence,
        ),
        changed_evidence.expected_error == evidence.expected_error,
        frozen_verdict(receipt, json::JsonTreeV1::Record(members), evidence) is Ok,
    ensures
        name == "message"@ && changed_evidence.decoded is Error ==> frozen_verdict(
            receipt,
            json::JsonTreeV1::Record(members.insert(name, value)),
            changed_evidence,
        ) is Ok,
        name != "message"@ && json::member(members, name) != Some(value) ==> frozen_verdict(
            receipt,
            json::JsonTreeV1::Record(members.insert(name, value)),
            changed_evidence,
        ) == Err::<(), DispatchFailureV1>(failures::integrity_failure()),
{
    let document = json::JsonTreeV1::Record(members);
    let changed_members = members.insert(name, value);
    let changed = json::JsonTreeV1::Record(changed_members);
    reveal_strlit("podway.output/v1");
    reveal_strlit("podway.output/v2");
    reveal_strlit("podway.error/v1");
    assert("podway.output/v1"@[7] != "podway.error/v1"@[7]);
    assert("podway.output/v2"@[7] != "podway.error/v1"@[7]);
    if changed_evidence.decoded is Error {
        frozen_errors_agree_but_for_their_message(
            receipt,
            document,
            changed,
            evidence,
            changed_evidence,
        );
        if name == "message"@ {
            assert(changed_members.remove(name) =~= members.remove(name));
        } else if json::member(members, name) != Some(value) {
            let rest = members.remove("message"@);
            let changed_rest = changed_members.remove("message"@);
            assert(changed_rest.dom().contains(name) && changed_rest[name] == value);
            assert(rest.dom().contains(name) ==> rest[name] == members[name]);
            assert(rest != changed_rest);
        }
    }
}

/// No error is accepted for a receipt that does not tell a failure, whatever the error is read as and
/// held against.
pub proof fn a_frozen_error_is_bound_to_a_failure(
    receipt: PersistedTerminalReceiptV1,
    document: json::JsonTreeV1,
    evidence: FrozenEnvelopeEvidenceV1,
)
    requires
        says_error(document),
        !(receipt.result is Failure),
    ensures
        frozen_verdict(receipt, document, evidence) is Err,
{
    reveal_strlit("podway.output/v1");
    reveal_strlit("podway.output/v2");
    reveal_strlit("podway.error/v1");
    assert("podway.output/v1"@[7] != "podway.error/v1"@[7]);
    assert("podway.output/v2"@[7] != "podway.error/v1"@[7]);
}

/// The document that tells of a cancelled job.
pub open spec fn cancelled_tree() -> json::JsonTreeV1 {
    json::JsonTreeV1::Record(
        graph_envelope::with_text(json::no_members(), "kind"@, "cancelled"@).insert(
            "payload"@,
            json::JsonTreeV1::Record(
                graph_envelope::with_bool(json::no_members(), "cancelled"@, true),
            ),
        ),
    )
}

/// Whether a response is the one for the job of a receipt: the frozen one where there is one, the
/// same document for every cancelled job, and otherwise one that is to be made.
pub open spec fn is_job_response(
    receipt: PersistedTerminalReceiptV1,
    command: TerminalCommandKindV1,
    evidence: FrozenEnvelopeEvidenceV1,
    response: Result<TerminalJobResponseV1, DispatchFailureV1>,
) -> bool {
    if !receipt_projection_agrees(receipt, command) {
        response matches Err(failure) && failure == failures::integrity_failure()
    } else {
        match receipt.public_terminal_envelope {
            Some(envelope) => match frozen_verdict(receipt, json::json_tree(envelope), evidence) {
                Ok(()) => response == Ok::<TerminalJobResponseV1, DispatchFailureV1>(
                    TerminalJobResponseV1::Document(envelope),
                ),
                Err(failure) => response == Err::<TerminalJobResponseV1, DispatchFailureV1>(
                    failure,
                ),
            },
            None => if receipt.result is Cancelled {
                response matches Ok(TerminalJobResponseV1::Document(document)) && json::json_tree(
                    document,
                ) == cancelled_tree()
            } else {
                is_rendered_response(receipt, command, response)
            },
        }
    }
}

/// Whether a response that is to be made is the one for the job of a receipt.
pub open spec fn is_rendered_response(
    receipt: PersistedTerminalReceiptV1,
    command: TerminalCommandKindV1,
    response: Result<TerminalJobResponseV1, DispatchFailureV1>,
) -> bool {
    match response {
        Ok(TerminalJobResponseV1::Document(_)) => false,
        Ok(TerminalJobResponseV1::Render { context, job, result }) => {
            &&& receipts::is_response_context(receipt, context)
            &&& receipts::terminal_output_failure(receipt) is None
            &&& receipts::is_terminal_output(receipt, job)
            &&& is_terminal_result(
                receipt,
                command,
                Ok::<DispatcherTerminalResultV1, DispatchFailureV1>(result),
            )
        },
        Err(failure) => if receipt.response_context is None {
            failure == failures::integrity_failure()
        } else if receipts::terminal_output_failure(receipt) is Some {
            receipts::terminal_output_failure(receipt) == Some(failure)
        } else {
            is_terminal_result(
                receipt,
                command,
                Err::<DispatcherTerminalResultV1, DispatchFailureV1>(failure),
            )
        },
    }
}

/// The response for the job of a receipt. The evidence counts only where the receipt keeps a
/// response.
pub fn terminal_job_response(
    receipt: &PersistedTerminalReceiptV1,
    command: TerminalCommandKindV1,
    evidence: FrozenEnvelopeEvidenceV1,
) -> (response: Result<TerminalJobResponseV1, DispatchFailureV1>)
    ensures
        is_job_response(*receipt, command, evidence, response),
{
    match validate_terminal_receipt_projection(receipt, command) {
        Ok(()) => {},
        Err(failure) => {
            return Err(failure);
        },
    }
    if let Some(envelope) = &receipt.public_terminal_envelope {
        return match validate_frozen_terminal_envelope(receipt, envelope, evidence) {
            Ok(()) => Ok(TerminalJobResponseV1::Document(envelope.clone())),
            Err(failure) => Err(failure),
        };
    }
    if let PersistedTerminalResultV1::Cancelled = &receipt.result {
        let mut payload = json_map_new();
        put_bool(&mut payload, "cancelled", true);
        let mut document = json_map_new();
        put_text(&mut document, "kind", "cancelled");
        json_map_insert(&mut document, "payload", json_object(payload));
        return Ok(TerminalJobResponseV1::Document(json_object(document)));
    }
    let context = match terminal_response_context(receipt) {
        Ok(Some(context)) => context,
        Ok(None) => {
            return Err(terminal_replay_integrity_failure());
        },
        Err(failure) => {
            return Err(failure);
        },
    };
    let job = match job_output_from_terminal_receipt(receipt) {
        Ok(job) => job,
        Err(failure) => {
            return Err(failure);
        },
    };
    match terminal_result_for_kind(receipt, command) {
        Ok(result) => Ok(TerminalJobResponseV1::Render { context, job, result }),
        Err(failure) => Err(failure),
    }
}

/// A written response that answers the given request, whichever request it was made for.
pub fn terminal_direct_response_v2(
    response: serde_json::Value,
    request_id: &str,
) -> (answer: Result<serde_json::Value, DispatchFailureV1>)
    ensures
        match (answer, json::json_tree(response)) {
            (Ok(answer), json::JsonTreeV1::Record(members)) => json::json_tree(answer)
                == json::JsonTreeV1::Record(
                graph_envelope::with_text(members, "request_id"@, request_id@),
            ),
            (Ok(_), _) => false,
            (Err(failure), tree) => !(tree is Record) && failure == failures::integrity_failure(),
        },
{
    match json_as_object(&response) {
        Some(object) => {
            let mut answer = object.clone();
            put_text(&mut answer, "request_id", request_id);
            Ok(json_object(answer))
        },
        None => Err(terminal_replay_integrity_failure()),
    }
}

/// Whether a response can only be told inside a wrapper of the second version.
pub open spec fn requires_v2_wrapper(response: json::JsonTreeV1) -> bool {
    ||| json::text_of(json::tree_member(response, "schema"@)) == Some("podway.output/v2"@)
    ||| json::tree_member(response, "details"@) matches Some(details) && json::text_of(
        json::tree_member(details, "schema"@),
    ) == Some("podway.v2-runtime-error-details/v1"@)
}

fn text_member_is(value: &serde_json::Value, name: &str, expected: &str) -> (is: bool)
    ensures
        is == (json::text_of(json::tree_member(json::json_tree(*value), name@)) == Some(
            expected@,
        )),
{
    match json_value_get(value, name) {
        Some(found) => match json::json_as_str(found) {
            Some(found) => same_text(found, expected),
            None => false,
        },
        None => false,
    }
}

/// Whether a response can only be told inside a wrapper of the second version.
pub fn terminal_response_requires_v2_wrapper(response: &serde_json::Value) -> (requires_it: bool)
    ensures
        requires_it == requires_v2_wrapper(json::json_tree(*response)),
{
    text_member_is(response, "schema", "podway.output/v2") || match json_value_get(
        response,
        "details",
    ) {
        Some(details) => text_member_is(details, "schema", "podway.v2-runtime-error-details/v1"),
        None => false,
    }
}

/// Whether a view and a terminal receipt tell of the same end of the same job.
pub open spec fn view_agrees(view: JobViewV1, receipt: PersistedTerminalReceiptV1) -> bool {
    receipt.job_projection matches Some(projection) && {
        &&& view.job.job_id@ == receipt.job.job_id@
        &&& view.job.identity_sequence == receipt.job.identity_sequence
        &&& receipts::public_state(view.state) == receipts::public_terminal_state(projection.state)
        &&& view.submitted_at == projection.submitted_at
        &&& view.claimed_at == projection.claimed_at
        &&& view.finished_at == Some(projection.finished_at)
    }
}

/// Whether a read of a job shows what its view and its receipt tell. A job that has not ended has
/// no response.
pub open spec fn is_job_read(
    view: JobViewV1,
    evidence: FrozenEnvelopeEvidenceV1,
    read: Result<(JobOutputV1, Option<TerminalJobResponseV1>), DispatchFailureV1>,
) -> bool {
    match (crate::store::is_terminal_state(view.state), view.terminal_receipt) {
        (false, None) if view.finished_at is None => match read {
            Ok((output, response)) => receipts::view_has_timestamps(view)
                && receipts::is_view_output(view, output) && response is None,
            Err(failure) => !receipts::view_has_timestamps(view) && failure
                == failures::internal_failure(),
        },
        (true, Some(receipt)) => match receipts::terminal_output_failure(receipt) {
            Some(cause) => read matches Err(failure) && failure == cause,
            None => if !view_agrees(view, receipt) {
                read matches Err(failure) && failure == failures::integrity_failure()
            } else {
                match read {
                    Ok((output, Some(response))) => receipts::is_terminal_output(receipt, output)
                        && is_job_response(
                        receipt,
                        receipts::terminal_kind(view.command),
                        evidence,
                        Ok::<TerminalJobResponseV1, DispatchFailureV1>(response),
                    ),
                    Ok((_, None)) => false,
                    Err(failure) => is_job_response(
                        receipt,
                        receipts::terminal_kind(view.command),
                        evidence,
                        Err::<TerminalJobResponseV1, DispatchFailureV1>(failure),
                    ),
                }
            },
        },
        _ => read matches Err(failure) && failure == failures::integrity_failure(),
    }
}

fn terminal_job_read_projection(
    view: &JobViewV1,
    receipt: &PersistedTerminalReceiptV1,
    evidence: FrozenEnvelopeEvidenceV1,
) -> (read: Result<(JobOutputV1, Option<TerminalJobResponseV1>), DispatchFailureV1>)
    requires
        crate::store::is_terminal_state(view.state),
        view.terminal_receipt == Some(*receipt),
    ensures
        is_job_read(*view, evidence, read),
{
    let projection = match &receipt.job_projection {
        Some(projection) => projection,
        None => {
            return Err(terminal_replay_integrity_failure());
        },
    };
    let job = match job_output_from_terminal_receipt(receipt) {
        Ok(job) => job,
        Err(failure) => {
            return Err(failure);
        },
    };
    let same_claim = match (view.claimed_at, projection.claimed_at) {
        (Some(left), Some(right)) => left == right,
        (None, None) => true,
        (Some(_), None) => false,
        (None, Some(_)) => false,
    };
    let same_finish = match view.finished_at {
        Some(finished_at) => finished_at == projection.finished_at,
        None => false,
    };
    if view.job.job_id != receipt.job.job_id || view.job.identity_sequence
        != receipt.job.identity_sequence || protocol_job_state(view.state) != job.state
        || view.submitted_at != projection.submitted_at || !same_claim || !same_finish {
        return Err(terminal_replay_integrity_failure());
    }
    match terminal_job_response(
        receipt,
        terminal_command_kind_from_store(view.command),
        evidence,
    ) {
        Ok(response) => Ok((job, Some(response))),
        Err(failure) => Err(failure),
    }
}

/// What a read of a job shows: the job, and the response to it once it has ended.
pub fn job_read_projection(view: &JobViewV1, evidence: FrozenEnvelopeEvidenceV1) -> (read: Result<
    (JobOutputV1, Option<TerminalJobResponseV1>),
    DispatchFailureV1,
>)
    ensures
        is_job_read(*view, evidence, read),
{
    match (view.state, &view.terminal_receipt) {
        (StoreJobStateV1::Queued | StoreJobStateV1::Running, None) => {
            if view.finished_at.is_some() {
                return Err(terminal_replay_integrity_failure());
            }
            match job_output(view) {
                Ok(output) => Ok((output, None)),
                Err(failure) => Err(failure),
            }
        },
        (
            StoreJobStateV1::Succeeded | StoreJobStateV1::Failed | StoreJobStateV1::Cancelled,
            Some(receipt),
        ) => terminal_job_read_projection(view, receipt, evidence),
        _ => Err(terminal_replay_integrity_failure()),
    }
}

/// The document that a read of a job answers with: the job written out, the name of its command and
/// the response to it, which is null for a job that has not ended.
pub fn job_result_value(
    view: &JobViewV1,
    job_document: &serde_json::Value,
    terminal_response: serde_json::Value,
) -> (result: Result<serde_json::Value, DispatchFailureV1>)
    ensures
        match (result, json::json_tree(*job_document)) {
            (Ok(value), json::JsonTreeV1::Record(job)) => json::json_tree(value)
                == json::JsonTreeV1::Record(
                graph_envelope::with_text(
                    job,
                    "command"@,
                    receipts::command_name(view.command)@,
                ).insert("terminal_response"@, json::json_tree(terminal_response)),
            ),
            (Ok(_), _) => false,
            (Err(failure), tree) => !(tree is Record) && failure == failures::internal_failure(),
        },
{
    match json_as_object(job_document) {
        Some(job) => {
            let mut object = job.clone();
            put_text(&mut object, "command", durable_command_name(view.command));
            json_map_insert(&mut object, "terminal_response", terminal_response);
            Ok(json_object(object))
        },
        None => Err(DispatchFailureV1::new(DispatchFailureKindV1::Internal)),
    }
}

/// Whether a lookup that found nothing but a receipt shows what the receipt tells. The receipt has
/// to be one of the request that asks, and to know its command.
pub open spec fn is_receipt_read(
    receipt: PersistedTerminalReceiptV1,
    request_digest: Seq<char>,
    evidence: FrozenEnvelopeEvidenceV1,
    read: Result<(JobOutputV1, TerminalJobResponseV1), DispatchFailureV1>,
) -> bool {
    match receipt.lookup_command {
        Some(command) if receipt.job.request_digest@ == request_digest =>
            match receipts::terminal_output_failure(receipt) {
            Some(cause) => read matches Err(failure) && failure == cause,
            None => match read {
                Ok((output, response)) => receipts::is_terminal_output(receipt, output)
                    && is_job_response(
                    receipt,
                    receipts::terminal_kind(command),
                    evidence,
                    Ok::<TerminalJobResponseV1, DispatchFailureV1>(response),
                ),
                Err(failure) => is_job_response(
                    receipt,
                    receipts::terminal_kind(command),
                    evidence,
                    Err::<TerminalJobResponseV1, DispatchFailureV1>(failure),
                ),
            },
        },
        _ => read matches Err(failure) && failure == failures::integrity_failure(),
    }
}

/// What a lookup that found nothing but a receipt shows.
pub fn receipt_only_job_projection(
    receipt: &PersistedTerminalReceiptV1,
    request_digest: &str,
    evidence: FrozenEnvelopeEvidenceV1,
) -> (read: Result<(JobOutputV1, TerminalJobResponseV1), DispatchFailureV1>)
    ensures
        is_receipt_read(*receipt, request_digest@, evidence, read),
{
    if !same_text(&receipt.job.request_digest, request_digest) {
        return Err(terminal_replay_integrity_failure());
    }
    let command = match receipt.lookup_command {
        Some(command) => command,
        None => {
            return Err(terminal_replay_integrity_failure());
        },
    };
    let output = match job_output_from_terminal_receipt(receipt) {
        Ok(output) => output,
        Err(failure) => {
            return Err(failure);
        },
    };
    match terminal_job_response(receipt, terminal_command_kind_from_store(command), evidence) {
        Ok(response) => Ok((output, response)),
        Err(failure) => Err(failure),
    }
}

/// The document that such a lookup answers with: the job written out, the name of its command, the
/// response to it and the digest of the request.
pub fn receipt_only_job_result_value(
    receipt: &PersistedTerminalReceiptV1,
    request_digest: &str,
    job_document: &serde_json::Value,
    terminal_response: serde_json::Value,
) -> (result: Result<serde_json::Value, DispatchFailureV1>)
    ensures
        match (result, receipt.lookup_command, json::json_tree(*job_document)) {
            (Ok(value), Some(command), json::JsonTreeV1::Record(job)) =>
                receipt.job.request_digest@ == request_digest@ && json::json_tree(value)
                    == json::JsonTreeV1::Record(
                    graph_envelope::with_text(
                        graph_envelope::with_text(
                            job,
                            "command"@,
                            receipts::command_name(command)@,
                        ).insert("terminal_response"@, json::json_tree(terminal_response)),
                        "request_digest"@,
                        request_digest@,
                    ),
                ),
            (Ok(_), _, _) => false,
            (Err(failure), command, tree) => if command is None
                || receipt.job.request_digest@ != request_digest@ {
                failure == failures::integrity_failure()
            } else {
                !(tree is Record) && failure == failures::internal_failure()
            },
        },
{
    if !same_text(&receipt.job.request_digest, request_digest) {
        return Err(terminal_replay_integrity_failure());
    }
    let command = match receipt.lookup_command {
        Some(command) => command,
        None => {
            return Err(terminal_replay_integrity_failure());
        },
    };
    match json_as_object(job_document) {
        Some(job) => {
            let mut object = job.clone();
            put_text(&mut object, "command", durable_command_name(command));
            json_map_insert(&mut object, "terminal_response", terminal_response);
            put_text(&mut object, "request_digest", request_digest);
            Ok(json_object(object))
        },
        None => Err(DispatchFailureV1::new(DispatchFailureKindV1::Internal)),
    }
}

/// The response that is sealed into a receipt.
#[derive(Clone, Debug, PartialEq, Eq)]
pub enum SealedTerminalResponseV1 {
    Graph(GraphTerminalEnvelopeV2),
    Job(TerminalJobResponseV1),
}

/// Whether a response is the one to be sealed into a receipt. A receipt that calls for none cannot
/// have come from a transition.
pub open spec fn is_sealed_response(
    receipt: PersistedTerminalReceiptV1,
    evidence: FrozenEnvelopeEvidenceV1,
    sealed: Result<SealedTerminalResponseV1, StoreErrorV1>,
) -> bool {
    match sealed {
        Ok(SealedTerminalResponseV1::Graph(envelope)) => receipt.graph_session_projection is Some
            && graph_envelope::is_graph_envelope(
            receipt,
            Ok::<GraphTerminalEnvelopeV2, DispatchFailureV1>(envelope),
        ),
        Ok(SealedTerminalResponseV1::Job(response)) => receipt.lookup_command matches Some(
            command,
        ) && receipt.graph_session_projection is None && is_job_response(
            receipt,
            receipts::terminal_kind(command),
            evidence,
            Ok::<TerminalJobResponseV1, DispatchFailureV1>(response),
        ),
        Err(error) => error == (StoreErrorV1::InternalInvariantViolationV1 {
            invariant: StoreInvariantV1::TransitionMutationShape,
        }) && if receipt.graph_session_projection is Some {
            exists|failure: DispatchFailureV1|
                #[trigger] graph_envelope::is_graph_envelope(
                    receipt,
                    Err::<GraphTerminalEnvelopeV2, DispatchFailureV1>(failure),
                )
        } else {
            receipt.lookup_command matches Some(command) ==> exists|failure: DispatchFailureV1|
                #[trigger] is_job_response(
                    receipt,
                    receipts::terminal_kind(command),
                    evidence,
                    Err::<TerminalJobResponseV1, DispatchFailureV1>(failure),
                )
        },
    }
}

/// The response to be sealed into a receipt.
pub fn seal_terminal_receipt_v1(
    receipt: &PersistedTerminalReceiptV1,
    evidence: FrozenEnvelopeEvidenceV1,
) -> (sealed: Result<SealedTerminalResponseV1, StoreErrorV1>)
    ensures
        is_sealed_response(*receipt, evidence, sealed),
{
    if receipt.graph_session_projection.is_some() {
        return match graph_terminal_envelope_v2(receipt) {
            Ok(envelope) => Ok(SealedTerminalResponseV1::Graph(envelope)),
            Err(_) => Err(
                StoreErrorV1::InternalInvariantViolationV1 {
                    invariant: StoreInvariantV1::TransitionMutationShape,
                },
            ),
        };
    }
    let command = match receipt.lookup_command {
        Some(command) => command,
        None => {
            return Err(
                StoreErrorV1::InternalInvariantViolationV1 {
                    invariant: StoreInvariantV1::TransitionMutationShape,
                },
            );
        },
    };
    match terminal_job_response(receipt, terminal_command_kind_from_store(command), evidence) {
        Ok(response) => Ok(SealedTerminalResponseV1::Job(response)),
        Err(_) => Err(
            StoreErrorV1::InternalInvariantViolationV1 {
                invariant: StoreInvariantV1::TransitionMutationShape,
            },
        ),
    }
}

/// A receipt calls for an error exactly if its job failed and, where a graph session records an operation,
/// that is a refusal too: for the refusal that is recorded, or by the command of the receipt.
pub proof fn only_a_failed_job_calls_for_an_error(
    receipt: PersistedTerminalReceiptV1,
    expected: Result<DispatchFailureV1, DispatchFailureV1>,
)
    requires
        call_ensures(expected_terminal_failure, (&receipt,), expected),
    ensures
        expected is Ok <==> receipt.result is Failure && (match receipt.graph_session_projection {
            Some(graph) => match graph.operation {
                Some(operation) => operation is Failure,
                None => receipt.lookup_command is Some,
            },
            None => receipt.lookup_command is Some,
        }),
        expected matches Err(failure) ==> failure.kind is WorkspaceStateUnreadable
            && failure.details is Absent && failure.admission is None && failure.job is None,
{
}

/// The error that a receipt calls for is the one that its job is answered with: that of the refusal that its
/// graph session records, or that of its failure for its command.
pub proof fn a_failed_job_calls_for_its_own_error(
    receipt: PersistedTerminalReceiptV1,
    expected: Result<DispatchFailureV1, DispatchFailureV1>,
    refused: crate::store::PersistedGraphMutationFailureV2,
    of_refusal: DispatchFailureV1,
    error: crate::store::PersistedDomainErrorV1,
    command: crate::store::CommandV1,
    kind: TerminalCommandKindV1,
    of_failure: DispatchFailureV1,
)
    requires
        call_ensures(expected_terminal_failure, (&receipt,), expected),
        call_ensures(map_graph_mutation_failure_v2, (&refused,), of_refusal),
        call_ensures(terminal_command_kind_from_store, (command,), kind),
        call_ensures(map_terminal_domain_error, (&error, kind), of_failure),
        receipt.result == PersistedTerminalResultV1::Failure(error),
        receipt.lookup_command == Some(command),
    ensures
        receipt.graph_session_projection is None ==> expected == Ok::<
            DispatchFailureV1,
            DispatchFailureV1,
        >(of_failure),
        receipt.graph_session_projection matches Some(graph) ==> (graph.operation == Some(
            (PersistedGraphTerminalOperationV2::Failure { error: refused }),
        ) ==> (expected matches Ok(expected) && expected.kind == of_refusal.kind
            && expected.admission is None && expected.job is None)),
{
}

/// Two jobs are shown alike exactly if everything that is shown of them is the same.
pub proof fn jobs_are_shown_alike_in_everything(left: JobOutputV1, right: JobOutputV1, same: bool)
    requires
        call_ensures(same_job_output, (&left, &right), same),
    ensures
        same <==> {
            &&& left.id@ == right.id@
            &&& left.sequence == right.sequence
            &&& left.state == right.state
            &&& left.submitted_at@ == right.submitted_at@
            &&& left.claimed_at is Some <==> right.claimed_at is Some
            &&& left.claimed_at matches Some(at) ==> (right.claimed_at matches Some(other) ==> at@
                == other@)
            &&& left.finished_at is Some <==> right.finished_at is Some
            &&& left.finished_at matches Some(at) ==> (right.finished_at matches Some(other) ==> at@
                == other@)
        },
{
}

} // verus!
