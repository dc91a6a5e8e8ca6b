//! Whose request it is that could not be read.

use crate::json;
use crate::json::{json_as_object, json_as_str, json_from_str, json_map_get};
use crate::text;
use crate::text::text_from_utf8;
use vstd::prelude::*;
use vstd::slice::slice_subrange;

verus! {

/// How many bytes before a frame tell its length.
pub const FRAME_LENGTH_PREFIX_BYTES_V1: usize = 4;

/// The command that is answered where a request does not tell its own.
pub const FALLBACK_COMMAND_V1: &'static str = "ipc.request";

/// The request that an answer is for.
#[derive(Clone, Debug, PartialEq, Eq)]
pub struct RequestContextV1 {
    pub request_id: String,
    pub command: String,
}

/// The texts that a request tells its identifier and its command by.
#[derive(Clone, Debug, PartialEq, Eq)]
pub struct RecoveredTextsV1 {
    pub request_id: String,
    pub command: Option<String>,
}

/// The length that the prefix of a frame tells, the most significant byte first.
pub open spec fn prefixed_length(bytes: Seq<u8>) -> int {
    bytes[0] * 0x100_0000 + bytes[1] * 0x1_0000 + bytes[2] * 0x100 + bytes[3]
}

/// The length that the prefix of a recorded frame tells, if the prefix was recorded.
pub fn recorded_frame_length(recorded: &[u8]) -> (length: Option<u32>)
    ensures
        match length {
            Some(length) => recorded@.len() >= FRAME_LENGTH_PREFIX_BYTES_V1 && length
                == prefixed_length(recorded@),
            None => recorded@.len() < FRAME_LENGTH_PREFIX_BYTES_V1,
        },
{
    if recorded.len() < FRAME_LENGTH_PREFIX_BYTES_V1 {
        return None;
    }
    let length: u32 = recorded[0] as u32 * 0x100_0000 + recorded[1] as u32 * 0x1_0000
        + recorded[2] as u32 * 0x100 + recorded[3] as u32;
    Some(length)
}

/// The payload of a recorded frame, if all of it was recorded. What was recorded behind it does not
/// count.
pub fn recorded_payload(recorded: &[u8], length: u32) -> (payload: Option<&[u8]>)
    ensures
        match payload {
            Some(payload) => recorded@.len() >= FRAME_LENGTH_PREFIX_BYTES_V1 + length && payload@
                == recorded@.subrange(
                FRAME_LENGTH_PREFIX_BYTES_V1 as int,
                FRAME_LENGTH_PREFIX_BYTES_V1 + length,
            ),
            None => recorded@.len() < FRAME_LENGTH_PREFIX_BYTES_V1 + length,
        },
{
    if recorded.len() < FRAME_LENGTH_PREFIX_BYTES_V1 || recorded.len()
        - FRAME_LENGTH_PREFIX_BYTES_V1 < length as usize {
        return None;
    }
    Some(
        slice_subrange(
            recorded,
            FRAME_LENGTH_PREFIX_BYTES_V1,
            FRAME_LENGTH_PREFIX_BYTES_V1 + length as usize,
        ),
    )
}

/// The members of the document that the bytes of a payload spell, if they spell an object.
pub open spec fn payload_members(payload: Seq<u8>) -> Option<Map<Seq<char>, json::JsonTreeV1>> {
    if vstd::utf8::valid_utf8(payload) {
        match json::json_document(vstd::utf8::decode_utf8(payload)) {
            Some(document) => json::record_of(document),
            None => None,
        }
    } else {
        None
    }
}

/// The texts that a document tells the identifier and the command of a request by, if it tells the
/// identifier.
pub open spec fn told_texts(members: Map<Seq<char>, json::JsonTreeV1>) -> Option<
    (Seq<char>, Option<Seq<char>>),
> {
    match json::text_of(json::member(members, "request_id"@)) {
        Some(request_id) => Some((request_id, json::text_of(json::member(members, "command"@)))),
        None => None,
    }
}

/// The characters of recovered texts.
pub open spec fn recovered_characters(texts: Option<RecoveredTextsV1>) -> Option<
    (Seq<char>, Option<Seq<char>>),
> {
    match texts {
        Some(texts) => Some((texts.request_id@, text::optional_characters(texts.command))),
        None => None,
    }
}

/// The texts that an object tells the identifier and the command of a request by.
pub fn texts_of_object(object: &serde_json::Map<String, serde_json::Value>) -> (texts: Option<
    RecoveredTextsV1,
>)
    ensures
        recovered_characters(texts) == told_texts(json::json_members(*object)),
{
    let request_id = match json_map_get(object, "request_id") {
        Some(value) => match json_as_str(value) {
            Some(request_id) => request_id.to_owned(),
            None => {
                return None;
            },
        },
        None => {
            return None;
        },
    };
    let command = match json_map_get(object, "command") {
        Some(value) => match json_as_str(value) {
            Some(command) => Some(command.to_owned()),
            None => None,
        },
        None => None,
    };
    Some(RecoveredTextsV1 { request_id, command })
}

/// The texts that a payload tells the identifier and the command of its request by, whatever else is
/// wrong with it.
pub fn recovered_texts(payload: &[u8]) -> (texts: Option<RecoveredTextsV1>)
    ensures
        recovered_characters(texts) == match payload_members(payload@) {
            Some(members) => told_texts(members),
            None => None,
        },
{
    let document = match text_from_utf8(payload) {
        Some(document) => document,
        None => {
            return None;
        },
    };
    let document = match json_from_str(document) {
        Some(document) => document,
        None => {
            return None;
        },
    };
    match json_as_object(&document) {
        Some(object) => texts_of_object(object),
        None => None,
    }
}

/// The request that recovered texts tell of, if its identifier is one. A command that is none is
/// replaced by the fallback.
pub fn recover_request_context(
    texts: RecoveredTextsV1,
    request_id_is_valid: bool,
    command_is_valid: bool,
) -> (context: Option<RequestContextV1>)
    ensures
        match context {
            Some(context) => request_id_is_valid && context.request_id == texts.request_id
                && match texts.command {
                Some(command) if command_is_valid => context.command == command,
                _ => context.command@ == FALLBACK_COMMAND_V1@,
            },
            None => !request_id_is_valid,
        },
{
    if !request_id_is_valid {
        return None;
    }
    let command = match texts.command {
        Some(command) => if command_is_valid {
            command
        } else {
            FALLBACK_COMMAND_V1.to_owned()
        },
        None => FALLBACK_COMMAND_V1.to_owned(),
    };
    Some(RequestContextV1 { request_id: texts.request_id, command })
}

/// A frame is recovered from what was recorded of it: where the whole frame was recorded, its payload
/// is, and whatever was recorded behind it changes nothing.
pub proof fn a_recorded_frame_is_recovered(prefix: Seq<u8>, payload: Seq<u8>, behind: Seq<u8>)
    requires
        prefix.len() == FRAME_LENGTH_PREFIX_BYTES_V1,
        prefixed_length(prefix) == payload.len(),
    ensures
        prefixed_length(prefix + payload + behind) == payload.len(),
        (prefix + payload + behind).len() >= FRAME_LENGTH_PREFIX_BYTES_V1 + payload.len(),
        (prefix + payload + behind).subrange(
            FRAME_LENGTH_PREFIX_BYTES_V1 as int,
            FRAME_LENGTH_PREFIX_BYTES_V1 + payload.len(),
        ) == payload,
{
    assert((prefix + payload + behind).subrange(
        FRAME_LENGTH_PREFIX_BYTES_V1 as int,
        FRAME_LENGTH_PREFIX_BYTES_V1 + payload.len(),
    ) =~= payload);
}

/// A frame that was recorded in whole is recovered: its length is read from the bytes before it, and its
/// payload is what follows them, for that length.
pub proof fn a_whole_frame_gives_its_payload(
    recorded: &[u8],
    length: Option<u32>,
    told: u32,
    payload: Option<&[u8]>,
)
    requires
        call_ensures(recorded_frame_length, (recorded,), length),
        call_ensures(recorded_payload, (recorded, told), payload),
    ensures
        length is Some <==> recorded@.len() >= 4,
        length matches Some(length) ==> length == 16_777_216 * recorded@[0] + 65_536 * recorded@[1]
            + 256 * recorded@[2] + recorded@[3],
        payload is Some <==> recorded@.len() >= 4 + told,
        payload matches Some(payload) ==> payload@.len() == told && forall|i: int|
            0 <= i < told ==> #[trigger] payload@[i] == recorded@[4 + i],
{
}

/// A document tells whose request it is exactly if it tells the identifier by a text, and with it the
/// command where that is a text too.
pub proof fn a_request_is_told_by_its_identifier(
    object: serde_json::Map<String, serde_json::Value>,
    texts: Option<RecoveredTextsV1>,
)
    requires
        call_ensures(texts_of_object, (&object,), texts),
    ensures
        texts is Some <==> (json::member(json::json_members(object), "request_id"@) matches Some(
            json::JsonTreeV1::Text(_),
        )),
        texts matches Some(texts) ==> json::member(json::json_members(object), "request_id"@)
            == Some(json::JsonTreeV1::Text(texts.request_id@)),
        texts matches Some(texts) ==> (texts.command matches Some(command) ==> json::member(
            json::json_members(object),
            "command"@,
        ) == Some(json::JsonTreeV1::Text(command@))),
        texts matches Some(texts) ==> (texts.command is None ==> !(json::member(
            json::json_members(object),
            "command"@,
        ) matches Some(json::JsonTreeV1::Text(_)))),
{
    match texts {
        Some(texts) => {
            assert(recovered_characters(Some(texts)) == told_texts(json::json_members(object)));
        },
        None => {
            assert(told_texts(json::json_members(object)) is None);
        },
    }
}

/// A request is answered under its own identifier exactly if that is one, and under its own command if that
/// is one too.
pub proof fn a_recovered_request_keeps_its_identifier(
    texts: RecoveredTextsV1,
    request_id_is_valid: bool,
    command_is_valid: bool,
    context: Option<RequestContextV1>,
)
    requires
        call_ensures(
            recover_request_context,
            (texts, request_id_is_valid, command_is_valid),
            context,
        ),
    ensures
        context is Some <==> request_id_is_valid,
        context matches Some(context) ==> context.request_id@ == texts.request_id@ && context.command@
            == (if command_is_valid && texts.command is Some {
            texts.command->Some_0@
        } else {
            "ipc.request"@
        }),
{
}

} // verus!
