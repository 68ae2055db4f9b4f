//! What the client of the control plane computes: the credential that every
//! call carries, and the task that a reply holds.

use crate::runtime::Task;
use crate::services::pb;
use chrono::offset::LocalResult;
use chrono::{TimeZone, Utc};
use tonic::metadata::errors::InvalidMetadataValue;
use tonic::metadata::AsciiMetadataValue;
use vstd::prelude::*;
use vstd::string::StringExecFns;
use vstd::utf8::{encode_scalar, encode_utf8};

verus! {

/// Why a call to the control plane was not made, or its reply not taken.
#[derive(Clone, Copy, Debug, PartialEq, Eq, Structural)]
pub enum RpcError {
    /// The token cannot travel as a metadata value.
    InvalidToken,
    /// The task's end time is no instant that the calendar can hold.
    InvalidEndTime,
}

impl RpcError {
    /// The error in words.
    pub open spec fn spec_message(self) -> Seq<char> {
        match self {
            RpcError::InvalidToken => "failed to parse metadata value"@,
            RpcError::InvalidEndTime => "Invalid task end time"@,
        }
    }

    /// The error in words.
    pub fn message(self) -> (r: String)
        ensures
            r@ == self.spec_message(),
    {
        match self {
            RpcError::InvalidToken => "failed to parse metadata value".to_owned(),
            RpcError::InvalidEndTime => "Invalid task end time".to_owned(),
        }
    }
}

// ---------------------------------------------------------------------------
// The credential
// ---------------------------------------------------------------------------

/// Whether a metadata value may hold the byte: a tab, or any byte from 32
/// up but 127.
pub open spec fn metadata_byte_ok(b: u8) -> bool {
    (b >= 32 && b != 127) || b == 9
}

/// Whether a metadata value may hold each byte of `bytes`.
pub open spec fn metadata_bytes_ok(bytes: Seq<u8>) -> bool {
    forall|i: int| 0 <= i < bytes.len() ==> metadata_byte_ok(#[trigger] bytes[i])
}

/// Whether a metadata value may hold the character: any character but the
/// control characters of ASCII, the tab excepted.
pub open spec fn metadata_char_ok(c: char) -> bool {
    (c as u32 >= 32 && c as u32 != 127) || c as u32 == 9
}

/// Whether a metadata value may hold each character of `text`.
pub open spec fn metadata_text_ok(text: Seq<char>) -> bool {
    forall|i: int| 0 <= i < text.len() ==> metadata_char_ok(#[trigger] text[i])
}

/// The declaration of tonic's error for a text that is no metadata value.
#[verifier::external_type_specification]
#[verifier::external_body]
pub struct ExInvalidMetadataValue(tonic::metadata::errors::InvalidMetadataValue);

/// `MetadataValue::<Ascii>::from_str` of tonic, called as `str::parse`, the
/// value itself let go. tonic takes the text exactly when a metadata value
/// may hold each byte of its UTF-8 encoding, and refuses it otherwise.
#[verifier::external_body]
fn parse_metadata_value(text: &str) -> (r: Result<(), InvalidMetadataValue>)
    ensures
        r is Ok <==> metadata_bytes_ok(encode_utf8(text@)),
{
    match text.parse::<AsciiMetadataValue>() {
        Ok(_) => Ok(()),
        Err(e) => Err(e),
    }
}

impl From<InvalidMetadataValue> for RpcError {
    fn from(value: InvalidMetadataValue) -> (r: RpcError) {
        RpcError::InvalidToken
    }
}

impl vstd::std_specs::convert::FromSpecImpl<InvalidMetadataValue> for RpcError {
    open spec fn obeys_from_spec() -> bool {
        true
    }

    open spec fn from_spec(value: InvalidMetadataValue) -> RpcError {
        RpcError::InvalidToken
    }
}

/// The bytes of one character's encoding are fit for a metadata value
/// exactly when the character is.
proof fn lemma_scalar_bytes_ok(c: char)
    ensures
        metadata_bytes_ok(encode_scalar(c as u32)) <==> metadata_char_ok(c),
{
    let v = c as u32;
    let bytes = encode_scalar(v);
    if v <= 0x7f {
        assert((v & 0x7F) as u8 == v) by (bit_vector)
            requires
                v <= 0x7f,
        ;
        if !metadata_char_ok(c) {
            assert(!metadata_byte_ok(bytes[0]));
        }
    } else {
        assert(0xC0 | ((v >> 6) & 0x1F) as u8 >= 0x80) by (bit_vector);
        assert(0xE0 | ((v >> 12) & 0x0F) as u8 >= 0x80) by (bit_vector);
        assert(0xF0 | ((v >> 18) & 0x7) as u8 >= 0x80) by (bit_vector);
        assert(0x80 | (v & 0x3F) as u8 >= 0x80) by (bit_vector);
        assert(0x80 | ((v >> 6) & 0x3F) as u8 >= 0x80) by (bit_vector);
        assert(0x80 | ((v >> 12) & 0x3F) as u8 >= 0x80) by (bit_vector);
    }
}

/// A text's encoding is fit for a metadata value exactly when each of its
/// characters is: a character beyond ASCII is encoded in bytes from 128 up.
pub proof fn lemma_metadata_text(text: Seq<char>)
    ensures
        metadata_bytes_ok(encode_utf8(text)) <==> metadata_text_ok(text),
    decreases text.len(),
{
    if text.len() > 0 {
        let head = encode_scalar(text[0] as u32);
        let rest = text.drop_first();
        let tail = encode_utf8(rest);
        lemma_scalar_bytes_ok(text[0]);
        lemma_metadata_text(rest);
        if metadata_bytes_ok(head) && metadata_bytes_ok(tail) {
            assert forall|i: int| 0 <= i < text.len() implies metadata_char_ok(
                #[trigger] text[i],
            ) by {
                if i > 0 {
                    assert(text[i] == rest[i - 1]);
                }
            }
        } else if !metadata_bytes_ok(head) {
            let i = choose|i: int| 0 <= i < head.len() && !metadata_byte_ok(#[trigger] head[i]);
            assert((head + tail)[i] == head[i]);
        } else {
            let i = choose|i: int| 0 <= i < tail.len() && !metadata_byte_ok(#[trigger] tail[i]);
            assert((head + tail)[i + head.len()] == tail[i]);
        }
    }
}

/// The credential of a token, as the `authorization` metadata carries it.
pub open spec fn spec_bearer(token: Seq<char>) -> Seq<char> {
    "Bearer "@ + token
}

/// The credential is fit for a metadata value exactly when the token is.
pub proof fn lemma_bearer_ok(token: Seq<char>)
    ensures
        metadata_text_ok(spec_bearer(token)) <==> metadata_text_ok(token),
{
    reveal_strlit("Bearer ");
    let whole = spec_bearer(token);
    if !metadata_text_ok(token) {
        let i = choose|i: int| 0 <= i < token.len() && !metadata_char_ok(#[trigger] token[i]);
        assert(whole[i + 7] == token[i]);
    }
}

/// The credential of a token, as the `authorization` metadata carries it.
pub fn bearer(token: &str) -> (r: String)
    ensures
        r@ == spec_bearer(token@),
{
    let mut text = "Bearer ".to_owned();
    text.append(token);
    text
}

/// The value of the `authorization` metadata for `token`. A token with a
/// character that no metadata value may hold is refused.
pub fn authorization(token: &str) -> (r: Result<String, RpcError>)
    ensures
        match r {
            Ok(value) => value@ == spec_bearer(token@) && metadata_text_ok(token@),
            Err(e) => e == RpcError::InvalidToken && !metadata_text_ok(token@),
        },
{
    let value = bearer(token);
    proof {
        lemma_metadata_text(value@);
        lemma_bearer_ok(token@);
    }
    match parse_metadata_value(value.as_str()) {
        Ok(()) => Ok(value),
        Err(e) => Err(RpcError::from(e)),
    }
}

/// A message together with the credential that it travels with.
#[derive(Clone, Debug, PartialEq, Eq)]
pub struct Authorized<T> {
    pub message: T,
    /// The value of the `authorization` metadata.
    pub authorization: String,
}

/// The name of the metadata that carries the credential.
pub fn authorization_key() -> (r: &'static str)
    ensures
        r@ == "authorization"@,
{
    "authorization"
}

/// Puts the credential of `token` to `message`. With a token that cannot
/// travel the message is not to be sent at all.
pub fn authorize<T>(token: &str, message: T) -> (r: Result<Authorized<T>, RpcError>)
    ensures
        match r {
            Ok(request) => request.message == message && request.authorization@ == spec_bearer(
                token@,
            ) && metadata_text_ok(token@),
            Err(e) => e == RpcError::InvalidToken && !metadata_text_ok(token@),
        },
{
    match authorization(token) {
        Ok(value) => Ok(Authorized { message, authorization: value }),
        Err(e) => Err(e),
    }
}

// ---------------------------------------------------------------------------
// Tasks
// ---------------------------------------------------------------------------

/// The first millisecond that chrono's calendar holds, counted from the Unix
/// epoch: midnight of the first day of the year -262143, the calendar's
/// first.
pub const UTC_MILLIS_FIRST: i64 = -8_334_601_228_800_000;

/// The last millisecond that chrono's calendar holds, counted from the Unix
/// epoch: the last of the year 262142, the calendar's last.
pub const UTC_MILLIS_LAST: i64 = 8_210_266_876_799_999;

/// The instant that chrono's UTC calendar makes of a count of milliseconds
/// since the Unix epoch, as such a count again; `None` where the calendar
/// does not reach so far.
pub open spec fn utc_millis(millis: i64) -> Option<i64> {
    if UTC_MILLIS_FIRST <= millis <= UTC_MILLIS_LAST {
        Some(millis)
    } else {
        None
    }
}

/// `TimeZone::timestamp_millis_opt` of chrono, on `Utc`, and
/// `DateTime::timestamp_millis` on what it gives. chrono splits the count
/// into whole days and the rest of a day, and holds the instant exactly when
/// the day lies in a year from `MIN_YEAR` to `MAX_YEAR`; the two constants
/// above are the first and the last millisecond of those years. Where it
/// holds the instant, the instant is `millis` milliseconds after the epoch.
#[verifier::external_body]
fn utc_timestamp_millis(millis: i64) -> (r: Option<i64>)
    ensures
        r == utc_millis(millis),
{
    match Utc.timestamp_millis_opt(millis) {
        LocalResult::Single(t) => Some(t.timestamp_millis()),
        LocalResult::Ambiguous(_, _) => None,
        LocalResult::None => None,
    }
}

/// The task that the agent makes of a task of the control plane, given the
/// instant that the calendar made of its end time.
pub open spec fn spec_task(task: pb::Task, end_time: Option<i64>) -> Result<Task, RpcError> {
    match end_time {
        Some(t) => Ok(
            Task {
                id: Some(task.id),
                wasm_component: task.wasm,
                wasm_component_args: task.wasm_args,
                end_time: t,
            },
        ),
        None => Err(RpcError::InvalidEndTime),
    }
}

/// The task that the agent makes of a task of the control plane, given the
/// instant that the calendar made of its end time. Without an instant
/// there is no task.
pub fn task_with_end_time(task: pb::Task, end_time: Option<i64>) -> (r: Result<Task, RpcError>)
    ensures
        r == spec_task(task, end_time),
{
    match end_time {
        Some(t) => Ok(
            Task {
                id: Some(task.id),
                wasm_component: task.wasm,
                wasm_component_args: task.wasm_args,
                end_time: t,
            },
        ),
        None => Err(RpcError::InvalidEndTime),
    }
}

/// The end time of a task of the control plane as a count that may be
/// negative: the same 64 bits, read as a signed number.
pub open spec fn signed_end_time(end_time: u64) -> i64 {
    end_time as i64
}

/// What a reply to the request for a task holds: no task, or the task with
/// its end time as an instant of the UTC calendar. A task whose end time the
/// calendar cannot hold, one before its first or after its last millisecond,
/// is refused.
pub fn task_from_reply(reply: Option<pb::Task>) -> (r: Result<Option<Task>, RpcError>)
    ensures
        match reply {
            Some(task) => match spec_task(task, utc_millis(signed_end_time(task.end_time))) {
                Ok(t) => r == Ok::<Option<Task>, RpcError>(Some(t)),
                Err(e) => r == Err::<Option<Task>, RpcError>(e),
            },
            None => r == Ok::<Option<Task>, RpcError>(None),
        },
        r matches Ok(Some(t)) ==> reply is Some && t.end_time == signed_end_time(reply->0.end_time),
        r is Err <==> reply is Some && !(UTC_MILLIS_FIRST <= signed_end_time(reply->0.end_time)
            <= UTC_MILLIS_LAST),
{
    match reply {
        Some(task) => {
            let end_time = utc_timestamp_millis(#[verifier::truncate] (task.end_time as i64));
            match task_with_end_time(task, end_time) {
                Ok(t) => Ok(Some(t)),
                Err(e) => Err(e),
            }
        },
        None => Ok(None),
    }
}

} // verus!
