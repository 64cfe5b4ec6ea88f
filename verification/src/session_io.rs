use crate::auth;
use crate::auth::{is_authorized, request_principal, AppState, PrincipalAssertion};
use crate::error;
use crate::error::{sdk_error_response, unauthorized_response, ErrorReply};
use crate::event;
use crate::event::{rfc3339_time, Event};
use crate::headers;
use crate::headers::{opt_str, HeaderMap};
use crate::ident;
use crate::json;
use crate::json::{get, get_at, Json};
use crate::text;
use crate::text::{byte_count, has_prefix, join, same, Text};
use base64::Engine;
use vstd::prelude::*;

verus! {

/// How many durable records one query gives.
pub const IO_BATCH_SIZE: usize = 256;

/// How much one connection remembers before it is reset.
pub const IO_HISTORY_LIMIT: usize = 4096;

/// A failure of the typed session channel.
pub struct IoError {
    pub code: Text,
    pub message: Text,
}

/// The answer to a failure of the typed session channel.
pub struct IoErrorReply {
    pub status: u16,
    pub error: IoError,
}

/// The answer for a failure whose code calls for this status. What is no HTTP status counts as an
/// internal failure.
pub fn io_error(error: IoError, status: u16) -> (r: IoErrorReply)
    ensures
        r == (IoErrorReply {
            status: if 100 <= status <= 999 {
                status
            } else {
                500
            },
            error,
        }),
{
    if 100 <= status && status <= 999 {
        IoErrorReply { status, error }
    } else {
        IoErrorReply { status: 500, error }
    }
}

pub open spec fn input_too_long() -> IoError {
    IoError {
        code: Text::Fixed("message_limit_exceeded"),
        message: Text::Fixed("Input exceeds the declared byte limit"),
    }
}

/// The failure for a request body over the declared limit.
pub fn input_limit_error() -> (r: IoError)
    ensures
        r == input_too_long(),
{
    IoError {
        code: Text::Fixed("message_limit_exceeded"),
        message: Text::Fixed("Input exceeds the declared byte limit"),
    }
}

/// The failure for durable history that cannot be read.
pub fn history_error() -> (r: IoError)
    ensures
        r == (IoError {
            code: Text::Fixed("unavailable"),
            message: Text::Fixed("Cannot read durable IO history"),
        }),
{
    IoError {
        code: Text::Fixed("unavailable"),
        message: Text::Fixed("Cannot read durable IO history"),
    }
}

/// Whom a request on the typed session channel acts as. Credentials never come from the URL here.
pub fn io_principal(state: &AppState, headers: &HeaderMap) -> (r: Result<
    PrincipalAssertion,
    ErrorReply,
>)
    ensures
        if !auth::is_admitted(state, headers, None) {
            r == Err::<PrincipalAssertion, ErrorReply>(error::unauthorized_reply())
        } else {
            match auth::principal_of(state, headers, None) {
                Ok(view) => r matches Ok(principal) && principal@ == view,
                Err(refusal) => r == Err::<PrincipalAssertion, ErrorReply>(
                    error::sdk_reply(refusal),
                ),
            }
        },
{
    if !is_authorized(state, headers, None) {
        return Err(unauthorized_response());
    }
    match request_principal(state, headers, None) {
        Ok(principal) => Ok(principal),
        Err(refusal) => Err(sdk_error_response(refusal)),
    }
}

/// The headers under which a stored resource is handed out: as an opaque download.
pub fn resource_headers() -> (r: Vec<(&'static str, &'static str)>)
    ensures
        r@ == seq![
            ("content-type", "application/octet-stream"),
            ("content-disposition", "attachment"),
            ("cache-control", "no-store"),
            ("x-content-type-options", "nosniff"),
        ],
{
    vec![
        ("content-type", "application/octet-stream"),
        ("content-disposition", "attachment"),
        ("cache-control", "no-store"),
        ("x-content-type-options", "nosniff"),
    ]
}

/// The JSON text of a cursor, as `serde_json` writes the pair.
pub uninterp spec fn cursor_json(session: Seq<char>, sequence: u64) -> Seq<u8>;

/// The pair that `serde_json` reads from the JSON text of a cursor.
pub uninterp spec fn cursor_parts(bytes: Seq<u8>) -> Option<(Seq<char>, u64)>;

/// The URL-safe Base64 text of some bytes, without padding.
pub uninterp spec fn base64_url(bytes: Seq<u8>) -> Seq<char>;

/// The bytes of a URL-safe Base64 text without padding, `None` where it is not one.
pub uninterp spec fn base64_url_bytes(text: Seq<char>) -> Option<Seq<u8>>;

/// `serde_json::to_vec` on a pair of a string and a number. It gives a text from which the same
/// pair is read back. Of the string each byte takes up to six bytes, and besides it there are the
/// brackets, the quotes, the comma and up to twenty digits.
#[verifier::external_body]
fn write_pair(session: &str, sequence: u64) -> (r: Vec<u8>)
    ensures
        r@ == cursor_json(session@, sequence),
        cursor_parts(r@) == Some((session@, sequence)),
        r@.len() <= 6 * text::byte_len(session@) + 25,
{
    serde_json::to_vec(&(session, sequence)).expect("a pair of text and number is valid JSON")
}

/// `serde_json::from_slice` to a pair of a string and a number.
#[verifier::external_body]
fn read_pair(bytes: &[u8]) -> (r: Option<(String, u64)>)
    ensures
        match cursor_parts(bytes@) {
            Some((session, sequence)) => r matches Some(pair) && pair.0@ == session && pair.1
                == sequence,
            None => r is None,
        },
{
    serde_json::from_slice::<(String, u64)>(bytes).ok()
}

/// `base64` with the URL-safe alphabet and no padding: `encode`. The text decodes to the same bytes.
/// It takes four bytes for three, and of what is left over two for one and three for two.
#[verifier::external_body]
pub(crate) fn encode_base64_url(bytes: &[u8]) -> (r: String)
    ensures
        r@ == base64_url(bytes@),
        base64_url_bytes(r@) == Some(bytes@),
        text::byte_len(r@) == (4 * bytes@.len() + 2) / 3,
{
    base64::engine::general_purpose::URL_SAFE_NO_PAD.encode(bytes)
}

/// `base64` with the URL-safe alphabet and no padding: `decode`.
#[verifier::external_body]
fn decode_base64_url(text: &str) -> (r: Option<Vec<u8>>)
    ensures
        match base64_url_bytes(text@) {
            Some(bytes) => r matches Some(v) && v@ == bytes,
            None => r is None,
        },
{
    base64::engine::general_purpose::URL_SAFE_NO_PAD.decode(text).ok()
}

/// The opaque cursor for a position in a session's history.
pub open spec fn cursor_text(session: Seq<char>, sequence: u64) -> Seq<char> {
    base64_url(cursor_json(session, sequence))
}

pub open spec fn invalid_cursor() -> IoError {
    IoError {
        code: Text::Fixed("invalid_content_syntax"),
        message: Text::Fixed("Cursor is invalid for this Session"),
    }
}

/// What is read from a cursor: the session that it belongs to, and the position.
pub open spec fn decoded_cursor(encoded: Seq<char>) -> Option<(Seq<char>, u64)> {
    match base64_url_bytes(encoded) {
        Some(bytes) => cursor_parts(bytes),
        None => None,
    }
}

/// The position that an optional cursor stands for in a session.
pub open spec fn position(session: Seq<char>, encoded: Option<Seq<char>>) -> Result<u64, IoError> {
    match encoded {
        None => Ok(0),
        Some(text) => match decoded_cursor(text) {
            Some((owner, sequence)) if text::byte_len(text) <= 2048 && owner == session => Ok(
                sequence,
            ),
            _ => Err(invalid_cursor()),
        },
    }
}

/// The opaque cursor for a position in a session's history. It is read back in the same session to
/// the same position, and refused in any other. Only a session with a longer name than identifiers
/// have can get a cursor that is too long to be read.
pub fn cursor(session: &str, sequence: u64) -> (r: String)
    ensures
        r@ == cursor_text(session@, sequence),
        text::byte_len(r@) <= 2048 ==> position(session@, Some(r@)) == Ok::<u64, IoError>(sequence),
        ident::identifier_fault(session@) is None ==> position(session@, Some(r@)) == Ok::<
            u64,
            IoError,
        >(sequence),
        forall|other: Seq<char>|
            other != session@ ==> #[trigger] position(other, Some(r@)) == Err::<u64, IoError>(
                invalid_cursor(),
            ),
{
    encode_base64_url(write_pair(session, sequence).as_slice())
}

fn cursor_refusal() -> (r: IoError)
    ensures
        r == invalid_cursor(),
{
    IoError {
        code: Text::Fixed("invalid_content_syntax"),
        message: Text::Fixed("Cursor is invalid for this Session"),
    }
}

/// The position for the parts that were read from a cursor.
pub fn cursor_position(session: &str, parts: Option<(String, u64)>) -> (r: Result<u64, IoError>)
    ensures
        r == match parts {
            Some((owner, sequence)) if owner@ == session@ => Ok::<u64, IoError>(sequence),
            _ => Err(invalid_cursor()),
        },
{
    match parts {
        Some((owner, sequence)) => if same(owner.as_str(), session) {
            Ok(sequence)
        } else {
            Err(cursor_refusal())
        },
        None => Err(cursor_refusal()),
    }
}

/// The position that an optional cursor stands for in a session.
pub fn sequence(session: &str, encoded: Option<&str>) -> (r: Result<u64, IoError>)
    ensures
        r == position(session@, headers::opt_view(encoded)),
{
    let encoded = match encoded {
        Some(encoded) => encoded,
        None => {
            return Ok(0);
        },
    };
    if byte_count(encoded) > 2048 {
        return Err(cursor_refusal());
    }
    match decode_base64_url(encoded) {
        Some(bytes) => cursor_position(session, read_pair(bytes.as_slice())),
        None => Err(cursor_refusal()),
    }
}

/// The cursor that a stream starts from: the query parameter, else the header of a reconnect.
pub open spec fn stream_cursor(after: Option<Seq<char>>, headers: &HeaderMap) -> Option<Seq<char>> {
    match after {
        Some(text) => Some(text),
        None => headers.header("last-event-id"@).readable(),
    }
}

pub fn stream_start(session: &str, after: &Option<String>, headers: &HeaderMap) -> (r: Result<
    u64,
    IoError,
>)
    ensures
        r == position(session@, stream_cursor(headers::opt_string(*after), headers)),
{
    match opt_str(after) {
        Some(text) => sequence(session, Some(text)),
        None => sequence(session, headers.get("last-event-id").readable()),
    }
}

/// A message format that a client can show.
pub struct ReceiveFormat {
    pub id: String,
    pub version: String,
    pub encoding: String,
}

/// What a client wants to receive.
pub struct Subscription {
    pub io_version: Text,
    pub stream_version: Text,
    pub receive_formats: Option<Vec<ReceiveFormat>>,
    pub receive_unknown: Text,
}

/// The query of a read.
pub struct ReadQuery {
    pub after: Option<String>,
    pub io_version: Option<String>,
    pub stream_version: Option<String>,
    pub receive_formats: Option<String>,
    pub receive_unknown: Option<String>,
}

pub open spec fn given_or(value: Option<String>, fallback: &'static str) -> Text {
    match value {
        Some(text) => Text::Owned(text),
        None => Text::Fixed(fallback),
    }
}

fn text_or(value: &Option<String>, fallback: &'static str) -> (r: Text)
    ensures
        r == given_or(*value, fallback),
{
    match value {
        Some(text) => Text::Owned(text.clone()),
        None => Text::Fixed(fallback),
    }
}

impl ReadQuery {
    /// The subscription that a query asks for, before the channel normalises it. `formats` is what
    /// the format list was read to: nothing where there was none, and no list where it was invalid.
    pub fn preferences(&self, formats: Option<Option<Vec<ReceiveFormat>>>) -> (r: Result<
        Subscription,
        IoError,
    >)
        ensures
            r == match formats {
                Some(None) => Err::<Subscription, IoError>(
                    IoError {
                        code: Text::Fixed("invalid_content_syntax"),
                        message: Text::Fixed("Invalid receive_formats list"),
                    },
                ),
                _ => Ok(
                    Subscription {
                        io_version: given_or(self.io_version, "1"),
                        stream_version: given_or(self.stream_version, "1"),
                        receive_formats: match formats {
                            Some(list) => list,
                            None => None,
                        },
                        receive_unknown: given_or(self.receive_unknown, "inspect"),
                    },
                ),
            },
    {
        let receive_formats: Option<Vec<ReceiveFormat>> = match formats {
            None => None,
            Some(Some(list)) => Some(list),
            Some(None) => {
                return Err(
                    IoError {
                        code: Text::Fixed("invalid_content_syntax"),
                        message: Text::Fixed("Invalid receive_formats list"),
                    },
                );
            },
        };
        Ok(
            Subscription {
                io_version: text_or(&self.io_version, "1"),
                stream_version: text_or(&self.stream_version, "1"),
                receive_formats,
                receive_unknown: text_or(&self.receive_unknown, "inspect"),
            },
        )
    }
}

/// A message of the typed channel: its format, and its wire form.
pub struct IoMessage {
    pub format_id: String,
    pub format_version: String,
    pub encoding: String,
    pub wire: Json,
}

/// An input that the channel accepted, and what it was bound to.
pub struct AcceptedInput {
    pub message: IoMessage,
    pub binding: Json,
}

/// The identifiers that tie an event to what caused it.
pub struct CausalIds {
    pub session_id: Option<String>,
    pub principal_id: Option<String>,
    pub root_turn_id: Option<String>,
    pub thread_id: Option<String>,
    pub activation_id: Option<String>,
    pub model_attempt_id: Option<String>,
    pub output_id: Option<String>,
}

/// What the runtime reads from an event for the typed channel.
pub struct EventReading {
    /// The accepted input that the payload's member for it holds.
    pub input: Option<AcceptedInput>,
    /// The committed message that the payload's member for it holds.
    pub output: Option<IoMessage>,
    /// Whether the event is a user's input.
    pub is_input: bool,
    /// The chat message that the event stands for.
    pub chat: Option<IoMessage>,
    pub causal: CausalIds,
    pub resources: Vec<Json>,
}

/// Whether a record is an event with what was read from it: an input comes from the member
/// `session_io` of its payload and a message from the member `io_message`, and an event without that
/// member has none.
pub open spec fn is_record_of(record: EventRecord, event: Event, reading: EventReading) -> bool {
    &&& record.event == event
    &&& record.input == match json::member(event.payload@, "session_io"@) {
        Some(_) => reading.input,
        None => None,
    }
    &&& record.output == match json::member(event.payload@, "io_message"@) {
        Some(_) => reading.output,
        None => None,
    }
    &&& record.is_input == reading.is_input
    &&& record.chat == reading.chat
    &&& record.causal == reading.causal
    &&& record.resources == reading.resources
}

pub fn event_record(event: Event, reading: EventReading) -> (r: EventRecord)
    ensures
        is_record_of(r, event, reading),
{
    let members = event.channel_members();
    let input: Option<AcceptedInput> = match members.input {
        Some(_) => reading.input,
        None => None,
    };
    let output: Option<IoMessage> = match members.output {
        Some(_) => reading.output,
        None => None,
    };
    EventRecord {
        event,
        input,
        output,
        is_input: reading.is_input,
        chat: reading.chat,
        causal: reading.causal,
        resources: reading.resources,
    }
}

/// An event with what the typed channel makes of its payload.
pub struct EventRecord {
    pub event: Event,
    /// The accepted input that the payload holds.
    pub input: Option<AcceptedInput>,
    /// The committed message that the payload holds.
    pub output: Option<IoMessage>,
    /// Whether the event is a user's input.
    pub is_input: bool,
    /// The chat message that the event stands for.
    pub chat: Option<IoMessage>,
    pub causal: CausalIds,
    pub resources: Vec<Json>,
}

/// What kind of event a client sees.
#[derive(PartialEq, Eq, Structural, Clone, Copy, Debug)]
pub enum WireKind {
    InputAccepted,
    OutputCommitted,
    RunState,
    ExecutionEvent,
}

impl WireKind {
    pub open spec fn spec_as_str(self) -> &'static str {
        match self {
            WireKind::InputAccepted => "input.accepted",
            WireKind::OutputCommitted => "output.committed",
            WireKind::RunState => "run.state",
            WireKind::ExecutionEvent => "execution.event",
        }
    }

    pub fn as_str(self) -> (r: &'static str)
        ensures
            r == self.spec_as_str(),
    {
        match self {
            WireKind::InputAccepted => "input.accepted",
            WireKind::OutputCommitted => "output.committed",
            WireKind::RunState => "run.state",
            WireKind::ExecutionEvent => "execution.event",
        }
    }

    pub open spec fn spec_source(self) -> &'static str {
        match self {
            WireKind::InputAccepted => "client",
            WireKind::OutputCommitted => "agent",
            _ => "runtime",
        }
    }

    /// Who an event of this kind comes from.
    pub fn source(self) -> (r: &'static str)
        ensures
            r == self.spec_source(),
    {
        match self {
            WireKind::InputAccepted => "client",
            WireKind::OutputCommitted => "agent",
            _ => "runtime",
        }
    }
}

pub open spec fn is_run_topic(topic: Seq<char>) -> bool {
    ||| text::starts_with(topic, "runtime/thread"@)
    ||| text::starts_with(topic, "session/io_"@)
    ||| topic == "chat/no_reply"@
    ||| topic == "chat/cancelled"@
    ||| topic == "chat/runtime_error"@
}

pub open spec fn is_execution_topic(topic: Seq<char>) -> bool {
    ||| topic == "chat/tool_output"@
    ||| topic == "chat/assistant_call"@
    ||| text::starts_with(topic, "runtime/execution"@)
    ||| text::starts_with(topic, "runtime/approval"@)
}

/// How an event is shown, and the message that it carries. `None` is an event that clients do not
/// see.
pub open spec fn wire_class(record: EventRecord) -> Option<(WireKind, Option<IoMessage>)> {
    let topic = record.event.topic@;
    if record.input is Some {
        Some((WireKind::InputAccepted, Some(record.input->0.message)))
    } else if record.output is Some {
        Some((WireKind::OutputCommitted, record.output))
    } else if record.is_input || topic == "chat/reply"@ {
        match record.chat {
            Some(message) => Some(
                (
                    if record.is_input {
                        WireKind::InputAccepted
                    } else {
                        WireKind::OutputCommitted
                    },
                    Some(message),
                ),
            ),
            None => None,
        }
    } else if is_run_topic(topic) {
        Some((WireKind::RunState, None))
    } else if is_execution_topic(topic) {
        Some((WireKind::ExecutionEvent, None))
    } else {
        None
    }
}

/// What an event shows comes from the members of its payload: the input that `session_io` holds,
/// else the message that `io_message` holds. An event with neither shows a message only where it is
/// a chat message.
pub proof fn law_messages_come_from_their_members(
    record: EventRecord,
    event: Event,
    reading: EventReading,
)
    requires
        is_record_of(record, event, reading),
    ensures
        ({
            let has_input = json::member(event.payload@, "session_io"@) is Some
                && reading.input is Some;
            let has_output = json::member(event.payload@, "io_message"@) is Some
                && reading.output is Some;
            &&& has_input ==> wire_class(record) == Some(
                (WireKind::InputAccepted, Some(reading.input->0.message)),
            )
            &&& !has_input && has_output ==> wire_class(record) == Some(
                (WireKind::OutputCommitted, reading.output),
            )
            &&& !has_input && !has_output && !reading.is_input && event.topic@ != "chat/reply"@ ==> (
            wire_class(record) matches Some((_, message)) ==> message is None)
        }),
{
}

/// Whether a client declared that it shows this message natively.
pub open spec fn shows_natively(preferences: Subscription, message: IoMessage) -> bool {
    match preferences.receive_formats {
        Some(formats) => exists|i: int|
            0 <= i < formats@.len() && #[trigger] matches_format(formats@[i], message),
        None => false,
    }
}

pub open spec fn matches_format(format: ReceiveFormat, message: IoMessage) -> bool {
    &&& format.id@ == message.format_id@
    &&& format.version@ == message.format_version@
    &&& format.encoding@ == message.encoding@
}

pub open spec fn inspects_unknown(preferences: Subscription) -> bool {
    preferences.receive_unknown@ == "inspect"@
}

/// What a client sees of the content of an event.
pub enum WireContent<'a> {
    /// The message, which the client shows natively.
    Native(&'a IoMessage),
    /// The message, which the client can only inspect.
    Inspect(&'a IoMessage),
    /// Only the name of a format that the client does not want.
    Unsupported { format: String },
    /// The event itself.
    Event,
}

/// An event as a client of the typed channel sees it.
pub struct WireEvent<'a> {
    pub kind: WireKind,
    pub event: &'a Event,
    pub timestamp: Option<String>,
    pub sequence: u64,
    /// The message's identifier, where there is a message.
    pub message_id: Option<&'a String>,
    pub causal: &'a CausalIds,
    pub content: WireContent<'a>,
    pub binding: Option<&'a Json>,
    pub resources: Option<&'a Vec<Json>>,
}

pub open spec fn content_of(
    content: WireContent,
    preferences: Subscription,
    message: Option<IoMessage>,
) -> bool {
    match message {
        Some(message) => if shows_natively(preferences, message) {
            content matches WireContent::Native(shown) && *shown == message
        } else if inspects_unknown(preferences) {
            content matches WireContent::Inspect(shown) && *shown == message
        } else {
            content matches WireContent::Unsupported { format } && format@ == message.format_id@
                + "@"@ + message.format_version@
        },
        None => content is Event,
    }
}

impl<'a> WireEvent<'a> {
    /// Whether this is how a client with these preferences sees the record.
    pub open spec fn shows(
        &self,
        record: EventRecord,
        preferences: Subscription,
        kind: WireKind,
        message: Option<IoMessage>,
    ) -> bool {
        let discloses = !(self.content is Unsupported);
        &&& self.kind == kind
        &&& *self.event == record.event
        &&& headers::opt_string(self.timestamp) == event::timestamp_rfc3339(
            record.event.timestamp.seconds,
            record.event.timestamp.nanos,
        )
        &&& self.sequence == match record.event.sequence {
            Some(sequence) => sequence,
            None => 0,
        }
        &&& match message {
            Some(_) => self.message_id matches Some(id) && *id == record.event.id,
            None => self.message_id is None,
        }
        &&& *self.causal == record.causal
        &&& content_of(self.content, preferences, message)
        &&& match record.input {
            Some(input) if discloses => self.binding matches Some(binding) && *binding
                == input.binding,
            _ => self.binding is None,
        }
        &&& if record.input is None && discloses && record.resources@.len() > 0 {
            self.resources matches Some(resources) && *resources == record.resources
        } else {
            self.resources is None
        }
    }
}

fn native(preferences: &Subscription, message: &IoMessage) -> (r: bool)
    ensures
        r == shows_natively(*preferences, *message),
{
    match &preferences.receive_formats {
        Some(formats) => {
            let mut i: usize = 0;
            while i < formats.len()
                invariant
                    preferences.receive_formats == Some(*formats),
                    0 <= i <= formats.len(),
                    forall|j: int| 0 <= j < i ==> !#[trigger] matches_format(formats@[j], *message),
                decreases formats.len() - i,
            {
                if same(formats[i].id.as_str(), message.format_id.as_str()) && same(
                    formats[i].version.as_str(),
                    message.format_version.as_str(),
                ) && same(formats[i].encoding.as_str(), message.encoding.as_str()) {
                    proof {
                        let list = preferences.receive_formats->0;
                        assert(matches_format(list@[i as int], *message));
                    }
                    return true;
                }
                i = i + 1;
            }
            false
        },
        None => false,
    }
}

fn classify<'a>(record: &'a EventRecord) -> (r: Option<(WireKind, Option<&'a IoMessage>)>)
    ensures
        match wire_class(*record) {
            Some((kind, message)) => r matches Some(found) && found.0 == kind && match message {
                Some(m) => found.1 matches Some(shown) && *shown == m,
                None => found.1 is None,
            },
            None => r is None,
        },
{
    let topic = record.event.topic.as_str();
    if let Some(input) = &record.input {
        return Some((WireKind::InputAccepted, Some(&input.message)));
    }
    if let Some(output) = &record.output {
        return Some((WireKind::OutputCommitted, Some(output)));
    }
    if record.is_input || same(topic, "chat/reply") {
        let kind = if record.is_input {
            WireKind::InputAccepted
        } else {
            WireKind::OutputCommitted
        };
        return match &record.chat {
            Some(message) => Some((kind, Some(message))),
            None => None,
        };
    }
    if has_prefix(topic, "runtime/thread") || has_prefix(topic, "session/io_") || same(
        topic,
        "chat/no_reply",
    ) || same(topic, "chat/cancelled") || same(topic, "chat/runtime_error") {
        return Some((WireKind::RunState, None));
    }
    if same(topic, "chat/tool_output") || same(topic, "chat/assistant_call") || has_prefix(
        topic,
        "runtime/execution",
    ) || has_prefix(topic, "runtime/approval") {
        return Some((WireKind::ExecutionEvent, None));
    }
    None
}

/// How a client with these preferences sees an event, `None` where it does not see it at all.
/// Whether a client can show a format decides only how much it is shown, not whether the event is
/// delivered.
pub fn event_wire<'a>(record: &'a EventRecord, preferences: &Subscription) -> (r: Option<
    WireEvent<'a>,
>)
    ensures
        match wire_class(*record) {
            Some((kind, message)) => r matches Some(shown) && shown.shows(
                *record,
                *preferences,
                kind,
                message,
            ),
            None => r is None,
        },
{
    let (kind, message) = match classify(record) {
        Some(found) => found,
        None => {
            return None;
        },
    };
    let content: WireContent<'a> = match message {
        Some(message) => if native(preferences, message) {
            WireContent::Native(message)
        } else if same(preferences.receive_unknown.as_str(), "inspect") {
            WireContent::Inspect(message)
        } else {
            WireContent::Unsupported {
                format: join(
                    join(message.format_id.as_str(), "@").as_str(),
                    message.format_version.as_str(),
                ),
            }
        },
        None => WireContent::Event,
    };
    let discloses: bool = match &content {
        WireContent::Unsupported { .. } => false,
        _ => true,
    };
    let binding: Option<&'a Json> = match &record.input {
        Some(input) => if discloses {
            Some(&input.binding)
        } else {
            None
        },
        None => None,
    };
    let resources: Option<&'a Vec<Json>> = if record.input.is_none() && discloses
        && record.resources.len() > 0 {
        Some(&record.resources)
    } else {
        None
    };
    let sequence: u64 = match record.event.sequence {
        Some(sequence) => sequence,
        None => 0,
    };
    let message_id: Option<&'a String> = match message {
        Some(_) => Some(&record.event.id),
        None => None,
    };
    Some(
        WireEvent {
            kind,
            event: &record.event,
            timestamp: rfc3339_time(record.event.timestamp),
            sequence,
            message_id,
            causal: &record.causal,
            content,
            binding,
            resources,
        },
    )
}

/// The largest sequence number of the events, `None` where none has one.
pub open spec fn largest_sequence(events: Seq<EventRecord>) -> Option<u64>
    decreases events.len(),
{
    if events.len() == 0 {
        None
    } else {
        match (largest_sequence(events.drop_last()), events.last().event.sequence) {
            (None, newest) => newest,
            (Some(n), None) => Some(n),
            (Some(n), Some(m)) => Some(
                if m > n {
                    m
                } else {
                    n
                },
            ),
        }
    }
}

/// The position behind a page of events.
pub fn page_position(events: &Vec<EventRecord>, after: u64) -> (r: u64)
    ensures
        r == match largest_sequence(events@) {
            Some(n) => n,
            None => after,
        },
{
    let mut largest: Option<u64> = None;
    let mut i: usize = 0;
    proof {
        assert(events@.subrange(0, 0) =~= Seq::<EventRecord>::empty());
    }
    while i < events.len()
        invariant
            0 <= i <= events.len(),
            largest == largest_sequence(events@.subrange(0, i as int)),
        decreases events.len() - i,
    {
        proof {
            assert(events@.subrange(0, i + 1).drop_last() =~= events@.subrange(0, i as int));
        }
        match (largest, events[i].event.sequence) {
            (None, newest) => {
                largest = newest;
            },
            (Some(n), Some(m)) => {
                if m > n {
                    largest = Some(m);
                }
            },
            (Some(_), None) => {},
        }
        i = i + 1;
    }
    proof {
        assert(events@.subrange(0, events@.len() as int) =~= events@);
    }
    match largest {
        Some(n) => n,
        None => after,
    }
}

/// A page of a session's history: what the client sees of each event, and the cursor behind it.
pub struct EventsPage<'a> {
    pub events: Vec<WireEvent<'a>>,
    pub cursor: String,
}

pub open spec fn visible_kind(record: EventRecord) -> WireKind {
    match wire_class(record) {
        Some((kind, _)) => kind,
        None => WireKind::RunState,
    }
}

pub open spec fn visible_message(record: EventRecord) -> Option<IoMessage> {
    match wire_class(record) {
        Some((_, message)) => message,
        None => None,
    }
}

/// The records that clients see, in order.
pub open spec fn visible(records: Seq<EventRecord>) -> Seq<EventRecord> {
    records.filter(|record: EventRecord| wire_class(record) is Some)
}

/// Whether the shown events are the visible records, in order, as this client sees them.
pub open spec fn shows_all(
    shown: Seq<WireEvent>,
    records: Seq<EventRecord>,
    preferences: Subscription,
) -> bool {
    &&& shown.len() == visible(records).len()
    &&& forall|i: int|
        0 <= i < shown.len() ==> (#[trigger] shown[i]).shows(
            visible(records)[i],
            preferences,
            visible_kind(visible(records)[i]),
            visible_message(visible(records)[i]),
        )
}

pub fn events_page<'a>(
    session: &str,
    after: u64,
    records: &'a Vec<EventRecord>,
    preferences: &Subscription,
) -> (r: EventsPage<'a>)
    ensures
        r.cursor@ == cursor_text(
            session@,
            match largest_sequence(records@) {
                Some(n) => n,
                None => after,
            },
        ),
        shows_all(r.events@, records@, *preferences),
{
    let mut events: Vec<WireEvent<'a>> = Vec::new();
    let mut i: usize = 0;
    proof {
        reveal(Seq::filter);
        assert(records@.subrange(0, 0) =~= Seq::<EventRecord>::empty());
    }
    while i < records.len()
        invariant
            0 <= i <= records.len(),
            shows_all(events@, records@.subrange(0, i as int), *preferences),
        decreases records.len() - i,
    {
        proof {
            reveal(Seq::filter);
            let seen = records@.subrange(0, i + 1);
            assert(seen.drop_last() =~= records@.subrange(0, i as int));
            assert(seen.last() == records@[i as int]);
            if wire_class(records@[i as int]) is Some {
                assert(visible(seen) =~= visible(seen.drop_last()).push(seen.last()));
            } else {
                assert(visible(seen) =~= visible(seen.drop_last()));
            }
        }
        match event_wire(&records[i], preferences) {
            Some(shown) => {
                events.push(shown);
            },
            None => {},
        }
        i = i + 1;
    }
    proof {
        assert(records@.subrange(0, records@.len() as int) =~= records@);
    }
    EventsPage { events, cursor: cursor(session, page_position(records, after)) }
}

/// The answer to an accepted message.
pub struct AcceptedReply<'a> {
    pub event_id: &'a String,
    pub session_id: &'a str,
    pub cursor: String,
    pub binding: Option<&'a Json>,
}

pub open spec fn accepted_binding(event: Event) -> Option<Json> {
    match json::member(event.payload@, "session_io"@) {
        Some(io) => json::at(io, "binding"@),
        None => None,
    }
}

pub fn accepted_reply<'a>(session: &'a str, event: &'a Event) -> (r: AcceptedReply<'a>)
    ensures
        *r.event_id == event.id,
        r.session_id == session,
        r.cursor@ == cursor_text(
            session@,
            match event.sequence {
                Some(sequence) => sequence,
                None => 0,
            },
        ),
        match accepted_binding(*event) {
            Some(binding) => r.binding matches Some(shown) && *shown == binding,
            None => r.binding is None,
        },
{
    let sequence: u64 = match event.sequence {
        Some(sequence) => sequence,
        None => 0,
    };
    let binding: Option<&'a Json> = match get(&event.payload, "session_io") {
        Some(io) => get_at(io, "binding"),
        None => None,
    };
    AcceptedReply {
        event_id: &event.id,
        session_id: session,
        cursor: cursor(session, sequence),
        binding,
    }
}

/// The kinds of events have these names and come from these sides.
pub proof fn law_kinds_name_who_speaks(kind: WireKind)
    ensures
        kind == WireKind::InputAccepted ==> kind.spec_as_str() == "input.accepted"
            && kind.spec_source() == "client",
        kind == WireKind::OutputCommitted ==> kind.spec_as_str() == "output.committed"
            && kind.spec_source() == "agent",
        kind == WireKind::RunState ==> kind.spec_as_str() == "run.state" && kind.spec_source()
            == "runtime",
        kind == WireKind::ExecutionEvent ==> kind.spec_as_str() == "execution.event"
            && kind.spec_source() == "runtime",
{
}

/// A chat message is shown as said by whoever said it: what a user put in as accepted input, a reply
/// as committed output. What a user put in is never shown as something that the agent said, unless
/// the event holds a committed message.
pub proof fn law_chat_is_shown_as_said_by_its_speaker(record: EventRecord, message: IoMessage)
    requires
        record.input is None,
        record.output is None,
    ensures
        record.chat == Some(message) && record.is_input ==> wire_class(record) == Some(
            (WireKind::InputAccepted, Some(message)),
        ),
        record.chat == Some(message) && !record.is_input && record.event.topic@ == "chat/reply"@
            ==> wire_class(record) == Some((WireKind::OutputCommitted, Some(message))),
        record.chat is None && (record.is_input || record.event.topic@ == "chat/reply"@)
            ==> wire_class(record) is None,
        record.is_input ==> (wire_class(record) matches Some((kind, _)) ==> kind.spec_source()
            == "client"),
        wire_class(record) matches Some((kind, _)) && kind.spec_source() == "agent"
            ==> !record.is_input && record.event.topic@ == "chat/reply"@,
{
}

/// A typed input is shown as accepted and a typed message as committed, whatever the event's topic.
pub proof fn law_typed_content_decides_the_kind(record: EventRecord)
    ensures
        record.input matches Some(input) ==> wire_class(record) == Some(
            (WireKind::InputAccepted, Some(input.message)),
        ),
        record.input is None && record.output is Some ==> wire_class(record) == Some(
            (WireKind::OutputCommitted, record.output),
        ),
{
}

/// What is neither typed nor chat is shown by its topic, without a message: the states of threads and
/// of the channel, the ends of turns without a reply, and the steps of execution. Nothing else is
/// shown.
pub proof fn law_other_events_are_shown_by_topic(record: EventRecord)
    requires
        record.input is None,
        record.output is None,
        !record.is_input,
        record.event.topic@ != "chat/reply"@,
    ensures
        ({
            let topic = record.event.topic@;
            let runs = text::starts_with(topic, "runtime/thread"@) || text::starts_with(
                topic,
                "session/io_"@,
            ) || topic == "chat/no_reply"@ || topic == "chat/cancelled"@ || topic
                == "chat/runtime_error"@;
            let executes = topic == "chat/tool_output"@ || topic == "chat/assistant_call"@
                || text::starts_with(topic, "runtime/execution"@) || text::starts_with(
                topic,
                "runtime/approval"@,
            );
            &&& runs ==> wire_class(record) == Some((WireKind::RunState, None::<IoMessage>))
            &&& executes && !runs ==> wire_class(record) == Some(
                (WireKind::ExecutionEvent, None::<IoMessage>),
            )
            &&& !runs && !executes ==> wire_class(record) is None
        }),
{
}

/// A client that declared the format of a message gets it natively; one that did not gets it for
/// inspection where it asked for that, and else learns the name of the format and nothing besides:
/// neither what the input was bound to nor its resources.
pub proof fn law_messages_are_shown_as_clients_can_show_them(
    shown: WireEvent,
    record: EventRecord,
    preferences: Subscription,
    kind: WireKind,
    message: IoMessage,
)
    requires
        shown.shows(record, preferences, kind, Some(message)),
    ensures
        ({
            let declared = preferences.receive_formats matches Some(formats) && exists|i: int|
                0 <= i < formats@.len() && (#[trigger] formats@[i]).id@ == message.format_id@
                    && formats@[i].version@ == message.format_version@ && formats@[i].encoding@
                    == message.encoding@;
            let inspects = preferences.receive_unknown@ == "inspect"@;
            &&& declared ==> (shown.content matches WireContent::Native(m) && *m == message)
            &&& !declared && inspects ==> (shown.content matches WireContent::Inspect(m) && *m
                == message)
            &&& !declared && !inspects ==> {
                &&& shown.content matches WireContent::Unsupported { format } && format@
                    == message.format_id@ + "@"@ + message.format_version@
                &&& shown.binding is None
                &&& shown.resources is None
            }
            &&& declared || inspects ==> (record.input matches Some(input) ==> (
            shown.binding matches Some(binding) && *binding == input.binding) && shown.resources
                is None)
            &&& (declared || inspects) && record.input is None ==> shown.binding is None && (
            shown.resources is Some <==> record.resources@.len() > 0)
        }),
        shown.event.id == record.event.id,
        shown.message_id matches Some(id) && *id == record.event.id,
        record.event.sequence matches Some(n) ==> shown.sequence == n,
        shown.kind == kind,
{
    if preferences.receive_formats is Some {
        let formats = preferences.receive_formats->0;
        assert forall|i: int| 0 <= i < formats@.len() implies matches_format(
            #[trigger] formats@[i],
            message,
        ) == (formats@[i].id@ == message.format_id@ && formats@[i].version@
            == message.format_version@ && formats@[i].encoding@ == message.encoding@) by {}
        if shows_natively(preferences, message) {
            let i = choose|i: int|
                0 <= i < formats@.len() && #[trigger] matches_format(formats@[i], message);
            assert(formats@[i].id@ == message.format_id@);
        }
        if exists|i: int|
            0 <= i < formats@.len() && (#[trigger] formats@[i]).id@ == message.format_id@
                && formats@[i].version@ == message.format_version@ && formats@[i].encoding@
                == message.encoding@ {
            let i = choose|i: int|
                0 <= i < formats@.len() && (#[trigger] formats@[i]).id@ == message.format_id@
                    && formats@[i].version@ == message.format_version@ && formats@[i].encoding@
                    == message.encoding@;
            assert(matches_format(formats@[i], message));
        }
    }
}

/// An event without a message shows itself, and has no message identifier.
pub proof fn law_events_without_a_message_show_themselves(
    shown: WireEvent,
    record: EventRecord,
    preferences: Subscription,
    kind: WireKind,
)
    requires
        shown.shows(record, preferences, kind, None),
    ensures
        shown.content is Event,
        shown.message_id is None,
        *shown.event == record.event,
        shown.kind == kind,
{
}

/// Without a cursor a read starts at the beginning. A cursor stands for the position that it holds,
/// where it belongs to the session and is no longer than 2048 bytes; any other is refused.
pub proof fn law_cursors_are_read_in_their_session_only(
    session: Seq<char>,
    encoded: Seq<char>,
    owner: Seq<char>,
    sequence: u64,
)
    requires
        base64_url_bytes(encoded) matches Some(bytes) && cursor_parts(bytes) == Some(
            (owner, sequence),
        ),
    ensures
        position(session, None) == Ok::<u64, IoError>(0),
        position(session, Some(encoded)) == Ok::<u64, IoError>(sequence) || position(
            session,
            Some(encoded),
        ) is Err,
        position(session, Some(encoded)) is Ok <==> owner == session && text::byte_len(encoded)
            <= 2048,
{
}

/// A text that is no cursor is refused, with the code of a bad content and fixed words.
pub proof fn law_other_texts_are_no_cursors(session: Seq<char>, encoded: Seq<char>)
    requires
        base64_url_bytes(encoded) matches Some(bytes) ==> cursor_parts(bytes) is None,
    ensures
        position(session, Some(encoded)) matches Err(refusal) && refusal.code@
            == "invalid_content_syntax"@ && refusal.message@
            == "Cursor is invalid for this Session"@,
{
}

/// A stream starts from the cursor of its query, and only without one from that of a reconnect.
pub proof fn law_the_query_names_where_a_stream_starts(
    after: Option<Seq<char>>,
    headers: &HeaderMap,
)
    ensures
        after is Some ==> stream_cursor(after, headers) == after,
        after is None ==> stream_cursor(after, headers) == headers.header(
            "last-event-id"@,
        ).readable(),
{
}

/// The position behind a page is the largest sequence number of its events: one of them has it, and
/// none has a larger one.
pub proof fn law_pages_end_behind_their_latest_event(events: Seq<EventRecord>)
    ensures
        match largest_sequence(events) {
            Some(n) => {
                &&& exists|i: int|
                    0 <= i < events.len() && (#[trigger] events[i]).event.sequence == Some(n)
                &&& forall|i: int|
                    0 <= i < events.len() ==> (
                    (#[trigger] events[i]).event.sequence matches Some(m) ==> m <= n)
            },
            None => forall|i: int|
                0 <= i < events.len() ==> (#[trigger] events[i]).event.sequence is None,
        },
    decreases events.len(),
{
    if events.len() > 0 {
        let front = events.drop_last();
        law_pages_end_behind_their_latest_event(front);
        assert forall|i: int| 0 <= i < front.len() implies #[trigger] events[i] == front[i] by {}
        assert(events.last() == events[events.len() - 1]);
        if largest_sequence(front) is Some && largest_sequence(events) == largest_sequence(front) {
            let n = largest_sequence(front)->0;
            let i = choose|i: int|
                0 <= i < front.len() && (#[trigger] front[i]).event.sequence == Some(n);
            assert(events[i].event.sequence == Some(n));
        }
    }
}

/// A page shows exactly the records that clients see.
pub proof fn law_pages_show_what_clients_see(records: Seq<EventRecord>, record: EventRecord)
    ensures
        visible(records).contains(record) <==> records.contains(record) && wire_class(record)
            is Some,
        visible(records).len() <= records.len(),
    decreases records.len(),
{
    reveal(Seq::filter);
    if records.len() > 0 {
        let front = records.drop_last();
        law_pages_show_what_clients_see(front, record);
        assert(records =~= front.push(records.last()));
        if records.contains(record) {
            let i = choose|i: int| 0 <= i < records.len() && records[i] == record;
            if i < front.len() {
                assert(front[i] == record);
            }
        }
        if front.contains(record) {
            let i = choose|i: int| 0 <= i < front.len() && front[i] == record;
            assert(records[i] == record);
        }
        if records.last() == record {
            assert(records[records.len() - 1] == record);
        }
        if wire_class(records.last()) is Some {
            assert(visible(records) =~= visible(front).push(records.last()));
            if visible(front).contains(record) {
                let i = choose|i: int| 0 <= i < visible(front).len() && visible(front)[i] == record;
                assert(visible(records)[i] == record);
            }
            if visible(records).contains(record) {
                let i = choose|i: int| 0 <= i < visible(records).len() && visible(records)[i]
                    == record;
                if i < visible(front).len() {
                    assert(visible(front)[i] == record);
                }
            }
            assert(visible(records)[visible(front).len() as int] == records.last());
        } else {
            assert(visible(records) =~= visible(front));
        }
    }
}

/// What an accepted input was bound to is told as the event's payload holds it.
pub proof fn law_the_binding_is_told_as_it_is_stored(event: Event)
    ensures
        json::member(event.payload@, "session_io"@) matches Some(Json::Object(fields))
            ==> accepted_binding(event) == json::member(fields@, "binding"@),
        json::member(event.payload@, "session_io"@) is None ==> accepted_binding(event) is None,
{
}

/// What is told of an event besides its content is the event's own: its time, its sequence number (0
/// where it has none), and what it came from.
pub proof fn law_shown_events_keep_their_marks(
    shown: WireEvent,
    record: EventRecord,
    preferences: Subscription,
    kind: WireKind,
    message: Option<IoMessage>,
)
    requires
        shown.shows(record, preferences, kind, message),
    ensures
        *shown.event == record.event,
        headers::opt_string(shown.timestamp) == event::timestamp_rfc3339(
            record.event.timestamp.seconds,
            record.event.timestamp.nanos,
        ),
        record.event.sequence is None ==> shown.sequence == 0,
        record.event.sequence matches Some(n) ==> shown.sequence == n,
        *shown.causal == record.causal,
        shown.message_id is Some <==> message is Some,
{
}

/// Input that is too long is refused with this code and these words.
pub proof fn law_long_input_is_named()
    ensures
        input_too_long().code@ == "message_limit_exceeded"@,
        input_too_long().message@ == "Input exceeds the declared byte limit"@,
{
}

/// A page shows one entry for each visible event, in order, and nothing else.
pub proof fn law_pages_show_each_visible_event_once(
    shown: Seq<WireEvent>,
    records: Seq<EventRecord>,
    preferences: Subscription,
)
    requires
        shows_all(shown, records, preferences),
    ensures
        shown.len() == visible(records).len(),
        forall|i: int|
            0 <= i < visible(records).len() ==> (#[trigger] shown[i]).shows(
                visible(records)[i],
                preferences,
                visible_kind(visible(records)[i]),
                visible_message(visible(records)[i]),
            ),
{
}

} // verus!
