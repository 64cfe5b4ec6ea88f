use crate::auth::ServerIdentityMode;
use crate::error;
use crate::error::{
    error_response, sdk_error_response, ErrorReply, Message, SdkError, SdkErrorCode,
};
use crate::event::Event;
use crate::json;
use crate::json::{get, get_at, Json};
use crate::mount;
use crate::mount::refuse_identifier;
use crate::reply;
use crate::reply::internal_response;
use crate::session::SessionStatus;
use crate::text;
use crate::text::{chars_of, find, has_prefix, has_suffix, same, trim};
use base64::Engine;
use vstd::prelude::*;

verus! {

/// How long the text of a message may be, in characters.
pub const MESSAGE_TEXT_LIMIT: usize = 1_000_000;

/// What a message consists of.
pub struct MessageShape<'a> {
    pub text: &'a str,
    pub attachments: usize,
    pub staged_attachments: usize,
    pub references: usize,
}

pub open spec fn message_fault(status: SessionStatus, message: MessageShape) -> Option<
    (u16, &'static str),
> {
    if status == SessionStatus::Archived {
        Some((409, "an archived Session cannot receive new messages"))
    } else if text::trimmed(message.text@).len() == 0 && message.attachments == 0
        && message.staged_attachments == 0 && message.references == 0 {
        Some((400, "message text, attachments, and references cannot all be empty"))
    } else if message.text@.len() > MESSAGE_TEXT_LIMIT {
        Some((413, "message text exceeds 1,000,000 characters"))
    } else {
        None
    }
}

/// Checks a message to a session: the session takes messages, and the message says something and
/// not too much.
pub fn check_message(status: SessionStatus, message: &MessageShape) -> (r: Result<(), ErrorReply>)
    ensures
        r == match message_fault(status, *message) {
            Some((code, reason)) => Err::<(), ErrorReply>(
                error::error_reply(code, Message::Fixed(reason)),
            ),
            None => Ok(()),
        },
{
    if status == SessionStatus::Archived {
        return Err(
            error_response(
                409,
                Message::Fixed("an archived Session cannot receive new messages"),
            ),
        );
    }
    if trim(message.text).is_empty() && message.attachments == 0 && message.staged_attachments == 0
        && message.references == 0 {
        return Err(
            error_response(
                400,
                Message::Fixed("message text, attachments, and references cannot all be empty"),
            ),
        );
    }
    if chars_of(message.text).len() > MESSAGE_TEXT_LIMIT {
        return Err(
            error_response(413, Message::Fixed("message text exceeds 1,000,000 characters")),
        );
    }
    Ok(())
}

/// The identifier under which a client knows its message.
pub fn message_id(given: Option<String>, fresh: String, kind: &'static str) -> (r: Result<
    String,
    ErrorReply,
>)
    ensures
        r == match mount::identifier_refusal(kind, mount::id_or(given, fresh)@) {
            Some(refusal) => Err::<String, ErrorReply>(refusal),
            None => Ok(mount::id_or(given, fresh)),
        },
{
    let id: String = match given {
        Some(id) => id,
        None => fresh,
    };
    match refuse_identifier(kind, id.as_str()) {
        Some(refusal) => Err(refusal),
        None => Ok(id),
    }
}

/// An attachment as a client sends it.
pub struct IncomingAttachment {
    pub name: String,
    pub media_type: String,
    pub data_base64: String,
}

/// An attachment with its content.
pub struct MessageAttachment {
    pub name: String,
    pub media_type: String,
    pub data: Vec<u8>,
}

/// What is to be done next to check what the attachments of a message take up.
pub enum AttachmentTask {
    /// Measure the encoded part of this attachment.
    Measure { index: usize },
    /// Count these bytes in.
    Count { index: usize, bytes: u64 },
    /// Hold the sum against what a message may bring.
    Validate,
    Passed,
    Refuse(ErrorReply),
}

/// How a task came out.
pub enum AttachmentInput {
    Measured(Result<u64, String>),
    Counted(Result<(), String>),
    Validated(Result<(), String>),
}

/// The task for the attachment at a place, or for all of them where there is none.
pub open spec fn attachment_at(count: usize, index: int) -> AttachmentTask {
    if index < count {
        AttachmentTask::Measure { index: index as usize }
    } else {
        AttachmentTask::Validate
    }
}

/// The task that follows another one. An attachment that is badly encoded is a bad request, one that
/// makes the message too large is too large a payload; a task that gets what it did not ask for
/// fails.
pub open spec fn attachment_task_after(
    count: usize,
    task: AttachmentTask,
    input: AttachmentInput,
) -> AttachmentTask {
    match (task, input) {
        (AttachmentTask::Measure { index }, AttachmentInput::Measured(measured)) => match measured {
            Ok(bytes) => AttachmentTask::Count { index, bytes },
            Err(detail) => AttachmentTask::Refuse(error::error_reply(400, Message::Owned(detail))),
        },
        (AttachmentTask::Count { index, .. }, AttachmentInput::Counted(counted)) => match counted {
            Ok(_) => attachment_at(count, index + 1),
            Err(detail) => AttachmentTask::Refuse(error::error_reply(413, Message::Owned(detail))),
        },
        (AttachmentTask::Validate, AttachmentInput::Validated(validated)) => match validated {
            Ok(_) => AttachmentTask::Passed,
            Err(detail) => AttachmentTask::Refuse(error::error_reply(413, Message::Owned(detail))),
        },
        _ => AttachmentTask::Refuse(reply::internal_reply()),
    }
}

pub fn first_attachment_task(count: usize) -> (r: AttachmentTask)
    ensures
        r == attachment_at(count, 0),
{
    if count > 0 {
        AttachmentTask::Measure { index: 0 }
    } else {
        AttachmentTask::Validate
    }
}

pub fn next_attachment_task(count: usize, task: AttachmentTask, input: AttachmentInput) -> (r:
    AttachmentTask)
    ensures
        r == attachment_task_after(count, task, input),
{
    match (task, input) {
        (AttachmentTask::Measure { index }, AttachmentInput::Measured(measured)) => match measured {
            Ok(bytes) => AttachmentTask::Count { index, bytes },
            Err(detail) => AttachmentTask::Refuse(error_response(400, Message::Owned(detail))),
        },
        (AttachmentTask::Count { index, .. }, AttachmentInput::Counted(counted)) => match counted {
            Ok(_) => if index < count && count - index > 1 {
                AttachmentTask::Measure { index: index + 1 }
            } else {
                AttachmentTask::Validate
            },
            Err(detail) => AttachmentTask::Refuse(error_response(413, Message::Owned(detail))),
        },
        (AttachmentTask::Validate, AttachmentInput::Validated(validated)) => match validated {
            Ok(_) => AttachmentTask::Passed,
            Err(detail) => AttachmentTask::Refuse(error_response(413, Message::Owned(detail))),
        },
        _ => AttachmentTask::Refuse(internal_response()),
    }
}

/// Where the check of a message's attachments stands after a number of tasks.
pub open spec fn attachment_task_at(count: usize, inputs: Seq<AttachmentInput>) -> AttachmentTask
    decreases inputs.len(),
{
    if inputs.len() == 0 {
        attachment_at(count, 0)
    } else {
        attachment_task_after(count, attachment_task_at(count, inputs.drop_last()), inputs.last())
    }
}

/// The attachments are taken one after the other, each measured and then counted in, and a message
/// passes only after all of them.
pub proof fn law_every_attachment_is_counted(count: usize, inputs: Seq<AttachmentInput>)
    ensures
        match attachment_task_at(count, inputs) {
            AttachmentTask::Measure { index } => index < count && inputs.len() == 2 * index,
            AttachmentTask::Count { index, bytes } => index < count && inputs.len() == 2 * index + 1
                && inputs.last() == AttachmentInput::Measured(Ok(bytes)),
            AttachmentTask::Validate => inputs.len() == 2 * count,
            AttachmentTask::Passed => inputs.len() == 2 * count + 1,
            AttachmentTask::Refuse(_) => true,
        },
    decreases inputs.len(),
{
    if inputs.len() > 0 {
        law_every_attachment_is_counted(count, inputs.drop_last());
    }
}

/// The Base64 part of an attachment: what follows the head of a data URL, where it has one.
pub open spec fn encoded_part(data: Seq<char>) -> Seq<char> {
    match text::find_from(data, ","@, 0) {
        Some(i) if text::starts_with(data.subrange(0, i), "data:"@) && text::ends_with(
            data.subrange(0, i),
            ";base64"@,
        ) => data.subrange(i + 1, data.len() as int),
        _ => data,
    }
}

pub fn attachment_payload(data: &str) -> (r: &str)
    ensures
        r@ == encoded_part(data@),
{
    proof {
        reveal_strlit(",");
    }
    match find(data, ",") {
        Some(i) => {
            let head = data.substring_char(0, i);
            if has_prefix(head, "data:") && has_suffix(head, ";base64") {
                let len: usize = data.unicode_len();
                data.substring_char(i + 1, len)
            } else {
                data
            }
        },
        None => data,
    }
}

/// The bytes of a Base64 text with the standard alphabet and padding, `None` where it is not one.
pub uninterp spec fn base64_bytes(text: Seq<char>) -> Option<Seq<u8>>;

/// `base64` with the standard alphabet and padding: `decode`. The outcome is a function of the
/// text alone.
#[verifier::external_body]
fn decode_base64(text: &str) -> (r: Option<Vec<u8>>)
    ensures
        match base64_bytes(text@) {
            Some(bytes) => r matches Some(v) && v@ == bytes,
            None => r is None,
        },
{
    base64::engine::general_purpose::STANDARD.decode(text).ok()
}

/// An attachment with the content that its text was decoded to.
pub fn attach(name: String, media_type: String, decoded: Option<Vec<u8>>) -> (r: Result<
    MessageAttachment,
    ErrorReply,
>)
    ensures
        r == match decoded {
            Some(data) => Ok::<MessageAttachment, ErrorReply>(
                MessageAttachment { name, media_type, data },
            ),
            None => Err(
                error::error_reply(
                    400,
                    Message::Around {
                        before: "attachment '",
                        value: name,
                        after: "' is not valid base64 data",
                    },
                ),
            ),
        },
{
    match decoded {
        Some(data) => Ok(MessageAttachment { name, media_type, data }),
        None => Err(
            error_response(
                400,
                Message::Around {
                    before: "attachment '",
                    value: name,
                    after: "' is not valid base64 data",
                },
            ),
        ),
    }
}

/// The content of an attachment.
pub open spec fn content_of(attachment: IncomingAttachment) -> Option<Seq<u8>> {
    base64_bytes(encoded_part(attachment.data_base64@))
}

/// The first attachment whose text cannot be decoded.
pub open spec fn first_undecodable(attachments: Seq<IncomingAttachment>) -> Option<
    IncomingAttachment,
>
    decreases attachments.len(),
{
    if attachments.len() == 0 {
        None
    } else if first_undecodable(attachments.drop_last()) is Some {
        first_undecodable(attachments.drop_last())
    } else if content_of(attachments.last()) is None {
        Some(attachments.last())
    } else {
        None
    }
}

proof fn lemma_undecodable_prefix(attachments: Seq<IncomingAttachment>, n: int)
    requires
        0 <= n <= attachments.len(),
        first_undecodable(attachments.subrange(0, n)) is Some,
    ensures
        first_undecodable(attachments) == first_undecodable(attachments.subrange(0, n)),
    decreases attachments.len() - n,
{
    if n == attachments.len() {
        assert(attachments.subrange(0, n) =~= attachments);
    } else {
        assert(attachments.subrange(0, n + 1).drop_last() =~= attachments.subrange(0, n));
        lemma_undecodable_prefix(attachments, n + 1);
    }
}

/// The attachments of a message with their contents. The first one that cannot be decoded refuses
/// the message.
pub fn decode_attachments(attachments: &Vec<IncomingAttachment>) -> (r: Result<
    Vec<MessageAttachment>,
    ErrorReply,
>)
    ensures
        match first_undecodable(attachments@) {
            Some(bad) => r == Err::<Vec<MessageAttachment>, ErrorReply>(
                error::error_reply(
                    400,
                    Message::Around {
                        before: "attachment '",
                        value: bad.name,
                        after: "' is not valid base64 data",
                    },
                ),
            ),
            None => r matches Ok(decoded) && decoded.len() == attachments.len() && forall|i: int|
                0 <= i < decoded.len() ==> (#[trigger] decoded[i]).name == attachments[i].name
                    && decoded[i].media_type == attachments[i].media_type && Some(
                    decoded[i].data@,
                ) == content_of(attachments[i]),
        },
{
    let mut decoded: Vec<MessageAttachment> = Vec::new();
    let mut i: usize = 0;
    proof {
        assert(attachments@.subrange(0, 0) =~= Seq::<IncomingAttachment>::empty());
    }
    while i < attachments.len()
        invariant
            0 <= i <= attachments.len(),
            decoded.len() == i,
            first_undecodable(attachments@.subrange(0, i as int)) is None,
            forall|j: int|
                0 <= j < i ==> (#[trigger] decoded[j]).name == attachments[j].name
                    && decoded[j].media_type == attachments[j].media_type && Some(
                    decoded[j].data@,
                ) == content_of(attachments[j]),
        decreases attachments.len() - i,
    {
        let attachment = &attachments[i];
        let bytes = decode_base64(attachment_payload(attachment.data_base64.as_str()));
        proof {
            let seen = attachments@.subrange(0, i + 1);
            assert(seen.drop_last() =~= attachments@.subrange(0, i as int));
            assert(seen.last() == attachments@[i as int]);
            if bytes is None {
                lemma_undecodable_prefix(attachments@, i + 1);
            }
        }
        match attach(attachment.name.clone(), attachment.media_type.clone(), bytes) {
            Ok(found) => {
                decoded.push(found);
            },
            Err(refusal) => {
                return Err(refusal);
            },
        }
        i = i + 1;
    }
    proof {
        assert(attachments@.subrange(0, attachments@.len() as int) =~= attachments@);
    }
    Ok(decoded)
}

/// The status for a delivery: a message that came before is not accepted a second time.
pub fn delivery_status(duplicate: bool) -> (r: u16)
    ensures
        r == if duplicate {
            200u16
        } else {
            202u16
        },
{
    if duplicate {
        200
    } else {
        202
    }
}

/// What the runtime tells of a message that it took.
pub struct DeliveryReceipt {
    /// Whether the same message was taken before.
    pub duplicate: bool,
    pub interrupted: Json,
    pub dispatch_mode: Json,
    pub event_id: String,
    pub client_message_id: Json,
}

/// The answer to a message that was taken. Its trace is the event that the message became.
pub struct DeliveryReply {
    pub status: u16,
    pub accepted: bool,
    pub receipt: DeliveryReceipt,
}

/// What is answered to a message, given what the runtime made of it.
pub open spec fn delivery_of(outcome: Result<DeliveryReceipt, SdkError>) -> Result<
    DeliveryReply,
    ErrorReply,
> {
    match outcome {
        Ok(receipt) => Ok(
            DeliveryReply {
                status: if receipt.duplicate {
                    200
                } else {
                    202
                },
                accepted: true,
                receipt,
            },
        ),
        Err(refusal) => Err(error::sdk_reply(refusal)),
    }
}

pub fn delivery_reply(outcome: Result<DeliveryReceipt, SdkError>) -> (r: Result<
    DeliveryReply,
    ErrorReply,
>)
    ensures
        r == delivery_of(outcome),
{
    match outcome {
        Ok(receipt) => Ok(
            DeliveryReply { status: delivery_status(receipt.duplicate), accepted: true, receipt },
        ),
        Err(refusal) => Err(sdk_error_response(refusal)),
    }
}

/// What a runtime makes of a message that keeps the first request under each client identifier.
pub enum Delivery {
    New,
    Duplicate,
    Conflict,
}

/// What becomes of a request, given the requests that are kept.
pub open spec fn delivery_in<R>(kept: Map<Seq<char>, R>, id: Seq<char>, request: R) -> Delivery {
    if !kept.contains_key(id) {
        Delivery::New
    } else if kept[id] == request {
        Delivery::Duplicate
    } else {
        Delivery::Conflict
    }
}

/// The requests that are kept afterwards.
pub open spec fn kept_after<R>(kept: Map<Seq<char>, R>, id: Seq<char>, request: R) -> Map<
    Seq<char>,
    R,
> {
    if kept.contains_key(id) {
        kept
    } else {
        kept.insert(id, request)
    }
}

/// Whether a runtime tells what it made of a message.
pub open spec fn tells(outcome: Result<DeliveryReceipt, SdkError>, delivery: Delivery) -> bool {
    match delivery {
        Delivery::New => outcome matches Ok(receipt) && !receipt.duplicate,
        Delivery::Duplicate => outcome matches Ok(receipt) && receipt.duplicate,
        Delivery::Conflict => outcome matches Err(refusal) && refusal.code
            == SdkErrorCode::Conflict,
    }
}

/// With a runtime that keeps the first request under each client identifier, a message is accepted
/// once. Sent again it goes under the same identifier, whatever identifier would be fresh, and is
/// answered as a duplicate; another request under that identifier is a conflict; and neither of them
/// changes what is kept.
pub proof fn law_messages_are_accepted_once<R>(
    kept: Map<Seq<char>, R>,
    id: String,
    fresh: String,
    request: R,
    other: R,
    first: Result<DeliveryReceipt, SdkError>,
    again: Result<DeliveryReceipt, SdkError>,
    changed: Result<DeliveryReceipt, SdkError>,
)
    requires
        !kept.contains_key(id@),
        other != request,
        tells(first, delivery_in(kept, id@, request)),
        tells(again, delivery_in(kept_after(kept, id@, request), id@, request)),
        tells(changed, delivery_in(kept_after(kept, id@, request), id@, other)),
    ensures
        mount::id_or(Some(id), fresh) == id,
        delivery_of(first) matches Ok(reply) && reply.status == 202 && !reply.receipt.duplicate,
        delivery_of(again) matches Ok(reply) && reply.status == 200 && reply.receipt.duplicate,
        delivery_of(changed) matches Err(refusal) && refusal.status == 409 && refusal.code
            == error::ErrorCode::Conflict,
        kept_after(kept_after(kept, id@, request), id@, request) == kept_after(
            kept,
            id@,
            request,
        ),
        kept_after(kept_after(kept, id@, request), id@, other)[id@] == request,
{
}

/// Claiming a session is for callers behind a trusted gateway.
pub fn check_session_claim(mode: ServerIdentityMode) -> (r: Result<(), ErrorReply>)
    ensures
        r == if mode == ServerIdentityMode::TrustedGateway {
            Ok::<(), ErrorReply>(())
        } else {
            Err(
                error::error_reply(
                    400,
                    Message::Fixed(
                        "default identity mode does not require explicitly claiming a Session",
                    ),
                ),
            )
        },
{
    if mode == ServerIdentityMode::TrustedGateway {
        Ok(())
    } else {
        Err(
            error_response(
                400,
                Message::Fixed(
                    "default identity mode does not require explicitly claiming a Session",
                ),
            ),
        )
    }
}

/// The first of the listed attachments with an identifier.
pub open spec fn attachment_in(list: Seq<Json>, id: Seq<char>) -> Option<Json>
    decreases list.len(),
{
    if list.len() == 0 {
        None
    } else if json::text_at(list[0], "id"@) == Some(id) {
        Some(list[0])
    } else {
        attachment_in(list.drop_first(), id)
    }
}

/// The attachment of an event with an identifier.
pub open spec fn attachment_of(event: Event, id: Seq<char>) -> Option<Json> {
    match json::member(event.payload@, "attachments"@) {
        Some(Json::List(list)) => attachment_in(list@, id),
        _ => None,
    }
}

/// Whether an attachment can be shown as a picture.
pub open spec fn is_image(attachment: Json) -> bool {
    match json::text_at(attachment, "media_type"@) {
        Some(media_type) => text::starts_with(media_type, "image/"@),
        None => false,
    }
}

fn find_attachment<'a>(event: &'a Event, id: &str) -> (r: Option<&'a Json>)
    ensures
        match attachment_of(*event, id@) {
            Some(found) => r matches Some(shown) && *shown == found,
            None => r is None,
        },
{
    let list: &'a Vec<Json> = match get(&event.payload, "attachments") {
        Some(Json::List(list)) => list,
        _ => {
            return None;
        },
    };
    let mut i: usize = 0;
    proof {
        assert(list@.subrange(0, list@.len() as int) =~= list@);
    }
    while i < list.len()
        invariant
            0 <= i <= list.len(),
            attachment_of(*event, id@) == attachment_in(
                list@.subrange(i as int, list@.len() as int),
                id@,
            ),
        decreases list.len() - i,
    {
        proof {
            assert(list@.subrange(i as int, list@.len() as int).drop_first() =~= list@.subrange(
                i + 1,
                list@.len() as int,
            ));
        }
        let found: bool = match get_at(&list[i], "id") {
            Some(Json::Text(text)) => same(text.as_str(), id),
            _ => false,
        };
        if found {
            return Some(&list[i]);
        }
        i = i + 1;
    }
    None
}

/// The picture that a preview of an event's attachment shows.
pub fn previewable_attachment<'a>(event: Option<&'a Event>, attachment_id: &str) -> (r: Result<
    &'a Json,
    ErrorReply,
>)
    ensures
        match event {
            None => r == Err::<&Json, ErrorReply>(
                error::error_reply(404, Message::Fixed("attachment Event does not exist")),
            ),
            Some(found) => match attachment_of(*found, attachment_id@) {
                None => r == Err::<&Json, ErrorReply>(
                    error::error_reply(
                        404,
                        Message::Fixed("attachment does not exist in the Event"),
                    ),
                ),
                Some(attachment) => if is_image(attachment) {
                    r matches Ok(shown) && *shown == attachment
                } else {
                    r == Err::<&Json, ErrorReply>(
                        error::error_reply(
                            415,
                            Message::Fixed("attachment is not a previewable image"),
                        ),
                    )
                },
            },
        },
{
    let event = match event {
        Some(event) => event,
        None => {
            return Err(error_response(404, Message::Fixed("attachment Event does not exist")));
        },
    };
    let attachment = match find_attachment(event, attachment_id) {
        Some(attachment) => attachment,
        None => {
            return Err(
                error_response(404, Message::Fixed("attachment does not exist in the Event")),
            );
        },
    };
    let image: bool = match get_at(attachment, "media_type") {
        Some(Json::Text(media_type)) => has_prefix(media_type.as_str(), "image/"),
        _ => false,
    };
    if image {
        Ok(attachment)
    } else {
        Err(error_response(415, Message::Fixed("attachment is not a previewable image")))
    }
}

/// The headers of a preview: it never changes, and only its own owner caches it.
pub fn preview_headers() -> (r: Vec<(&'static str, &'static str)>)
    ensures
        r@ == seq![
            ("cache-control", "private, max-age=31536000, immutable"),
            ("x-content-type-options", "nosniff"),
        ],
{
    vec![
        ("cache-control", "private, max-age=31536000, immutable"),
        ("x-content-type-options", "nosniff"),
    ]
}

/// A message is taken by an active session, where it holds anything and its text is no longer than a
/// million characters.
pub proof fn law_messages_are_refused_for_cause_only(status: SessionStatus, message: MessageShape)
    ensures
        ({
            let empty = text::trimmed(message.text@).len() == 0 && message.attachments == 0
                && message.staged_attachments == 0 && message.references == 0;
            let long = message.text@.len() > 1_000_000;
            match message_fault(status, message) {
                None => status == SessionStatus::Active && !empty && !long,
                Some((code, words)) => if status == SessionStatus::Archived {
                    code == 409 && words == "an archived Session cannot receive new messages"
                } else if empty {
                    code == 400 && words
                        == "message text, attachments, and references cannot all be empty"
                } else {
                    long && code == 413 && words == "message text exceeds 1,000,000 characters"
                },
            }
        }),
{
}

/// The encoded part of an attachment is what follows the first comma of a Base64 data URL, and the
/// whole text of anything else.
pub proof fn law_data_urls_are_taken_apart(head: Seq<char>, data: Seq<char>)
    requires
        forall|i: int| 0 <= i < head.len() ==> head[i] != ',',
    ensures
        text::starts_with(head, "data:"@) && text::ends_with(head, ";base64"@) ==> encoded_part(
            head + seq![','] + data,
        ) == data,
        !(text::starts_with(head, "data:"@) && text::ends_with(head, ";base64"@)) ==> encoded_part(
            head + seq![','] + data,
        ) == head + seq![','] + data,
        encoded_part(head) == head,
{
    reveal_strlit(",");
    let whole = head + seq![','] + data;
    text::law_patterns_are_found_where_they_first_occur(whole, ","@, 0);
    text::law_patterns_are_found_where_they_first_occur(head, ","@, 0);
    assert(","@ =~= seq![',']);
    assert(whole.subrange(head.len() as int, head.len() as int + 1) =~= ","@);
    if text::find_from(whole, ","@, 0) is Some {
        let i = text::find_from(whole, ","@, 0)->0;
        assert(whole.subrange(i, i + 1)[0] == whole[i]);
        if i < head.len() {
            assert(whole[i] == head[i]);
        }
    }
    if text::find_from(head, ","@, 0) is Some {
        let i = text::find_from(head, ","@, 0)->0;
        assert(head.subrange(i, i + 1)[0] == head[i]);
    }
    assert(whole.subrange(0, head.len() as int) =~= head);
    assert(whole.subrange(head.len() as int + 1, whole.len() as int) =~= data);
}

/// The attachment that refuses a message is one that cannot be decoded, and all before it can; a
/// message without one is not refused.
pub proof fn law_the_first_bad_attachment_refuses(attachments: Seq<IncomingAttachment>)
    ensures
        match first_undecodable(attachments) {
            Some(bad) => exists|i: int|
                0 <= i < attachments.len() && #[trigger] attachments[i] == bad && base64_bytes(
                    encoded_part(bad.data_base64@),
                ) is None && forall|j: int|
                    0 <= j < i ==> base64_bytes(
                        encoded_part((#[trigger] attachments[j]).data_base64@),
                    ) is Some,
            None => forall|j: int|
                0 <= j < attachments.len() ==> base64_bytes(
                    encoded_part((#[trigger] attachments[j]).data_base64@),
                ) is Some,
        },
    decreases attachments.len(),
{
    if attachments.len() > 0 {
        let front = attachments.drop_last();
        law_the_first_bad_attachment_refuses(front);
        assert forall|j: int| 0 <= j < front.len() implies #[trigger] attachments[j] == front[j] by {}
        assert(attachments.last() == attachments[attachments.len() - 1]);
        if first_undecodable(front) is Some {
            let bad = first_undecodable(front)->0;
            let i = choose|i: int|
                0 <= i < front.len() && #[trigger] front[i] == bad && base64_bytes(
                    encoded_part(bad.data_base64@),
                ) is None && forall|j: int|
                    0 <= j < i ==> base64_bytes(encoded_part((#[trigger] front[j]).data_base64@))
                        is Some;
            assert(attachments[i] == bad);
            assert forall|j: int| 0 <= j < i implies base64_bytes(
                encoded_part((#[trigger] attachments[j]).data_base64@),
            ) is Some by {
                assert(front[j] == attachments[j]);
            }
        }
    }
}

/// A delivery is answered with 202 where it is new and with 200 where it came before, and says so; a
/// refusal of the runtime is passed on with its own status.
pub proof fn law_deliveries_are_told_apart(outcome: Result<DeliveryReceipt, SdkError>)
    ensures
        outcome matches Ok(receipt) ==> (delivery_of(outcome) matches Ok(reply) && reply.accepted
            && reply.receipt == receipt && reply.status == if receipt.duplicate {
            200u16
        } else {
            202u16
        }),
        outcome matches Err(refusal) ==> (delivery_of(outcome) matches Err(reply) && reply
            == error::sdk_reply(refusal)),
{
}

/// The attachment of an event is the first listed one with the identifier.
pub proof fn law_attachments_are_found_by_identifier(list: Seq<Json>, id: Seq<char>)
    ensures
        match attachment_in(list, id) {
            Some(found) => exists|i: int|
                0 <= i < list.len() && #[trigger] list[i] == found && json::text_at(found, "id"@)
                    == Some(id) && forall|j: int|
                    0 <= j < i ==> json::text_at(#[trigger] list[j], "id"@) != Some(id),
            None => forall|j: int|
                0 <= j < list.len() ==> json::text_at(#[trigger] list[j], "id"@) != Some(id),
        },
    decreases list.len(),
{
    if list.len() > 0 && json::text_at(list[0], "id"@) != Some(id) {
        let rest = list.drop_first();
        law_attachments_are_found_by_identifier(rest, id);
        assert forall|j: int| 0 < j < list.len() implies #[trigger] list[j] == rest[j - 1] by {}
        if attachment_in(rest, id) is Some {
            let found = attachment_in(rest, id)->0;
            let i = choose|i: int|
                0 <= i < rest.len() && #[trigger] rest[i] == found && json::text_at(found, "id"@)
                    == Some(id) && forall|j: int|
                    0 <= j < i ==> json::text_at(#[trigger] rest[j], "id"@) != Some(id);
            assert(list[i + 1] == found);
            assert forall|j: int| 0 <= j < i + 1 implies json::text_at(
                #[trigger] list[j],
                "id"@,
            ) != Some(id) by {
                if j > 0 {
                    assert(rest[j - 1] == list[j]);
                }
            }
        }
    }
}

/// Attachments are listed under their name in the payload of an event, and one is a picture where its
/// media type says so.
pub proof fn law_pictures_are_told_by_their_media_type(event: Event, id: Seq<char>, attachment: Json)
    ensures
        json::member(event.payload@, "attachments"@) matches Some(Json::List(list))
            ==> attachment_of(event, id) == attachment_in(list@, id),
        !(json::member(event.payload@, "attachments"@) matches Some(Json::List(_)))
            ==> attachment_of(event, id) is None,
        is_image(attachment) <==> (json::text_at(attachment, "media_type"@) matches Some(kind)
            && text::starts_with(kind, "image/"@)),
{
}

/// How the check of attachments goes on: a part that cannot be measured is a bad request, one that is
/// too much is too large, and only after the last one the sum is held against the limits.
pub proof fn law_attachment_checks_go_part_by_part(
    count: usize,
    index: usize,
    bytes: u64,
    detail: String,
)
    requires
        index < count,
    ensures
        attachment_task_after(
            count,
            AttachmentTask::Measure { index },
            AttachmentInput::Measured(Ok(bytes)),
        ) == (AttachmentTask::Count { index, bytes }),
        attachment_task_after(
            count,
            AttachmentTask::Measure { index },
            AttachmentInput::Measured(Err(detail)),
        ) matches AttachmentTask::Refuse(reply) && reply.status == 400 && reply.message@ == detail@,
        attachment_task_after(
            count,
            AttachmentTask::Count { index, bytes },
            AttachmentInput::Counted(Err(detail)),
        ) matches AttachmentTask::Refuse(reply) && reply.status == 413 && reply.message@ == detail@,
        index + 1 < count ==> (attachment_task_after(
            count,
            AttachmentTask::Count { index, bytes },
            AttachmentInput::Counted(Ok(())),
        ) matches AttachmentTask::Measure { index: next } && next == index + 1),
        index + 1 == count ==> attachment_task_after(
            count,
            AttachmentTask::Count { index, bytes },
            AttachmentInput::Counted(Ok(())),
        ) is Validate,
        attachment_task_after(
            count,
            AttachmentTask::Validate,
            AttachmentInput::Validated(Ok(())),
        ) is Passed,
        attachment_task_after(
            count,
            AttachmentTask::Validate,
            AttachmentInput::Validated(Err(detail)),
        ) matches AttachmentTask::Refuse(reply) && reply.status == 413 && reply.message@ == detail@,
{
}

} // verus!
